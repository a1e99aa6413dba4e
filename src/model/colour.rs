use vstd::prelude::*;

verus! {

/// A colour with four 8-bit channels.
#[derive(Debug, Clone, Copy, PartialEq, Eq, Structural)]
pub struct Colour {
    r: u8,
    g: u8,
    b: u8,
    a: u8,
}

impl Colour {
    /// The red channel.
    pub closed spec fn spec_r(&self) -> u8 {
        self.r
    }

    /// The green channel.
    pub closed spec fn spec_g(&self) -> u8 {
        self.g
    }

    /// The blue channel.
    pub closed spec fn spec_b(&self) -> u8 {
        self.b
    }

    /// The alpha channel.
    pub closed spec fn spec_a(&self) -> u8 {
        self.a
    }

    pub fn new(r: u8, g: u8, b: u8, a: u8) -> (c: Self)
        ensures
            c.spec_r() == r,
            c.spec_g() == g,
            c.spec_b() == b,
            c.spec_a() == a,
    {
        Colour { r, g, b, a }
    }

    #[verifier::when_used_as_spec(spec_r)]
    pub fn r(&self) -> (v: u8)
        ensures
            v == self.spec_r(),
    {
        self.r
    }

    #[verifier::when_used_as_spec(spec_g)]
    pub fn g(&self) -> (v: u8)
        ensures
            v == self.spec_g(),
    {
        self.g
    }

    #[verifier::when_used_as_spec(spec_b)]
    pub fn b(&self) -> (v: u8)
        ensures
            v == self.spec_b(),
    {
        self.b
    }

    #[verifier::when_used_as_spec(spec_a)]
    pub fn a(&self) -> (v: u8)
        ensures
            v == self.spec_a(),
    {
        self.a
    }
}

} // verus!

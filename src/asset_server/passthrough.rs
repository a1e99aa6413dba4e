use vstd::prelude::*;

verus! {

/// Number of bytes of state kept by a [`PassthroughHasher`].
pub const HASH_WIDTH: usize = 8;

/// The little-endian value of a byte sequence.
pub open spec fn le_value(s: Seq<u8>) -> nat
    decreases s.len(),
{
    if s.len() == 0 {
        0
    } else {
        s[0] as nat + 256 * le_value(s.drop_first())
    }
}

/// The state after feeding `bytes` to a hasher whose state was `buf`: a short
/// write shifts the window and appends the bytes, a long one keeps its first
/// eight bytes.
pub open spec fn write_spec(buf: Seq<u8>, bytes: Seq<u8>) -> Seq<u8> {
    if bytes.len() <= 8 {
        buf.subrange(bytes.len() as int, 8) + bytes
    } else {
        bytes.subrange(0, 8)
    }
}

/// A hasher that keeps the last eight bytes written to it and reports them
/// as a little-endian integer.
#[derive(Debug, Clone, Copy, PartialEq, Eq)]
pub struct PassthroughHasher {
    buf: [u8; 8],
}

impl View for PassthroughHasher {
    type V = Seq<u8>;

    closed spec fn view(&self) -> Seq<u8> {
        self.buf@
    }
}

proof fn lemma_le_value_bound(s: Seq<u8>)
    ensures
        le_value(s) < pow256(s.len()),
    decreases s.len(),
{
    if s.len() > 0 {
        lemma_le_value_bound(s.drop_first());
        assert(le_value(s.drop_first()) + 1 <= pow256((s.len() - 1) as nat));
        assert(s[0] as nat + 256 * le_value(s.drop_first()) < 256 * pow256(
            (s.len() - 1) as nat,
        )) by (nonlinear_arith)
            requires
                s[0] < 256,
                le_value(s.drop_first()) + 1 <= pow256((s.len() - 1) as nat),
        ;
    }
}

/// Eight bytes read little-endian fit in a `u64`.
pub proof fn lemma_le_value_fits(s: Seq<u8>)
    requires
        s.len() == 8,
    ensures
        le_value(s) <= u64::MAX,
{
    lemma_le_value_bound(s);
    assert(pow256(8) == 18446744073709551616nat) by {
        reveal_with_fuel(pow256, 9);
    }
}

/// `256` raised to `n`.
pub open spec fn pow256(n: nat) -> nat
    decreases n,
{
    if n == 0 {
        1
    } else {
        256 * pow256((n - 1) as nat)
    }
}

impl PassthroughHasher {
    /// A hasher always keeps eight bytes.
    pub proof fn lemma_width(&self)
        ensures
            self@.len() == 8,
    {
    }

    /// A hasher whose eight bytes are all zero.
    pub fn new() -> (r: Self)
        ensures
            r@ == Seq::new(8, |i: int| 0u8),
    {
        let r = PassthroughHasher { buf: [0u8; 8] };
        assert(r@ =~= Seq::new(8, |i: int| 0u8));
        r
    }

    /// The eight bytes kept, read as a little-endian integer.
    pub fn finish(&self) -> (r: u64)
        ensures
            r as nat == le_value(self@),
    {
        proof {
            self.lemma_width();
        }
        let mut acc: u64 = 0;
        let mut i: usize = HASH_WIDTH;
        while i > 0
            invariant
                0 <= i <= 8,
                self@.len() == 8,
                acc as nat == le_value(self@.subrange(i as int, 8)),
            decreases i,
        {
            let byte = self.buf[i - 1];
            proof {
                let tail = self@.subrange(i as int, 8);
                let s = self@.subrange(i - 1, 8);
                assert(s.drop_first() =~= tail);
                lemma_le_value_bound(tail);
                assert(pow256(tail.len()) <= pow256(7)) by {
                    lemma_pow256_mono(tail.len(), 7);
                }
                assert(pow256(7) == 72057594037927936nat) by {
                    reveal_with_fuel(pow256, 8);
                }
                assert(le_value(s) == byte as nat + 256 * acc as nat);
                assert(byte as nat + 256 * acc as nat <= 18446744073709551615nat);
            }
            acc = (byte as u64) + 256 * acc;
            i = i - 1;
        }
        assert(self@.subrange(0, 8) =~= self@);
        acc
    }

    /// Feeds `bytes` to the hasher.
    pub fn write(&mut self, bytes: &[u8])
        ensures
            final(self)@.len() == 8,
            final(self)@ == write_spec(old(self)@, bytes@),
    {
        proof {
            self.lemma_width();
        }
        let n = bytes.len();
        let old_buf = self.buf;
        let mut i: usize = 0;
        if n <= HASH_WIDTH {
            let keep = HASH_WIDTH - n;
            while i < HASH_WIDTH
                invariant
                    n <= 8,
                    keep == 8 - n,
                    n == bytes@.len(),
                    0 <= i <= 8,
                    self@.len() == 8,
                    old_buf@.len() == 8,
                    forall|j: int|
                        0 <= j < i ==> self@[j] == (if j < keep {
                            old_buf@[j + n]
                        } else {
                            bytes@[j - keep]
                        }),
                decreases 8 - i,
            {
                let v = if i < keep {
                    old_buf[i + n]
                } else {
                    bytes[i - keep]
                };
                self.buf[i] = v;
                i = i + 1;
            }
        } else {
            while i < HASH_WIDTH
                invariant
                    n > 8,
                    n == bytes@.len(),
                    0 <= i <= 8,
                    self@.len() == 8,
                    forall|j: int| 0 <= j < i ==> self@[j] == bytes@[j],
                decreases 8 - i,
            {
                self.buf[i] = bytes[i];
                i = i + 1;
            }
        }
        assert(self@ =~= write_spec(old_buf@, bytes@));
    }
}

proof fn lemma_pow256_mono(a: nat, b: nat)
    requires
        a <= b,
    ensures
        pow256(a) <= pow256(b),
    decreases b,
{
    if a < b {
        lemma_pow256_mono(a, (b - 1) as nat);
    }
}

/// Builds fresh [`PassthroughHasher`]s.
#[derive(Debug, Clone, Copy, PartialEq, Eq)]
pub struct PassthroughHasherBuilder;

impl PassthroughHasherBuilder {
    /// A fresh hasher, all of whose bytes are zero.
    pub fn build_hasher(&self) -> (r: PassthroughHasher)
        ensures
            r@ == Seq::new(8, |i: int| 0u8),
    {
        PassthroughHasher::new()
    }
}

} // verus!

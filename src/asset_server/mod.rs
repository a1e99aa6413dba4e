//! The typed asset cache: values stored under identities derived from seeds,
//! reached through keys that carry the type of what they refer to.

use std::collections::HashMap;
use std::marker::PhantomData;

use vstd::prelude::*;
use vstd::string::StringSliceAdditionalSpecFns;

use crate::model::colour::Colour;
use crate::model::material::Material;
use crate::model::shape::Shape;
use crate::model::texture::GPUTexture;

pub mod passthrough;

use self::passthrough::{le_value, write_spec, PassthroughHasher, PassthroughHasherBuilder};

verus! {

broadcast use vstd::std_specs::hash::group_hash_axioms;

/// The byte that ends a string seed, so that no seed is a prefix of another.
pub const SEED_TERMINATOR: u8 = 0xff;

/// The identity of the string seed whose bytes are `seed`: a fresh
/// [`PassthroughHasher`] fed the bytes and then the terminator.
pub open spec fn identity_of(seed: Seq<u8>) -> u64 {
    le_value(
        write_spec(write_spec(Seq::new(8, |i: int| 0u8), seed), seq![SEED_TERMINATOR]),
    ) as u64
}

/// A value of any kind that the cache stores.
#[derive(Debug)]
pub enum AssetValue {
    Colour(Colour),
    Texture(GPUTexture),
    Material(Material),
    Shape(Shape),
}

/// A kind of value that the cache can store and hand back.
pub trait Asset: Sized {
    /// The stored form of `v`.
    spec fn wrap(v: Self) -> AssetValue;

    /// The value of this kind that a stored value holds, if it is of this kind.
    spec fn unwrap(v: AssetValue) -> Option<Self>;

    /// A value comes back out of its stored form unchanged.
    proof fn lemma_unwrap_wrap(v: Self)
        ensures
            Self::unwrap(Self::wrap(v)) == Some(v),
    ;

    fn into_asset(self) -> (r: AssetValue)
        ensures
            r == Self::wrap(self),
    ;

    fn from_asset(v: &AssetValue) -> (r: Option<&Self>)
        ensures
            match r {
                Some(x) => Self::unwrap(*v) == Some(*x),
                None => Self::unwrap(*v).is_none(),
            },
    ;
}

impl Asset for Colour {
    open spec fn wrap(v: Self) -> AssetValue {
        AssetValue::Colour(v)
    }

    open spec fn unwrap(v: AssetValue) -> Option<Self> {
        match v {
            AssetValue::Colour(c) => Some(c),
            _ => None,
        }
    }

    proof fn lemma_unwrap_wrap(v: Self) {
    }

    fn into_asset(self) -> (r: AssetValue) {
        AssetValue::Colour(self)
    }

    fn from_asset(v: &AssetValue) -> (r: Option<&Self>) {
        match v {
            AssetValue::Colour(c) => Some(c),
            _ => None,
        }
    }
}

impl Asset for GPUTexture {
    open spec fn wrap(v: Self) -> AssetValue {
        AssetValue::Texture(v)
    }

    open spec fn unwrap(v: AssetValue) -> Option<Self> {
        match v {
            AssetValue::Texture(t) => Some(t),
            _ => None,
        }
    }

    proof fn lemma_unwrap_wrap(v: Self) {
    }

    fn into_asset(self) -> (r: AssetValue) {
        AssetValue::Texture(self)
    }

    fn from_asset(v: &AssetValue) -> (r: Option<&Self>) {
        match v {
            AssetValue::Texture(t) => Some(t),
            _ => None,
        }
    }
}

impl Asset for Material {
    open spec fn wrap(v: Self) -> AssetValue {
        AssetValue::Material(v)
    }

    open spec fn unwrap(v: AssetValue) -> Option<Self> {
        match v {
            AssetValue::Material(m) => Some(m),
            _ => None,
        }
    }

    proof fn lemma_unwrap_wrap(v: Self) {
    }

    fn into_asset(self) -> (r: AssetValue) {
        AssetValue::Material(self)
    }

    fn from_asset(v: &AssetValue) -> (r: Option<&Self>) {
        match v {
            AssetValue::Material(m) => Some(m),
            _ => None,
        }
    }
}

impl Asset for Shape {
    open spec fn wrap(v: Self) -> AssetValue {
        AssetValue::Shape(v)
    }

    open spec fn unwrap(v: AssetValue) -> Option<Self> {
        match v {
            AssetValue::Shape(s) => Some(s),
            _ => None,
        }
    }

    proof fn lemma_unwrap_wrap(v: Self) {
    }

    fn into_asset(self) -> (r: AssetValue) {
        AssetValue::Shape(self)
    }

    fn from_asset(v: &AssetValue) -> (r: Option<&Self>) {
        match v {
            AssetValue::Shape(s) => Some(s),
            _ => None,
        }
    }
}

/// A copyable reference to a value of type `T` in an [`AssetCache`].
#[derive(Debug)]
pub struct AssetKey<T> {
    key: u64,
    _marker: PhantomData<T>,
}

impl<T> AssetKey<T> {
    /// The identity that this key looks up.
    pub closed spec fn spec_identity(&self) -> u64 {
        self.key
    }

    #[verifier::when_used_as_spec(spec_identity)]
    pub fn identity(&self) -> (r: u64)
        ensures
            r == self.spec_identity(),
    {
        self.key
    }
}

impl<T> Clone for AssetKey<T> {
    fn clone(&self) -> (r: Self)
        ensures
            r == *self,
    {
        AssetKey { key: self.key, _marker: PhantomData }
    }
}

impl<T> Copy for AssetKey<T> {
}

impl<T> PartialEq for AssetKey<T> {
    /// Two keys are equal exactly when their identities are.
    fn eq(&self, other: &Self) -> (r: bool) {
        self.key == other.key
    }
}

impl<T> vstd::std_specs::cmp::PartialEqSpecImpl for AssetKey<T> {
    open spec fn obeys_eq_spec() -> bool {
        true
    }

    open spec fn eq_spec(&self, other: &Self) -> bool {
        self.spec_identity() == other.spec_identity()
    }
}

impl<T> Eq for AssetKey<T> {
}

/// The value of type `T` stored under `id` in `m`, if there is one.
pub open spec fn lookup<T: Asset>(m: Map<u64, AssetValue>, id: u64) -> Option<T> {
    if m.contains_key(id) {
        T::unwrap(m[id])
    } else {
        None
    }
}

/// A store of assets keyed by identity. Values are added while a scene is
/// set up and never removed; a later value under the same identity replaces
/// the earlier one.
pub struct AssetCache {
    map: HashMap<u64, AssetValue>,
    builder: PassthroughHasherBuilder,
}

impl View for AssetCache {
    type V = Map<u64, AssetValue>;

    closed spec fn view(&self) -> Map<u64, AssetValue> {
        self.map@
    }
}

impl AssetCache {
    /// An empty cache.
    pub fn new() -> (c: Self)
        ensures
            c@ == Map::<u64, AssetValue>::empty(),
    {
        AssetCache { map: HashMap::new(), builder: PassthroughHasherBuilder }
    }

    /// The identity of a string seed.
    pub fn identity_for(&self, seed: &str) -> (r: u64)
        ensures
            r == identity_of(seed.spec_bytes()),
    {
        let mut hasher: PassthroughHasher = self.builder.build_hasher();
        hasher.write(seed.as_bytes());
        let terminator: [u8; 1] = [SEED_TERMINATOR];
        hasher.write(terminator.as_slice());
        proof {
            assert(terminator@ =~= seq![SEED_TERMINATOR]);
        }
        let r = hasher.finish();
        proof {
            passthrough::lemma_le_value_fits(hasher@);
        }
        r
    }
}

/// A value stored under the identity of a seed is what a lookup of that
/// identity gives back, whatever the cache held before.
pub proof fn lemma_round_trip<T: Asset>(m: Map<u64, AssetValue>, seed: Seq<u8>, v: T)
    ensures
        lookup::<T>(m.insert(identity_of(seed), T::wrap(v)), identity_of(seed)) == Some(v),
{
    T::lemma_unwrap_wrap(v);
}

/// Storing a value under one identity leaves what every other identity
/// resolves to, of any type, unchanged.
pub proof fn lemma_distinct_identities<T: Asset, U: Asset>(
    m: Map<u64, AssetValue>,
    stored: u64,
    other: u64,
    v: T,
)
    requires
        stored != other,
    ensures
        lookup::<U>(m.insert(stored, T::wrap(v)), other) == lookup::<U>(m, other),
{
}

/// Of two values stored under the same identity, the later one is what a
/// lookup of that identity gives back.
pub proof fn lemma_last_write_wins<T: Asset, U: Asset>(
    m: Map<u64, AssetValue>,
    id: u64,
    first: T,
    second: U,
)
    ensures
        lookup::<U>(m.insert(id, T::wrap(first)).insert(id, U::wrap(second)), id) == Some(second),
{
    U::lemma_unwrap_wrap(second);
}

/// Stores `value` under the identity of `seed` and returns a key to it.
pub fn add_asset<U: Asset>(cache: &mut AssetCache, seed: &str, value: U) -> (k: AssetKey<U>)
    ensures
        k.spec_identity() == identity_of(seed.spec_bytes()),
        final(cache)@ == old(cache)@.insert(k.spec_identity(), U::wrap(value)),
{
    let key = cache.identity_for(seed);
    cache.map.insert(key, value.into_asset());
    AssetKey { key, _marker: PhantomData }
}

/// The value that `key` refers to, or `None` where its identity holds
/// nothing or a value of another type.
pub fn retrieve_asset<'a, T: Asset>(cache: &'a AssetCache, key: &AssetKey<T>) -> (r: Option<&'a T>)
    ensures
        match r {
            Some(x) => lookup::<T>(cache@, key.spec_identity()) == Some(*x),
            None => lookup::<T>(cache@, key.spec_identity()).is_none(),
        },
{
    match cache.map.get(&key.key) {
        Some(v) => T::from_asset(v),
        None => None,
    }
}

} // verus!

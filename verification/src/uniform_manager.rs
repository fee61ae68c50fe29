//! The uniform cache: a mapping from uniform name to a tagged value.

use vstd::prelude::*;
use crate::name_table::NameTable;
use crate::value::{Matrix4, UniformValue, Valid, Vector3};

verus! {

/// What a typed lookup of `name` in `m` yields: the stored value if the name
/// is present and its tag is that of `T`.
pub open spec fn typed_lookup<T: Valid>(m: Map<Seq<char>, UniformValue>, name: Seq<char>) -> Option<T> {
    if m.contains_key(name) {
        T::unpack_spec(m[name])
    } else {
        None
    }
}

/// Name-keyed cache of uniform values with run-time type recovery.
#[derive(Debug)]
pub struct UniformManager {
    uniforms: NameTable<UniformValue>,
}

impl View for UniformManager {
    type V = Map<Seq<char>, UniformValue>;

    closed spec fn view(&self) -> Map<Seq<char>, UniformValue> {
        self.uniforms@
    }
}

impl UniformManager {
    /// An empty cache.
    pub fn new() -> (m: UniformManager)
        ensures
            m@ == Map::<Seq<char>, UniformValue>::empty(),
    {
        UniformManager { uniforms: NameTable::new() }
    }

    /// Stores `value` under `name`, replacing what was stored there.
    pub fn set_value(&mut self, name: &str, value: UniformValue)
        ensures
            final(self)@ == old(self)@.insert(name@, value),
    {
        self.uniforms.insert(name, value);
    }

    /// The tagged value stored under `name`, if any.
    pub fn get_value(&self, name: &str) -> (r: Option<&UniformValue>)
        ensures
            match r {
                Some(v) => self@.contains_key(name@) && self@[name@] == *v,
                None => !self@.contains_key(name@),
            },
    {
        self.uniforms.get(name)
    }

    /// Stores `data` under `name`, replacing what was stored there.
    pub fn add_uniform<T: Valid>(&mut self, name: &str, data: T)
        ensures
            final(self)@ == old(self)@.insert(name@, data.pack_spec()),
    {
        self.set_value(name, data.pack());
    }

    /// The value stored under `name`, if there is one and it has type `T`.
    /// A value of another type is reported as absent.
    pub fn get_uniform<T: Valid>(&self, name: &str) -> (r: Option<&T>)
        ensures
            match r {
                Some(v) => typed_lookup::<T>(self@, name@) == Some(*v),
                None => typed_lookup::<T>(self@, name@) is None,
            },
    {
        match self.get_value(name) {
            Some(v) => T::unpack(v),
            None => None,
        }
    }

    /// Stores `data` under `name`, replacing what was stored there.
    pub fn set_uniform<T: Valid>(&mut self, name: &str, data: T)
        ensures
            final(self)@ == old(self)@.insert(name@, data.pack_spec()),
    {
        self.set_value(name, data.pack());
    }
}

/// A value read back under the type it was stored with is the stored value.
pub proof fn lemma_get_after_set_same_type<T: Valid>(
    m: Map<Seq<char>, UniformValue>,
    name: Seq<char>,
    v: T,
)
    ensures
        typed_lookup::<T>(m.insert(name, v.pack_spec()), name) == Some(v),
{
    v.lemma_round_trip();
}

/// A value read back under another type than it was stored with is absent.
pub proof fn lemma_get_after_set_other_type<T: Valid, U: Valid>(
    m: Map<Seq<char>, UniformValue>,
    name: Seq<char>,
    v: U,
)
    requires
        T::tag() != U::tag(),
    ensures
        typed_lookup::<T>(m.insert(name, v.pack_spec()), name) is None,
{
    v.lemma_round_trip();
    T::lemma_tagged(v.pack_spec());
}

/// A vector is never read back as a matrix, nor a matrix as a vector.
pub proof fn lemma_vector_and_matrix_apart(
    m: Map<Seq<char>, UniformValue>,
    name: Seq<char>,
    vector: Vector3,
    matrix: Matrix4,
)
    ensures
        typed_lookup::<Matrix4>(m.insert(name, vector.pack_spec()), name) is None,
        typed_lookup::<Vector3>(m.insert(name, matrix.pack_spec()), name) is None,
{
}

/// Of two values stored under one name only the later can be read, and the
/// cache is as if the earlier had never been stored.
pub proof fn lemma_overwrite_keeps_latest<T: Valid>(
    m: Map<Seq<char>, UniformValue>,
    name: Seq<char>,
    first: UniformValue,
    second: T,
)
    ensures
        m.insert(name, first).insert(name, second.pack_spec()) == m.insert(name, second.pack_spec()),
        typed_lookup::<T>(m.insert(name, first).insert(name, second.pack_spec()), name) == Some(second),
{
    second.lemma_round_trip();
    assert(m.insert(name, first).insert(name, second.pack_spec()) =~= m.insert(name, second.pack_spec()));
}

/// Storing under one name leaves every other name as it was.
pub proof fn lemma_set_leaves_others<T: Valid>(
    m: Map<Seq<char>, UniformValue>,
    name: Seq<char>,
    other: Seq<char>,
    v: UniformValue,
)
    requires
        name != other,
    ensures
        typed_lookup::<T>(m.insert(name, v), other) == typed_lookup::<T>(m, other),
{
}

} // verus!

//! Uploadable values. A component is stored as the 32-bit word that is
//! handed to the GPU (the IEEE-754 single-precision pattern of the number),
//! so that storing and fetching never changes a value.

use vstd::prelude::*;

verus! {

/// Two components, in upload order.
#[derive(Clone, Copy, Debug, PartialEq, Eq, Structural)]
pub struct Vector2 {
    pub x: u32,
    pub y: u32,
}

/// Three components, in upload order.
#[derive(Clone, Copy, Debug, PartialEq, Eq, Structural)]
pub struct Vector3 {
    pub x: u32,
    pub y: u32,
    pub z: u32,
}

/// A 4x4 matrix, column-major: `cells[4 * column + row]`.
#[derive(Clone, Copy, Debug, PartialEq, Eq)]
pub struct Matrix4 {
    pub cells: [u32; 16],
}

/// The closed set of types that a shader uniform can take.
#[derive(Clone, Copy, Debug, PartialEq, Eq, Structural)]
pub enum UniformKind {
    Int,
    Float,
    Vector3,
    Matrix4,
}

/// A value together with its type tag.
#[derive(Clone, Copy, Debug, PartialEq, Eq)]
pub enum UniformValue {
    Int(i32),
    Float(u32),
    Vector3(Vector3),
    Matrix4(Matrix4),
}

impl UniformValue {
    pub open spec fn kind_spec(self) -> UniformKind {
        match self {
            UniformValue::Int(_) => UniformKind::Int,
            UniformValue::Float(_) => UniformKind::Float,
            UniformValue::Vector3(_) => UniformKind::Vector3,
            UniformValue::Matrix4(_) => UniformKind::Matrix4,
        }
    }

    /// The type tag of the value.
    pub fn kind(&self) -> (k: UniformKind)
        ensures
            k == self.kind_spec(),
    {
        match self {
            UniformValue::Int(_) => UniformKind::Int,
            UniformValue::Float(_) => UniformKind::Float,
            UniformValue::Vector3(_) => UniformKind::Vector3,
            UniformValue::Matrix4(_) => UniformKind::Matrix4,
        }
    }
}

/// One uniform to push to a shader program: the program, the uniform's name
/// in the shader source, and the value.
#[derive(Clone, Debug, PartialEq, Eq)]
pub struct UniformUpload {
    pub program: u32,
    pub name: String,
    pub value: UniformValue,
}

/// A type that the uniform cache can hold. Each implementation owns one tag:
/// a value packs into a tagged value of that tag, and only tagged values of
/// that tag unpack.
pub trait Valid: Sized {
    /// The tag under which values of this type are stored.
    spec fn tag() -> UniformKind;

    /// The tagged value that stands for `self`.
    spec fn pack_spec(self) -> UniformValue;

    /// The value of this type inside `v`, if `v` carries this type's tag.
    spec fn unpack_spec(v: UniformValue) -> Option<Self>;

    /// Packing keeps the tag, and unpacking undoes packing and refuses every
    /// other tag.
    proof fn lemma_tagged(v: UniformValue)
        ensures
            Self::unpack_spec(v) is Some <==> v.kind_spec() == Self::tag(),
            Self::unpack_spec(v) is Some ==> Self::unpack_spec(v).unwrap().pack_spec() == v,
    ;

    proof fn lemma_round_trip(self)
        ensures
            self.pack_spec().kind_spec() == Self::tag(),
            Self::unpack_spec(self.pack_spec()) == Some(self),
    ;

    fn pack(self) -> (v: UniformValue)
        ensures
            v == self.pack_spec(),
    ;

    fn unpack(v: &UniformValue) -> (r: Option<&Self>)
        ensures
            match r {
                Some(x) => Self::unpack_spec(*v) == Some(*x),
                None => Self::unpack_spec(*v) is None,
            },
    ;
}

impl Valid for Vector3 {
    open spec fn tag() -> UniformKind {
        UniformKind::Vector3
    }

    open spec fn pack_spec(self) -> UniformValue {
        UniformValue::Vector3(self)
    }

    open spec fn unpack_spec(v: UniformValue) -> Option<Self> {
        match v {
            UniformValue::Vector3(x) => Some(x),
            _ => None,
        }
    }

    proof fn lemma_tagged(v: UniformValue) {
    }

    proof fn lemma_round_trip(self) {
    }

    fn pack(self) -> (v: UniformValue) {
        UniformValue::Vector3(self)
    }

    fn unpack(v: &UniformValue) -> (r: Option<&Self>) {
        match v {
            UniformValue::Vector3(x) => Some(x),
            _ => None,
        }
    }
}

impl Valid for Matrix4 {
    open spec fn tag() -> UniformKind {
        UniformKind::Matrix4
    }

    open spec fn pack_spec(self) -> UniformValue {
        UniformValue::Matrix4(self)
    }

    open spec fn unpack_spec(v: UniformValue) -> Option<Self> {
        match v {
            UniformValue::Matrix4(x) => Some(x),
            _ => None,
        }
    }

    proof fn lemma_tagged(v: UniformValue) {
    }

    proof fn lemma_round_trip(self) {
    }

    fn pack(self) -> (v: UniformValue) {
        UniformValue::Matrix4(self)
    }

    fn unpack(v: &UniformValue) -> (r: Option<&Self>) {
        match v {
            UniformValue::Matrix4(x) => Some(x),
            _ => None,
        }
    }
}

} // verus!

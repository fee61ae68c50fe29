//! A material that names the uniforms it wants from the shared uniform
//! cache. Each name is an optional hook: what the cache lacks is skipped.

use vstd::prelude::*;
use vstd::string::*;
use crate::shader::Shader;
use crate::uniform_manager::UniformManager;
use crate::value::{Matrix4, UniformKind, UniformUpload, UniformValue, Vector3};

verus! {

/// A shader with the names of the cached uniforms to push to it.
#[derive(Debug, PartialEq, Eq)]
pub struct Material {
    pub shader: Shader,
    pub attributes: Vec<String>,
}

/// Index of the first attribute called `name`, or the length if there is
/// none.
pub open spec fn first_attribute(attributes: Seq<String>, name: Seq<char>) -> int
    decreases attributes.len(),
{
    if attributes.len() == 0 {
        0
    } else if attributes[0]@ == name {
        0
    } else {
        1 + first_attribute(attributes.drop_first(), name)
    }
}

/// The name and value of every attribute, in order, for which the cache
/// holds a value of the given kind.
pub open spec fn cached_uploads(
    attributes: Seq<String>,
    cache: Map<Seq<char>, UniformValue>,
    kind: UniformKind,
) -> Seq<(Seq<char>, UniformValue)>
    decreases attributes.len(),
{
    if attributes.len() == 0 {
        Seq::empty()
    } else {
        let rest = cached_uploads(attributes.drop_last(), cache, kind);
        let name = attributes.last()@;
        if cache.contains_key(name) && cache[name].kind_spec() == kind {
            rest.push((name, cache[name]))
        } else {
            rest
        }
    }
}

/// The name and value of each upload.
pub open spec fn upload_pairs(uploads: Seq<UniformUpload>) -> Seq<(Seq<char>, UniformValue)> {
    uploads.map_values(|u: UniformUpload| (u.name@, u.value))
}

proof fn lemma_first_attribute(attributes: Seq<String>, name: Seq<char>, k: int)
    requires
        0 <= k <= attributes.len(),
        forall|i: int| 0 <= i < k ==> (#[trigger] attributes[i])@ != name,
        k < attributes.len() ==> attributes[k]@ == name,
    ensures
        first_attribute(attributes, name) == k,
    decreases attributes.len(),
{
    if attributes.len() > 0 && k > 0 {
        let rest = attributes.drop_first();
        assert forall|i: int| 0 <= i < k - 1 implies (#[trigger] rest[i])@ != name by {
            assert(rest[i] == attributes[i + 1]);
        }
        if k < attributes.len() {
            assert(rest[k - 1] == attributes[k]);
        }
        lemma_first_attribute(rest, name, k - 1);
    }
}

impl Material {
    /// A material for `shader` with the given attribute names.
    pub fn new(shader: Shader, attributes: Vec<&str>) -> (mat: Material)
        ensures
            mat.shader == shader,
            mat.attributes@.len() == attributes@.len(),
            forall|i: int| 0 <= i < attributes@.len() ==> (#[trigger] mat.attributes@[i])@ == attributes@[i]@,
    {
        let mut mat = Material { shader, attributes: Vec::new() };
        let mut i: usize = 0;
        while i < attributes.len()
            invariant
                i <= attributes@.len(),
                mat.shader == shader,
                mat.attributes@.len() == i,
                forall|j: int| 0 <= j < i ==> (#[trigger] mat.attributes@[j])@ == attributes@[j]@,
            decreases attributes@.len() - i,
        {
            mat.attributes.push(attributes[i].to_owned());
            i += 1;
        }
        mat
    }

    /// Adds an attribute name at the end.
    pub fn add_attribute(&mut self, name: &str)
        ensures
            final(self).shader == old(self).shader,
            final(self).attributes@.len() == old(self).attributes@.len() + 1,
            final(self).attributes@.drop_last() == old(self).attributes@,
            final(self).attributes@.last()@ == name@,
    {
        self.attributes.push(name.to_owned());
        assert(self.attributes@.drop_last() =~= old(self).attributes@);
    }

    /// Removes the first attribute called `name`; nothing if there is none.
    pub fn remove_attribute(&mut self, name: &str)
        ensures
            final(self).shader == old(self).shader,
            0 <= first_attribute(old(self).attributes@, name@) <= old(self).attributes@.len(),
            final(self).attributes@ == if first_attribute(old(self).attributes@, name@) < old(self).attributes@.len()
            {
                old(self).attributes@.remove(first_attribute(old(self).attributes@, name@))
            } else {
                old(self).attributes@
            },
    {
        let key = name.to_owned();
        let mut i: usize = 0;
        while i < self.attributes.len()
            invariant
                i <= self.attributes@.len(),
                key@ == name@,
                *self == *old(self),
                forall|j: int| 0 <= j < i ==> (#[trigger] self.attributes@[j])@ != name@,
            decreases self.attributes@.len() - i,
        {
            if self.attributes[i] == key {
                proof {
                    lemma_first_attribute(self.attributes@, name@, i as int);
                }
                self.attributes.remove(i);
                return ;
            }
            i += 1;
        }
        proof {
            lemma_first_attribute(self.attributes@, name@, i as int);
        }
    }

    /// The uploads of the attributes for which the cache holds a vector, in
    /// attribute order; an attribute that the cache lacks, or holds under
    /// another type, is skipped.
    pub fn set_uniforms_vec3(&self, unif_man: &UniformManager) -> (uploads: Vec<UniformUpload>)
        ensures
            upload_pairs(uploads@) == cached_uploads(self.attributes@, unif_man@, UniformKind::Vector3),
            forall|i: int| 0 <= i < uploads@.len() ==> (#[trigger] uploads@[i]).program == self.shader.id,
    {
        let mut uploads: Vec<UniformUpload> = Vec::new();
        let mut i: usize = 0;
        assert(self.attributes@.take(0) =~= Seq::<String>::empty());
        assert(upload_pairs(uploads@) =~= Seq::<(Seq<char>, UniformValue)>::empty());
        while i < self.attributes.len()
            invariant
                i <= self.attributes@.len(),
                upload_pairs(uploads@) == cached_uploads(
                    self.attributes@.take(i as int),
                    unif_man@,
                    UniformKind::Vector3,
                ),
                forall|j: int| 0 <= j < uploads@.len() ==> (#[trigger] uploads@[j]).program == self.shader.id,
            decreases self.attributes@.len() - i,
        {
            let name = self.attributes[i].as_str();
            assert(self.attributes@.take(i + 1).drop_last() =~= self.attributes@.take(i as int));
            assert(self.attributes@.take(i + 1).last() == self.attributes@[i as int]);
            let ghost before = uploads@;
            match unif_man.get_uniform::<Vector3>(name) {
                Some(val) => {
                    let upload = self.shader.set_vector3(name, val);
                    uploads.push(upload);
                    assert(upload_pairs(uploads@) =~= upload_pairs(before).push((name@, upload.value)));
                },
                None => {},
            }
            i += 1;
        }
        assert(self.attributes@.take(i as int) =~= self.attributes@);
        uploads
    }

    /// The uploads of the attributes for which the cache holds a matrix, in
    /// attribute order; an attribute that the cache lacks, or holds under
    /// another type, is skipped.
    pub fn set_uniforms_mat4(&self, unif_man: &UniformManager) -> (uploads: Vec<UniformUpload>)
        ensures
            upload_pairs(uploads@) == cached_uploads(self.attributes@, unif_man@, UniformKind::Matrix4),
            forall|i: int| 0 <= i < uploads@.len() ==> (#[trigger] uploads@[i]).program == self.shader.id,
    {
        let mut uploads: Vec<UniformUpload> = Vec::new();
        let mut i: usize = 0;
        assert(self.attributes@.take(0) =~= Seq::<String>::empty());
        assert(upload_pairs(uploads@) =~= Seq::<(Seq<char>, UniformValue)>::empty());
        while i < self.attributes.len()
            invariant
                i <= self.attributes@.len(),
                upload_pairs(uploads@) == cached_uploads(
                    self.attributes@.take(i as int),
                    unif_man@,
                    UniformKind::Matrix4,
                ),
                forall|j: int| 0 <= j < uploads@.len() ==> (#[trigger] uploads@[j]).program == self.shader.id,
            decreases self.attributes@.len() - i,
        {
            let name = self.attributes[i].as_str();
            assert(self.attributes@.take(i + 1).drop_last() =~= self.attributes@.take(i as int));
            assert(self.attributes@.take(i + 1).last() == self.attributes@[i as int]);
            let ghost before = uploads@;
            match unif_man.get_uniform::<Matrix4>(name) {
                Some(val) => {
                    let upload = self.shader.set_mat4(name, val);
                    uploads.push(upload);
                    assert(upload_pairs(uploads@) =~= upload_pairs(before).push((name@, upload.value)));
                },
                None => {},
            }
            i += 1;
        }
        assert(self.attributes@.take(i as int) =~= self.attributes@);
        uploads
    }
}

} // verus!

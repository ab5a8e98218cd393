//! Mesh fragments as the external baker hands them over, and their
//! validation against the fragment invariant.

use vstd::prelude::*;

verus! {

/// A 3-component vector whose scalars are carried as raw 32-bit words
/// (for instance IEEE-754 single-precision bit patterns). The pipeline
/// copies scalar words verbatim and never interprets them; the word `0`
/// stands for the zero scalar.
#[derive(Clone, Copy, PartialEq, Eq, Structural, Debug)]
pub struct Vec3Bits {
    pub x: u32,
    pub y: u32,
    pub z: u32,
}

/// A 2-component vector of raw 32-bit scalar words, used for texture
/// coordinates.
#[derive(Clone, Copy, PartialEq, Eq, Structural, Debug)]
pub struct Vec2Bits {
    pub x: u32,
    pub y: u32,
}

/// The zero 3-vector, the default for absent normals.
pub open spec fn zero3() -> Vec3Bits {
    Vec3Bits { x: 0, y: 0, z: 0 }
}

/// The zero 2-vector, the default for absent texture coordinates.
pub open spec fn zero2() -> Vec2Bits {
    Vec2Bits { x: 0, y: 0 }
}

/// One baked mesh fragment exactly as produced: the attribute sequences
/// may be empty (the baker produced no such data) and nothing has been
/// checked yet.
#[derive(Debug)]
pub struct RawMeshFragment {
    pub vertices: Vec<Vec3Bits>,
    pub indices: Vec<u16>,
    pub normals: Vec<Vec3Bits>,
    pub uv: Vec<Vec2Bits>,
}

/// An optional per-vertex 3-vector attribute, made explicit so that the
/// adapter's fallback is a single match and a half-filled attribute can
/// never pass for an absent one.
#[derive(Debug)]
pub enum Attr3 {
    Absent,
    Present(Vec<Vec3Bits>),
}

/// An optional per-vertex 2-vector attribute.
#[derive(Debug)]
pub enum Attr2 {
    Absent,
    Present(Vec<Vec2Bits>),
}

/// A fragment that passed validation: every index addresses `vertices`,
/// and a present attribute covers every vertex.
#[derive(Debug)]
pub struct MeshFragment {
    pub vertices: Vec<Vec3Bits>,
    pub indices: Vec<u16>,
    pub normals: Attr3,
    pub uv: Attr2,
}

impl MeshFragment {
    /// The validated fragment's invariant.
    pub open spec fn wf(self) -> bool {
        &&& forall|i: int|
            0 <= i < self.indices@.len() ==> (self.indices@[i] as int) < self.vertices@.len()
        &&& (self.normals matches Attr3::Present(ns) ==> ns@.len() == self.vertices@.len())
        &&& (self.uv matches Attr2::Present(us) ==> us@.len() == self.vertices@.len())
    }
}

/// Why a baked fragment was rejected.
#[derive(Clone, Copy, PartialEq, Eq, Structural, Debug)]
pub enum MalformedKind {
    IndexOutOfRange,
    NormalCountMismatch,
    UvCountMismatch,
}

/// Rejection of one malformed baked fragment, naming the source chunk it
/// came from.
#[derive(Clone, Copy, PartialEq, Eq, Structural, Debug)]
pub struct MalformedMeshFragment {
    pub chunk: usize,
    pub kind: MalformedKind,
}

/// Every index addresses a vertex.
pub open spec fn indices_ok(raw: RawMeshFragment) -> bool {
    forall|i: int| 0 <= i < raw.indices@.len() ==> (raw.indices@[i] as int) < raw.vertices@.len()
}

/// The normal data is either absent or covers every vertex.
pub open spec fn normals_ok(raw: RawMeshFragment) -> bool {
    raw.normals@.len() == 0 || raw.normals@.len() == raw.vertices@.len()
}

/// The texture-coordinate data is either absent or covers every vertex.
pub open spec fn uv_ok(raw: RawMeshFragment) -> bool {
    raw.uv@.len() == 0 || raw.uv@.len() == raw.vertices@.len()
}

/// The fragment invariant: what validation accepts.
pub open spec fn frag_ok(raw: RawMeshFragment) -> bool {
    indices_ok(raw) && normals_ok(raw) && uv_ok(raw)
}

/// The error that validation reports for a bad fragment of chunk `chunk`;
/// the checks run in the order indices, normals, texture coordinates.
pub open spec fn frag_err(raw: RawMeshFragment, chunk: usize) -> MalformedMeshFragment {
    MalformedMeshFragment {
        chunk,
        kind: if !indices_ok(raw) {
            MalformedKind::IndexOutOfRange
        } else if !normals_ok(raw) {
            MalformedKind::NormalCountMismatch
        } else {
            MalformedKind::UvCountMismatch
        },
    }
}

/// `f` is the validated form of `raw`: the same vertices and indices, and
/// each attribute tagged absent exactly when the baker produced none.
pub open spec fn validates_to(raw: RawMeshFragment, f: MeshFragment) -> bool {
    &&& f.vertices@ == raw.vertices@
    &&& f.indices@ == raw.indices@
    &&& (raw.normals@.len() == 0 ==> f.normals is Absent)
    &&& (raw.normals@.len() != 0 ==> (f.normals matches Attr3::Present(ns) && ns@ == raw.normals@))
    &&& (raw.uv@.len() == 0 ==> f.uv is Absent)
    &&& (raw.uv@.len() != 0 ==> (f.uv matches Attr2::Present(us) && us@ == raw.uv@))
}

/// An element-for-element copy of a vector of plain values.
pub(crate) fn copied<T: Copy>(v: &Vec<T>) -> (r: Vec<T>)
    ensures
        r@ == v@,
{
    let mut r: Vec<T> = Vec::new();
    let mut i: usize = 0;
    while i < v.len()
        invariant
            i <= v@.len(),
            r@.len() == i,
            forall|j: int| 0 <= j < i ==> r@[j] == v@[j],
        decreases v@.len() - i,
    {
        r.push(v[i]);
        i = i + 1;
    }
    proof {
        assert(r@ =~= v@);
    }
    r
}

/// Check one baked fragment against the fragment invariant; on success
/// hand back its validated form, otherwise report which chunk carried it
/// and what was wrong.
pub fn validate_fragment(raw: &RawMeshFragment, chunk: usize) -> (r: Result<
    MeshFragment,
    MalformedMeshFragment,
>)
    ensures
        r is Ok <==> frag_ok(*raw),
        r matches Ok(f) ==> validates_to(*raw, f) && f.wf(),
        r matches Err(e) ==> e == frag_err(*raw, chunk),
{
    let n = raw.vertices.len();
    let mut i: usize = 0;
    while i < raw.indices.len()
        invariant
            i <= raw.indices@.len(),
            n == raw.vertices@.len(),
            forall|j: int| 0 <= j < i ==> (raw.indices@[j] as int) < n,
        decreases raw.indices@.len() - i,
    {
        if raw.indices[i] as usize >= n {
            return Err(MalformedMeshFragment { chunk, kind: MalformedKind::IndexOutOfRange });
        }
        i = i + 1;
    }
    let normals = if raw.normals.len() == 0 {
        Attr3::Absent
    } else if raw.normals.len() == n {
        Attr3::Present(copied(&raw.normals))
    } else {
        return Err(MalformedMeshFragment { chunk, kind: MalformedKind::NormalCountMismatch });
    };
    let uv = if raw.uv.len() == 0 {
        Attr2::Absent
    } else if raw.uv.len() == n {
        Attr2::Present(copied(&raw.uv))
    } else {
        return Err(MalformedMeshFragment { chunk, kind: MalformedKind::UvCountMismatch });
    };
    Ok(MeshFragment { vertices: copied(&raw.vertices), indices: copied(&raw.indices), normals, uv })
}

} // verus!

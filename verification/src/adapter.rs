//! Normalization of one validated fragment into a complete, render-ready
//! mesh buffer set.

use vstd::prelude::*;
use crate::fragment::{copied, zero2, zero3, Attr2, Attr3, MeshFragment, Vec2Bits, Vec3Bits};

verus! {

/// The render-ready mesh: every attribute sequence covers every position,
/// and the index buffer addresses `positions`.
#[derive(Debug)]
pub struct RenderMesh {
    pub positions: Vec<Vec3Bits>,
    pub normals: Vec<Vec3Bits>,
    pub uvs: Vec<Vec2Bits>,
    pub indices: Vec<u16>,
}

impl RenderMesh {
    /// The render mesh's invariant: attribute sequences length-aligned
    /// with `positions`, indices in range.
    pub open spec fn wf(self) -> bool {
        &&& self.normals@.len() == self.positions@.len()
        &&& self.uvs@.len() == self.positions@.len()
        &&& forall|i: int|
            0 <= i < self.indices@.len() ==> (self.indices@[i] as int) < self.positions@.len()
    }
}

/// The normals the adapter owes fragment `f`: the fragment's own when
/// present, else one zero vector per vertex.
pub open spec fn normals_of(f: MeshFragment) -> Seq<Vec3Bits> {
    match f.normals {
        Attr3::Present(ns) => ns@,
        Attr3::Absent => Seq::new(f.vertices@.len(), |i: int| zero3()),
    }
}

/// The texture coordinates the adapter owes fragment `f`: the fragment's
/// own when present, else one zero 2-vector per vertex.
pub open spec fn uvs_of(f: MeshFragment) -> Seq<Vec2Bits> {
    match f.uv {
        Attr2::Present(us) => us@,
        Attr2::Absent => Seq::new(f.vertices@.len(), |i: int| zero2()),
    }
}

/// The adapter's input/output relation: positions and indices verbatim,
/// attributes as `normals_of` and `uvs_of` demand.
pub open spec fn adapted(f: MeshFragment, m: RenderMesh) -> bool {
    &&& m.positions@ == f.vertices@
    &&& m.indices@ == f.indices@
    &&& m.normals@ == normals_of(f)
    &&& m.uvs@ == uvs_of(f)
}

/// `n` copies of the zero 3-vector.
fn zero3_fill(n: usize) -> (r: Vec<Vec3Bits>)
    ensures
        r@ == Seq::new(n as nat, |i: int| zero3()),
{
    let mut r: Vec<Vec3Bits> = Vec::new();
    let mut i: usize = 0;
    while i < n
        invariant
            i <= n,
            r@.len() == i,
            forall|j: int| 0 <= j < i ==> r@[j] == zero3(),
        decreases n - i,
    {
        r.push(Vec3Bits { x: 0, y: 0, z: 0 });
        i = i + 1;
    }
    proof {
        assert(r@ =~= Seq::new(n as nat, |i: int| zero3()));
    }
    r
}

/// `n` copies of the zero 2-vector.
fn zero2_fill(n: usize) -> (r: Vec<Vec2Bits>)
    ensures
        r@ == Seq::new(n as nat, |i: int| zero2()),
{
    let mut r: Vec<Vec2Bits> = Vec::new();
    let mut i: usize = 0;
    while i < n
        invariant
            i <= n,
            r@.len() == i,
            forall|j: int| 0 <= j < i ==> r@[j] == zero2(),
        decreases n - i,
    {
        r.push(Vec2Bits { x: 0, y: 0 });
        i = i + 1;
    }
    proof {
        assert(r@ =~= Seq::new(n as nat, |i: int| zero2()));
    }
    r
}

/// Convert one validated fragment into a complete render mesh: positions
/// and indices are copied verbatim; a present attribute is copied
/// verbatim, an absent one is synthesized as one zero vector per vertex
/// (a placeholder, not a lighting-correct normal). Total over every
/// well-formed fragment; allocates the new mesh and does nothing else.
pub fn adapt(f: &MeshFragment) -> (m: RenderMesh)
    requires
        f.wf(),
    ensures
        adapted(*f, m),
        m.wf(),
        f.normals is Absent ==> m.normals@.len() == f.vertices@.len() && (forall|i: int|
            0 <= i < m.normals@.len() ==> m.normals@[i] == zero3()),
        f.normals matches Attr3::Present(ns) ==> m.normals@ == ns@,
        f.uv is Absent ==> m.uvs@.len() == f.vertices@.len() && (forall|i: int|
            0 <= i < m.uvs@.len() ==> m.uvs@[i] == zero2()),
        f.uv matches Attr2::Present(us) ==> m.uvs@ == us@,
{
    let positions = copied(&f.vertices);
    let indices = copied(&f.indices);
    let normals = match &f.normals {
        Attr3::Present(ns) => copied(ns),
        Attr3::Absent => zero3_fill(f.vertices.len()),
    };
    let uvs = match &f.uv {
        Attr2::Present(us) => copied(us),
        Attr2::Absent => zero2_fill(f.vertices.len()),
    };
    RenderMesh { positions, normals, uvs, indices }
}

/// Adapting the same fragment twice yields attribute-equal meshes: the
/// adapter's output attributes are a function of its input alone.
pub proof fn lemma_adapter_deterministic(f: MeshFragment, m1: RenderMesh, m2: RenderMesh)
    requires
        adapted(f, m1),
        adapted(f, m2),
    ensures
        m1.positions@ == m2.positions@,
        m1.normals@ == m2.normals@,
        m1.uvs@ == m2.uvs@,
        m1.indices@ == m2.indices@,
{
}

} // verus!

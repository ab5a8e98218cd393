//! The scene populator: walks the chunk list, assembles a render mesh per
//! baked fragment, samples a material for it and emits the scene objects
//! in input order.

use vstd::prelude::*;
use crate::adapter::{adapt, adapted, normals_of, uvs_of, RenderMesh};
use crate::fragment::{
    frag_err, frag_ok, validate_fragment, validates_to, zero2, zero3, MalformedMeshFragment,
    MeshFragment, RawMeshFragment, Vec2Bits, Vec3Bits,
};
use crate::sampling::rand_below;

verus! {

/// One color channel's denominator: a channel value `c` encodes the
/// unit-interval fraction `c / COLOR_ONE`, so every sampled channel lies
/// in `[0, 1)`.
pub const COLOR_ONE: u32 = 65536;

/// An RGB material color with fixed-point channels.
#[derive(Clone, Copy, PartialEq, Eq, Structural, Debug)]
pub struct Color {
    pub r: u32,
    pub g: u32,
    pub b: u32,
}

impl Color {
    /// Every channel encodes a fraction in `[0, 1)`.
    pub open spec fn wf(self) -> bool {
        self.r < COLOR_ONE && self.g < COLOR_ONE && self.b < COLOR_ONE
    }
}

/// One chunk as the voxel source hands it over: its world-space offset
/// and its baked fragment, absent when baking legitimately produced
/// nothing for the chunk.
#[derive(Debug)]
pub struct SourceChunk {
    pub offset: Vec3Bits,
    pub fragment: Option<RawMeshFragment>,
}

/// One renderable object: the assembled mesh, its sampled material, and
/// its world transform (a pure translation equal to the chunk offset).
#[derive(Debug)]
pub struct SceneObject {
    pub mesh: RenderMesh,
    pub material: Color,
    pub transform: Vec3Bits,
}

/// The chunks that contribute an object: the offset and fragment of each
/// chunk whose baking produced one, in input order.
pub open spec fn kept(chunks: Seq<SourceChunk>) -> Seq<(Vec3Bits, RawMeshFragment)>
    decreases chunks.len(),
{
    if chunks.len() == 0 {
        Seq::empty()
    } else {
        kept(chunks.drop_last()) + (match chunks.last().fragment {
            Option::Some(raw) => seq![(chunks.last().offset, raw)],
            Option::None => Seq::empty(),
        })
    }
}

/// How many chunks contributed no fragment.
pub open spec fn absent_count(chunks: Seq<SourceChunk>) -> int
    decreases chunks.len(),
{
    if chunks.len() == 0 {
        0
    } else {
        absent_count(chunks.drop_last()) + (if chunks.last().fragment is None {
            1int
        } else {
            0int
        })
    }
}

/// Exactly the chunks without a fragment are skipped: of `N` chunks of
/// which `K` are empty, `N - K` objects are emitted.
pub proof fn lemma_skips_exactly_absent(chunks: Seq<SourceChunk>)
    ensures
        kept(chunks).len() + absent_count(chunks) == chunks.len(),
    decreases chunks.len(),
{
    if chunks.len() > 0 {
        lemma_skips_exactly_absent(chunks.drop_last());
    }
}

/// The normals owed to a valid raw fragment: its own when it has any,
/// else one zero vector per vertex.
pub open spec fn raw_normals_of(raw: RawMeshFragment) -> Seq<Vec3Bits> {
    if raw.normals@.len() == 0 {
        Seq::new(raw.vertices@.len(), |i: int| zero3())
    } else {
        raw.normals@
    }
}

/// The texture coordinates owed to a valid raw fragment.
pub open spec fn raw_uvs_of(raw: RawMeshFragment) -> Seq<Vec2Bits> {
    if raw.uv@.len() == 0 {
        Seq::new(raw.vertices@.len(), |i: int| zero2())
    } else {
        raw.uv@
    }
}

/// `m` is the render mesh assembled from the valid fragment `raw`:
/// vertices and indices verbatim, absent attributes zero-filled.
pub open spec fn assembled(raw: RawMeshFragment, m: RenderMesh) -> bool {
    &&& m.positions@ == raw.vertices@
    &&& m.indices@ == raw.indices@
    &&& m.normals@ == raw_normals_of(raw)
    &&& m.uvs@ == raw_uvs_of(raw)
}

/// `o` is a complete scene object for the source pair `src`.
pub open spec fn object_for(src: (Vec3Bits, RawMeshFragment), o: SceneObject) -> bool {
    &&& o.transform == src.0
    &&& assembled(src.1, o.mesh)
    &&& o.mesh.wf()
    &&& o.material.wf()
}

/// Validation followed by adaptation assembles exactly what the raw
/// fragment owes.
proof fn lemma_assembled(raw: RawMeshFragment, f: MeshFragment, m: RenderMesh)
    requires
        frag_ok(raw),
        validates_to(raw, f),
        adapted(f, m),
    ensures
        assembled(raw, m),
{
    assert(normals_of(f) =~= raw_normals_of(raw));
    assert(uvs_of(f) =~= raw_uvs_of(raw));
}

/// Draw one material color: three independent channel samples, each in
/// `[0, COLOR_ONE)`, one draw sequence per mesh.
fn sample_color(rng: &mut rand::rngs::StdRng) -> (c: Color)
    ensures
        c.wf(),
{
    let r = rand_below(rng, COLOR_ONE);
    let g = rand_below(rng, COLOR_ONE);
    let b = rand_below(rng, COLOR_ONE);
    Color { r, g, b }
}

/// Walk the chunk list in order; skip chunks without a fragment; for each
/// baked fragment validate it, assemble its render mesh, sample a fresh
/// material and emit one scene object carrying the chunk's offset as its
/// transform. The first malformed fragment aborts the run with an error
/// naming its chunk: no partial scene is handed back.
pub fn populate(chunks: &Vec<SourceChunk>, rng: &mut rand::rngs::StdRng) -> (r: Result<
    Vec<SceneObject>,
    MalformedMeshFragment,
>)
    ensures
        r is Ok <==> (forall|j: int|
            0 <= j < chunks@.len() ==> ((#[trigger] chunks@[j]).fragment matches Some(raw) ==> frag_ok(raw))),
        r matches Ok(objs) ==> objs@.len() == kept(chunks@).len() && (forall|k: int|
            0 <= k < objs@.len() ==> object_for(kept(chunks@)[k], #[trigger] objs@[k])),
        r matches Err(e) ==> {
            &&& e.chunk < chunks@.len()
            &&& (chunks@[e.chunk as int].fragment matches Some(raw) && !frag_ok(raw) && e
                == frag_err(raw, e.chunk))
            &&& (forall|j: int|
                0 <= j < e.chunk ==> ((#[trigger] chunks@[j]).fragment matches Some(raw2) ==> frag_ok(raw2)))
        },
{
    let mut objs: Vec<SceneObject> = Vec::new();
    let mut i: usize = 0;
    while i < chunks.len()
        invariant
            i <= chunks@.len(),
            objs@.len() == kept(chunks@.take(i as int)).len(),
            forall|k: int|
                0 <= k < objs@.len() ==> object_for(
                    kept(chunks@.take(i as int))[k],
                    #[trigger] objs@[k],
                ),
            forall|j: int|
                0 <= j < i ==> ((#[trigger] chunks@[j]).fragment matches Some(raw) ==> frag_ok(raw)),
        decreases chunks@.len() - i,
    {
        proof {
            assert(chunks@.take(i + 1).drop_last() =~= chunks@.take(i as int));
            assert(chunks@.take(i + 1).last() == chunks@[i as int]);
        }
        match &chunks[i].fragment {
            Option::Some(raw) => {
                match validate_fragment(raw, i) {
                    Result::Ok(f) => {
                        let mesh = adapt(&f);
                        let material = sample_color(rng);
                        let ob = SceneObject { mesh, material, transform: chunks[i].offset };
                        proof {
                            lemma_assembled(*raw, f, mesh);
                        }
                        objs.push(ob);
                    },
                    Result::Err(e) => {
                        return Err(e);
                    },
                }
            },
            Option::None => {},
        }
        i = i + 1;
    }
    proof {
        assert(chunks@.take(chunks@.len() as int) =~= chunks@);
    }
    Ok(objs)
}

} // verus!

//! Assembly of baked voxel-chunk mesh fragments into complete, renderable
//! scene objects, together with a minimal free-fly camera controller.
//!
//! The pipeline takes heterogeneous, possibly incomplete per-chunk mesh
//! data (positions, indices, optional normals, optional texture
//! coordinates, plus a chunk-space offset), validates it, fills absent
//! attributes with defined defaults, samples a material color per mesh,
//! and yields one scene object per non-empty chunk. The camera controller
//! maps the currently held keys to a fixed per-tick translation.

pub mod adapter;
pub mod camera;
pub mod fragment;
pub mod scene;
mod sampling;

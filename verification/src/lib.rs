//! Verified core of a wireframe overlay for 2D and 3D meshes.
//!
//! A compute pass writes, for every triangle of a mesh, the data from which a
//! fragment shader draws the triangle's edges. This crate holds the part of the
//! overlay that can be stated without a GPU: the layout of the buffers that the
//! compute pass reads and writes, the bookkeeping of extracted meshes, and the
//! shape of the render pipelines.
//!
//! Floating-point values never enter the crate as such: a coordinate is carried
//! as the bit pattern of its `f32`.

use vstd::prelude::*;

pub mod compute;
pub mod material;
pub mod pipeline;
pub mod wireframe2d;

verus! {

/// Pads a position to the four components of a `vec4<f32>`: the fourth is the
/// bit pattern of `0.0`.
pub fn pad(v: [u32; 3]) -> (padded: [u32; 4])
    ensures
        padded@ == v@.push(0u32),
{
    [v[0], v[1], v[2], 0]
}

} // verus!

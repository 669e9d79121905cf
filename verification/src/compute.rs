//! The compute pass that fills the face buffer of a mesh, one workgroup per
//! triangle, and the buffers it works on.

use crate::pad;
use bevy::math::Vec4;
use vstd::prelude::*;

verus! {

/// Names the compute pass in the render graph.
#[derive(Clone, Copy, Debug, Hash, PartialEq, Eq)]
pub struct FaceLabel;

/// Adds the compute pass for 3D meshes to an application.
#[derive(Clone, Copy, Debug)]
pub struct FacePlugin;

/// Adds the compute pass for 2D meshes to an application.
#[derive(Clone, Copy, Debug)]
pub struct FacePlugin2d;

/// Bytes of one `vec4<f32>` in a storage buffer.
pub const VEC4_BYTES: usize = 16;

/// `std::mem::size_of` of glam's `Vec4`: four `f32`, 16 bytes in each of the
/// layouts that glam gives the type.
#[verifier::external_body]
fn vec4_size() -> (size: usize)
    ensures
        size == VEC4_BYTES,
{
    std::mem::size_of::<Vec4>()
}

/// Size in bytes of the face buffer of a mesh with `vertex_count` vertices.
pub open spec fn face_buffer_bytes(vertex_count: nat) -> nat {
    VEC4_BYTES as nat * vertex_count / 3
}

/// Number of workgroups that the compute pass runs for `vertex_count`
/// vertices: one for each whole triangle, cut to 32 bits.
pub open spec fn workgroups(vertex_count: nat) -> nat {
    (vertex_count / 3) % 0x1_0000_0000
}

/// Computes the size in bytes of the face buffer of a mesh.
pub fn face_buffer_size(vertex_count: u32) -> (size: u64)
    ensures
        size == face_buffer_bytes(vertex_count as nat),
{
    let vec4: u64 = vec4_size() as u64;
    vec4 * (vertex_count as u64) / 3
}

/// Computes the number of workgroups to dispatch for a mesh.
pub fn workgroup_count(vertex_count: usize) -> (count: u32)
    ensures
        count == workgroups(vertex_count as nat),
{
    let triangles: usize = vertex_count / 3;
    assert(triangles as u32 == (triangles as u64) % 0x1_0000_0000u64) by (bit_vector);
    #[verifier::truncate]
    (triangles as u32)
}

/// The face buffer of a mesh has room for one `vec4<f32>` per workgroup, and
/// none to spare where the mesh is made of whole triangles.
pub proof fn lemma_face_buffer_fits_workgroups(vertex_count: u32)
    ensures
        VEC4_BYTES * workgroups(vertex_count as nat) <= face_buffer_bytes(vertex_count as nat),
        vertex_count % 3 == 0 ==> VEC4_BYTES * workgroups(vertex_count as nat) == face_buffer_bytes(vertex_count as nat),
{
}

/// The positions of a mesh, padded for the compute pass, and the number of
/// vertices that the pass works on.
#[derive(Debug)]
pub struct PosBuffer {
    /// The bytes that the position buffer is created with.
    pub contents: Vec<u8>,
    /// The number of vertices of the mesh.
    pub vertex_count: usize,
}

/// Why a mesh was not prepared.
#[derive(Clone, Copy, Debug, PartialEq, Eq, Structural)]
pub enum PrepareAssetError {
    /// The mesh has no positions of three `f32` yet: try again on the next update.
    RetryNextUpdate,
}

/// Byte `k` of `word`, counted from its least significant byte.
pub open spec fn word_byte(word: u32, k: int) -> u8 {
    if k == 0 {
        (word as int % 0x100) as u8
    } else if k == 1 {
        (word as int / 0x100 % 0x100) as u8
    } else if k == 2 {
        (word as int / 0x1_0000 % 0x100) as u8
    } else {
        (word as int / 0x100_0000 % 0x100) as u8
    }
}

/// Whether `bytes` holds `words` one after the other, four bytes each, with
/// the least significant byte of a word first or last.
pub open spec fn is_byte_image(words: Seq<u32>, bytes: Seq<u8>, least_first: bool) -> bool {
    &&& bytes.len() == 4 * words.len()
    &&& forall|i: int|
        0 <= i < bytes.len() ==> bytes[i] == word_byte(words[i / 4], if least_first {
            i % 4
        } else {
            3 - i % 4
        })
}

/// Whether `bytes` holds `words` as a machine lays them out in memory, in its
/// byte order.
pub open spec fn is_memory_image(words: Seq<u32>, bytes: Seq<u8>) -> bool {
    is_byte_image(words, bytes, true) || is_byte_image(words, bytes, false)
}

/// The components of `vectors`, in order.
pub open spec fn components(vectors: Seq<[u32; 4]>) -> Seq<u32> {
    Seq::new(4 * vectors.len(), |j: int| vectors[j / 4]@[j % 4])
}

/// The components of `positions` in order, with a zero after every position.
pub open spec fn padded_components(positions: Seq<[u32; 3]>) -> Seq<u32> {
    Seq::new(
        4 * positions.len(),
        |j: int|
            if j % 4 == 3 {
                0u32
            } else {
                positions[j / 4]@[j % 4]
            },
    )
}

/// Whether `padded` holds each position of `positions` with a fourth
/// component of zero bits.
pub open spec fn is_padded(positions: Seq<[u32; 3]>, padded: Seq<[u32; 4]>) -> bool {
    &&& padded.len() == positions.len()
    &&& forall|i: int| 0 <= i < positions.len() ==> padded[i]@ == positions[i]@.push(0u32)
}

/// Padded positions have the components of the positions, and zeros between.
pub proof fn lemma_padded_components(positions: Seq<[u32; 3]>, padded: Seq<[u32; 4]>)
    requires
        is_padded(positions, padded),
    ensures
        components(padded) == padded_components(positions),
{
    assert forall|j: int| 0 <= j < 4 * positions.len() implies components(padded)[j]
        == padded_components(positions)[j] by {
        assert(padded[j / 4]@ == positions[j / 4]@.push(0u32));
    }
    assert(components(padded) =~= padded_components(positions));
}

/// `bytemuck::cast_slice` from `[u32; 4]` to `u8`: the same memory read as
/// bytes, so four bytes for each component, in the machine's byte order. A
/// cast to `u8` cannot fail.
#[verifier::external_body]
fn cast_vectors(vectors: &Vec<[u32; 4]>) -> (bytes: Vec<u8>)
    ensures
        is_memory_image(components(vectors@), bytes@),
{
    bytemuck::cast_slice::<[u32; 4], u8>(vectors.as_slice()).to_vec()
}

/// Pads every position of a mesh to four components.
pub fn pad_positions(positions: &Vec<[u32; 3]>) -> (padded: Vec<[u32; 4]>)
    ensures
        is_padded(positions@, padded@),
{
    let mut padded: Vec<[u32; 4]> = Vec::new();
    let mut i: usize = 0;
    while i < positions.len()
        invariant
            i <= positions.len(),
            is_padded(positions@.take(i as int), padded@),
        decreases positions.len() - i,
    {
        padded.push(pad(positions[i]));
        i = i + 1;
    }
    proof {
        assert(positions@.take(positions.len() as int) == positions@);
    }
    padded
}

impl PosBuffer {
    /// The number of bytes that the position buffer of a mesh with
    /// `vertex_count` vertices takes on the GPU.
    pub fn byte_len(vertex_count: usize) -> (len: Option<usize>)
        requires
            vertex_count * VEC4_BYTES <= usize::MAX,
        ensures
            len == Some((vertex_count * VEC4_BYTES) as usize),
    {
        Some(vertex_count * vec4_size())
    }

    /// Prepares the position buffer of a mesh with `vertex_count` vertices.
    ///
    /// `positions` holds the mesh's positions where the mesh has them as three
    /// `f32` each. Without them the mesh is tried again later; with them the
    /// buffer holds every position padded to a `vec4<f32>`.
    pub fn prepare_asset(positions: Option<&Vec<[u32; 3]>>, vertex_count: usize) -> (result: Result<PosBuffer, PrepareAssetError>)
        ensures
            positions.is_none() ==> (result matches Err(error) && error == PrepareAssetError::RetryNextUpdate),
            positions matches Some(given) ==> (result matches Ok(buffer) && buffer.vertex_count == vertex_count && buffer.contents@.len() == VEC4_BYTES * given@.len() && is_memory_image(padded_components(given@), buffer.contents@)),
    {
        let Some(given) = positions else {
            return Err(PrepareAssetError::RetryNextUpdate);
        };
        let v_pos_4 = pad_positions(given);
        proof {
            lemma_padded_components(given@, v_pos_4@);
        }
        let contents = cast_vectors(&v_pos_4);
        Ok(PosBuffer { contents, vertex_count })
    }
}

} // verus!

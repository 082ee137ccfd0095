use vstd::prelude::*;
use std::sync::Arc;
use crate::gpu::{BufferUsage, GpuBackend};

verus! {

/// The little-endian bytes of a sequence of 16-bit indices: two bytes for
/// each index, low byte first.
pub open spec fn le_bytes_of_indices(indices: Seq<u16>) -> Seq<u8>
    decreases indices.len(),
{
    if indices.len() == 0 {
        Seq::empty()
    } else {
        le_bytes_of_indices(indices.drop_last())
            .push((indices.last() & 0xff) as u8)
            .push((indices.last() >> 8) as u8)
    }
}

/// Encode 16-bit indices as the little-endian byte stream the GPU reads.
pub fn indices_to_le_bytes(indices: &Vec<u16>) -> (r: Vec<u8>)
    ensures
        r@ == le_bytes_of_indices(indices@),
{
    let mut r: Vec<u8> = Vec::new();
    let mut i: usize = 0;
    while i < indices.len()
        invariant
            i <= indices@.len(),
            r@ == le_bytes_of_indices(indices@.take(i as int)),
        decreases indices@.len() - i,
    {
        let x = indices[i];
        r.push((x & 0xff) as u8);
        r.push((x >> 8) as u8);
        i = i + 1;
        proof {
            assert(indices@.take(i as int).drop_last() =~= indices@.take(i - 1));
            assert(indices@.take(i as int).last() == indices@[i - 1]);
        }
    }
    proof {
        assert(indices@.take(indices@.len() as int) =~= indices@);
    }
    r
}

/// Raw vertex data for a mesh: the bytes its vertex buffer will hold and how
/// many vertices they encode. The bytes come from the shell, which owns the
/// floating-point vertex layout; the core only stores and counts them.
pub struct MeshVertexData {
    pub bytes: Vec<u8>,
    pub vertex_count: u32,
}

/// A mesh: a vertex buffer, an optional index buffer, and how many vertices
/// and indices they hold. Immutable after creation; shared by id across
/// however many render objects reference it.
pub struct Mesh<B> {
    pub vertex_buffer: Arc<B>,
    pub index_buffer: Option<Arc<B>>,
    pub vertex_count: u32,
    pub index_count: u32,
}

impl<B> Mesh<B> {
    /// Build a mesh from raw vertex bytes and optional 16-bit indices: the
    /// vertex buffer holds the bytes as given, the index buffer (when indices
    /// are given) their little-endian encoding, and the counts record how
    /// many vertices and indices the mesh draws.
    pub fn new<D: GpuBackend<Buffer = B>>(
        device: &mut D,
        vertex_data: &[u8],
        vertex_count: u32,
        indices: Option<&Vec<u16>>,
    ) -> (mesh: Mesh<B>)
        requires
            indices matches Some(v) ==> v@.len() <= u32::MAX,
        ensures
            mesh.vertex_count == vertex_count,
            mesh.index_buffer is Some <==> indices is Some,
            match indices {
                Some(v) => mesh.index_count == v@.len(),
                None => mesh.index_count == 0,
            },
    {
        let vertex_buffer = Arc::new(device.create_buffer_init(
            vertex_data,
            BufferUsage::vertex(),
            Some("Vertex Buffer"),
        ));
        match indices {
            Some(index_values) => {
                let bytes = indices_to_le_bytes(index_values);
                let index_buffer = device.create_buffer_init(
                    bytes.as_slice(),
                    BufferUsage::index(),
                    Some("Index Buffer"),
                );
                Mesh {
                    vertex_buffer,
                    index_buffer: Some(Arc::new(index_buffer)),
                    vertex_count,
                    index_count: index_values.len() as u32,
                }
            },
            None => Mesh { vertex_buffer, index_buffer: None, vertex_count, index_count: 0 },
        }
    }
}

} // verus!

//! Vertex, index and instance buffers, and their builders.
//!
//! A builder accumulates vertices and indices as plain data and bakes
//! them once into device buffers.  The vertex payload type is generic:
//! its device byte representation is produced by the caller and handed to
//! the bake, while the index data is encoded here, little-endian, 32 bits
//! per index.

use vstd::prelude::*;
use crate::gpu_buffer::{BufferUsages, GpuBuffer};
use crate::gpuctx::{GpuCtx, GpuOpView};

verus! {

/// The four little-endian bytes of one 32-bit index.
pub open spec fn u32_le_bytes(x: u32) -> Seq<u8> {
    seq![
        (x & 0xff) as u8,
        ((x >> 8) & 0xff) as u8,
        ((x >> 16) & 0xff) as u8,
        ((x >> 24) & 0xff) as u8,
    ]
}

/// The little-endian encoding of an index sequence.
pub open spec fn indices_bytes(s: Seq<u32>) -> Seq<u8>
    decreases s.len(),
{
    if s.len() == 0 {
        Seq::empty()
    } else {
        indices_bytes(s.drop_last()) + u32_le_bytes(s.last())
    }
}

/// The encoding is four bytes per index.
pub proof fn lemma_indices_bytes_len(s: Seq<u32>)
    ensures
        indices_bytes(s).len() == 4 * s.len(),
    decreases s.len(),
{
    if s.len() > 0 {
        lemma_indices_bytes_len(s.drop_last());
    }
}

/// Encodes an index list little-endian, 4 bytes per index.
fn encode_indices(indices: &Vec<u32>) -> (r: Vec<u8>)
    ensures
        r@ == indices_bytes(indices@),
{
    let mut out: Vec<u8> = Vec::new();
    let mut i: usize = 0;
    while i < indices.len()
        invariant
            i <= indices@.len(),
            out@ == indices_bytes(indices@.take(i as int)),
        decreases indices@.len() - i,
    {
        let x = indices[i];
        proof {
            assert((x & 0xff) < 256 && ((x >> 8) & 0xff) < 256 && ((x >> 16) & 0xff) < 256 && ((x
                >> 24) & 0xff) < 256) by (bit_vector);
        }
        out.push((x & 0xff) as u8);
        out.push(((x >> 8) & 0xff) as u8);
        out.push(((x >> 16) & 0xff) as u8);
        out.push(((x >> 24) & 0xff) as u8);
        i = i + 1;
        proof {
            let taken = indices@.take(i as int);
            assert(taken.drop_last() =~= indices@.take(i as int - 1));
            assert(taken.last() == indices@[i as int - 1]);
            assert(out@ =~= indices_bytes(indices@.take(i as int - 1)) + u32_le_bytes(x));
        }
    }
    proof {
        assert(indices@.take(indices@.len() as int) =~= indices@);
    }
    out
}

/// Device buffers for one baked shape: vertex data, 32-bit indices and
/// the index count.
#[derive(Clone, Copy, Debug, PartialEq, Eq, Structural)]
pub struct VertexBuffer {
    pub vertex_buffer: GpuBuffer,
    pub index_buffer: GpuBuffer,
    pub index_len: u32,
}

/// Accumulates vertices and indices before baking them into buffers.
#[derive(Clone, Debug)]
pub struct VertexBufferBuilder<T> {
    pub vertices: Vec<T>,
    pub indices: Vec<u32>,
    pub index_id_counter: u32,
}

impl<T> VertexBufferBuilder<T> {
    /// An empty builder.
    pub fn new() -> (r: VertexBufferBuilder<T>)
        ensures
            r.vertices@ == Seq::<T>::empty(),
            r.indices@ == Seq::<u32>::empty(),
            r.index_id_counter == 0,
    {
        let r = VertexBufferBuilder { vertices: Vec::new(), indices: Vec::new(), index_id_counter: 0u32 };
        proof {
            assert(r.vertices@ =~= Seq::<T>::empty());
            assert(r.indices@ =~= Seq::<u32>::empty());
        }
        r
    }

    /// Bakes the accumulated data into device buffers.  The caller
    /// supplies the device byte representation of `self.vertices`; the
    /// indices are encoded here, little-endian.
    pub fn build_buffers(&self, gpu: &mut GpuCtx, vertex_bytes: &[u8]) -> (r: VertexBuffer)
        requires
            old(gpu).can_alloc(2),
            self.indices@.len() <= u32::MAX,
        ensures
            r.vertex_buffer.id_spec() == old(gpu).next_id_spec(),
            r.vertex_buffer.size_spec() == vertex_bytes@.len(),
            r.index_buffer.id_spec() == old(gpu).next_id_spec() + 1,
            r.index_buffer.size_spec() == 4 * self.indices@.len(),
            r.index_len == self.indices@.len(),
            final(gpu).next_id_spec() == old(gpu).next_id_spec() + 2,
            final(gpu).journal() == old(gpu).journal()
                .push(GpuOpView::CreateBufferInit {
                    id: r.vertex_buffer.id_spec(),
                    contents: vertex_bytes@,
                    usage: BufferUsages {
                        vertex: true,
                        index: false,
                        uniform: false,
                        copy_src: false,
                        copy_dst: false,
                        map_read: false,
                    },
                })
                .push(GpuOpView::CreateBufferInit {
                    id: r.index_buffer.id_spec(),
                    contents: indices_bytes(self.indices@),
                    usage: BufferUsages {
                        vertex: false,
                        index: true,
                        uniform: false,
                        copy_src: false,
                        copy_dst: false,
                        map_read: false,
                    },
                }),
    {
        let vertex_usage = BufferUsages {
            vertex: true,
            index: false,
            uniform: false,
            copy_src: false,
            copy_dst: false,
            map_read: false,
        };
        let index_usage = BufferUsages {
            vertex: false,
            index: true,
            uniform: false,
            copy_src: false,
            copy_dst: false,
            map_read: false,
        };
        let vertex_buffer = GpuBuffer::init(gpu, vertex_bytes, vertex_usage);
        let index_bytes = encode_indices(&self.indices);
        proof {
            lemma_indices_bytes_len(self.indices@);
        }
        let index_buffer = GpuBuffer::init(gpu, index_bytes.as_slice(), index_usage);
        VertexBuffer { vertex_buffer, index_buffer, index_len: self.indices.len() as u32 }
    }
}

impl<T: Copy> VertexBufferBuilder<T> {
    /// Adds a triangle from its three vertices, in order.
    pub fn add_triangle(&mut self, v: [T; 3]) -> (r: &mut VertexBufferBuilder<T>)
        requires
            old(self).index_id_counter + 3 <= u32::MAX,
        ensures
            r.vertices@ == old(self).vertices@ + v@,
            r.indices@ == old(self).indices@ + seq![
                old(self).index_id_counter,
                (old(self).index_id_counter + 1) as u32,
                (old(self).index_id_counter + 2) as u32,
            ],
            r.index_id_counter == old(self).index_id_counter + 3,
            *final(self) == *final(r),
    {
        let index = self.index_id_counter;
        self.vertices.push(v[0]);
        self.indices.push(index);
        self.vertices.push(v[1]);
        self.indices.push(index + 1);
        self.vertices.push(v[2]);
        self.indices.push(index + 2);
        self.index_id_counter = index + 3;
        proof {
            assert(self.vertices@ =~= old(self).vertices@ + v@);
            assert(self.indices@ =~= old(self).indices@ + seq![
                index,
                (index + 1) as u32,
                (index + 2) as u32,
            ]);
        }
        self
    }

    /// Adds a quadrilateral from its four corners, as two triangles:
    /// (0, 1, 2) and (2, 1, 3).
    pub fn add_quad(&mut self, v: [T; 4]) -> (r: &mut VertexBufferBuilder<T>)
        requires
            old(self).index_id_counter + 4 <= u32::MAX,
        ensures
            r.vertices@ == old(self).vertices@ + v@,
            r.indices@ == old(self).indices@ + seq![
                old(self).index_id_counter,
                (old(self).index_id_counter + 1) as u32,
                (old(self).index_id_counter + 2) as u32,
                (old(self).index_id_counter + 2) as u32,
                (old(self).index_id_counter + 1) as u32,
                (old(self).index_id_counter + 3) as u32,
            ],
            r.index_id_counter == old(self).index_id_counter + 4,
            *final(self) == *final(r),
    {
        let index = self.index_id_counter;
        self.vertices.push(v[0]);
        self.vertices.push(v[1]);
        self.vertices.push(v[2]);
        self.vertices.push(v[3]);
        self.indices.push(index);
        self.indices.push(index + 1);
        self.indices.push(index + 2);
        self.indices.push(index + 2);
        self.indices.push(index + 1);
        self.indices.push(index + 3);
        self.index_id_counter = index + 4;
        proof {
            assert(self.vertices@ =~= old(self).vertices@ + v@);
            assert(self.indices@ =~= old(self).indices@ + seq![
                index,
                (index + 1) as u32,
                (index + 2) as u32,
                (index + 2) as u32,
                (index + 1) as u32,
                (index + 3) as u32,
            ]);
        }
        self
    }
}

/// A baked instance buffer: per-instance data plus its logical length.
#[derive(Clone, Copy, Debug, PartialEq, Eq, Structural)]
pub struct InstanceBuffer {
    pub buffer: GpuBuffer,
    pub length: u32,
}

/// Accumulates per-instance data before baking it into a buffer.
#[derive(Clone, Debug)]
pub struct InstanceBufferBuilder<T> {
    data: Vec<T>,
}

impl<T> InstanceBufferBuilder<T> {
    /// The accumulated instances, in insertion order.
    pub closed spec fn data_spec(&self) -> Seq<T> {
        self.data@
    }

    /// How many instances have been pushed.
    pub fn len(&self) -> (n: usize)
        ensures
            n == self.data_spec().len(),
    {
        self.data.len()
    }

    /// An empty builder.
    pub fn new() -> (r: InstanceBufferBuilder<T>)
        ensures
            r.data_spec() == Seq::<T>::empty(),
    {
        let r = InstanceBufferBuilder { data: Vec::new() };
        proof {
            assert(r.data@ =~= Seq::<T>::empty());
        }
        r
    }

    /// Removes every accumulated instance.
    pub fn clear(&mut self)
        ensures
            final(self).data_spec() == Seq::<T>::empty(),
    {
        self.data.clear();
        proof {
            assert(self.data@ =~= Seq::<T>::empty());
        }
    }

    /// Appends one instance.
    pub fn push_instance(&mut self, data: T)
        ensures
            final(self).data_spec() == old(self).data_spec().push(data),
    {
        self.data.push(data);
    }

    /// Bakes the accumulated instances into a device buffer.  The caller
    /// supplies the device byte representation of the instances; the
    /// buffer's logical length is the instance count.
    pub fn bake(&self, gpu: &mut GpuCtx, instance_bytes: &[u8]) -> (r: InstanceBuffer)
        requires
            old(gpu).can_alloc(1),
            self.data_spec().len() <= u32::MAX,
        ensures
            r.buffer.id_spec() == old(gpu).next_id_spec(),
            r.buffer.size_spec() == instance_bytes@.len(),
            r.length == self.data_spec().len(),
            final(gpu).next_id_spec() == old(gpu).next_id_spec() + 1,
            final(gpu).journal() == old(gpu).journal().push(
                GpuOpView::CreateBufferInit {
                    id: r.buffer.id_spec(),
                    contents: instance_bytes@,
                    usage: BufferUsages {
                        vertex: true,
                        index: false,
                        uniform: false,
                        copy_src: false,
                        copy_dst: false,
                        map_read: false,
                    },
                },
            ),
    {
        let usage = BufferUsages {
            vertex: true,
            index: false,
            uniform: false,
            copy_src: false,
            copy_dst: false,
            map_read: false,
        };
        let buffer = GpuBuffer::init(gpu, instance_bytes, usage);
        InstanceBuffer { buffer, length: self.data.len() as u32 }
    }
}

impl<T> Default for InstanceBufferBuilder<T> {
    /// The default builder is empty.
    fn default() -> (r: InstanceBufferBuilder<T>)
        ensures
            r.data_spec() == Seq::<T>::empty(),
    {
        InstanceBufferBuilder::new()
    }
}

} // verus!

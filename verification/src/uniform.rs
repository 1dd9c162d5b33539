//! The shader-visible uniform block and its binding.
//!
//! The GPU holds exactly one data block — the 4x4 transform matrix, 64
//! bytes — which the CPU overwrites in place once per frame. The verified
//! state is the byte image of that block: a CPU-side mirror that every
//! queued overwrite updates in step with the GPU copy, so the contents can
//! be stated, proved and read back.

use vstd::prelude::*;

use crate::backend::{create_buffer_init, create_uniform_bind_group, create_uniform_bind_group_layout,
    queue_write_buffer, BufferRole};

verus! {

/// Size of the uniform block in bytes: one 4x4 matrix of 32-bit words.
pub const UNIFORM_BLOCK_SIZE: usize = 64;

/// The binding index of the uniform block inside its group; the shader
/// declares the block at the same index.
pub const UNIFORM_BINDING_INDEX: u32 = 0;

/// One CPU-side uniform block: the 64-byte image of the matrix as the
/// shader reads it (column-major words, little-endian bytes).
pub struct UniformBuffer {
    pub data: Vec<u8>,
}

impl UniformBuffer {
    /// A block is well formed when it is exactly the block size.
    pub open spec fn wf(self) -> bool {
        self.data@.len() == UNIFORM_BLOCK_SIZE
    }

    /// Wraps 64 bytes as a block.
    pub fn from_bytes(data: Vec<u8>) -> (r: Self)
        requires
            data@.len() == UNIFORM_BLOCK_SIZE,
        ensures
            r.wf(),
            r.data@ == data@,
    {
        UniformBuffer { data }
    }
}

impl Default for UniformBuffer {
    /// The zeroed block: what the GPU buffer is created with.
    fn default() -> (r: Self)
        ensures
            r.wf(),
            r.data@ == zero_block(),
    {
        let mut data: Vec<u8> = Vec::new();
        let mut k: usize = 0;
        while k < UNIFORM_BLOCK_SIZE
            invariant
                k <= UNIFORM_BLOCK_SIZE,
                data@.len() == k,
                forall|i: int| 0 <= i < k ==> data@[i] == 0u8,
            decreases UNIFORM_BLOCK_SIZE - k,
        {
            data.push(0u8);
            k = k + 1;
        }
        proof {
            assert(data@ =~= zero_block());
        }
        UniformBuffer { data }
    }
}

/// The 64 zero bytes of a freshly created block.
pub open spec fn zero_block() -> Seq<u8> {
    Seq::new(UNIFORM_BLOCK_SIZE as nat, |i: int| 0u8)
}

/// The byte image after overwriting `s` at `off` with `d`: the prefix up to
/// `off`, then `d`, then the rest of `s`.
pub open spec fn spliced(s: Seq<u8>, off: int, d: Seq<u8>) -> Seq<u8> {
    s.take(off) + d + s.skip(off + d.len())
}

/// Overwrites `dest` in place at `offset` with `data`.
pub fn write_bytes_at(dest: &mut Vec<u8>, offset: usize, data: &Vec<u8>)
    requires
        offset + data@.len() <= old(dest)@.len(),
    ensures
        final(dest)@ == spliced(old(dest)@, offset as int, data@),
        final(dest)@.len() == old(dest)@.len(),
{
    let n: usize = dest.len();
    let mut k: usize = 0;
    while k < data.len()
        invariant
            k <= data@.len(),
            n == dest@.len(),
            offset + data@.len() <= n,
            dest@.len() == old(dest)@.len(),
            forall|i: int| 0 <= i < offset ==> dest@[i] == old(dest)@[i],
            forall|i: int| 0 <= i < k ==> dest@[offset + i] == data@[i],
            forall|i: int| offset + data@.len() <= i < dest@.len() ==> dest@[i] == old(dest)@[i],
        decreases data@.len() - k,
    {
        dest.set(offset + k, data[k]);
        k = k + 1;
    }
    proof {
        assert(dest@ =~= spliced(old(dest)@, offset as int, data@));
    }
}

/// Overwriting the whole of a block and reading it back yields exactly the
/// written bytes.
pub proof fn lemma_uniform_round_trip(s: Seq<u8>, d: Seq<u8>)
    requires
        s.len() == d.len(),
    ensures
        spliced(s, 0, d) == d,
{
    assert(spliced(s, 0, d) =~= d);
}

/// The uniform block's GPU residence: the buffer, the layout declaring its
/// slot, the bind group realizing the layout, and the verified mirror of
/// the buffer's contents.
pub struct UniformBinding {
    pub buffer: wgpu::Buffer,
    pub bind_group: wgpu::BindGroup,
    pub bind_group_layout: wgpu::BindGroupLayout,
    pub contents: Vec<u8>,
}

impl UniformBinding {
    /// The mirror always spans exactly the block.
    pub open spec fn wf(self) -> bool {
        self.contents@.len() == UNIFORM_BLOCK_SIZE
    }

    /// Allocates the GPU buffer initialized to the zeroed block, declares
    /// the single vertex-stage uniform slot at binding index 0, and builds
    /// the bind group for it.
    pub fn new(device: &wgpu::Device) -> (r: Self)
        ensures
            r.wf(),
            r.contents@ == zero_block(),
    {
        let block = UniformBuffer::default();
        let buffer = create_buffer_init(device, &block.data, BufferRole::Uniform);
        let bind_group_layout = create_uniform_bind_group_layout(device, UNIFORM_BINDING_INDEX);
        let bind_group = create_uniform_bind_group(device, &bind_group_layout, UNIFORM_BINDING_INDEX, &buffer);
        UniformBinding { buffer, bind_group, bind_group_layout, contents: block.data }
    }

    /// Queues an overwrite of the block at the given byte offset with the
    /// given data block, and updates the mirror to match. The write must lie
    /// within the block. The GPU buffer, layout and bind group built at
    /// creation stay as they are: the block is only ever overwritten in
    /// place, never reallocated.
    pub fn update_buffer(&mut self, queue: &wgpu::Queue, offset: u64, block: &UniformBuffer)
        requires
            old(self).wf(),
            block.wf(),
            offset + block.data@.len() <= old(self).contents@.len(),
        ensures
            final(self).wf(),
            final(self).contents@ == spliced(old(self).contents@, offset as int, block.data@),
            final(self).buffer == old(self).buffer,
            final(self).bind_group == old(self).bind_group,
            final(self).bind_group_layout == old(self).bind_group_layout,
    {
        proof {
            // The block spans the whole buffer, so only offset 0 fits —
            // which meets the backend's four-byte alignment rule.
            assert(offset == 0);
        }
        queue_write_buffer(queue, &self.buffer, offset, &block.data);
        write_bytes_at(&mut self.contents, offset as usize, &block.data);
    }

    /// The current byte image of the block, as the GPU sees it after all
    /// queued writes.
    pub fn read_back(&self) -> (r: Vec<u8>)
        ensures
            r@ == self.contents@,
    {
        let mut r: Vec<u8> = Vec::new();
        let mut k: usize = 0;
        while k < self.contents.len()
            invariant
                k <= self.contents@.len(),
                r@ == self.contents@.take(k as int),
            decreases self.contents@.len() - k,
        {
            r.push(self.contents[k]);
            proof {
                assert(self.contents@.take(k + 1) =~= self.contents@.take(k as int).push(self.contents@[k as int]));
            }
            k = k + 1;
        }
        proof {
            assert(self.contents@.take(self.contents@.len() as int) =~= self.contents@);
        }
        r
    }
}

} // verus!

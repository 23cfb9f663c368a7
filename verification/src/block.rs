//! Host buffers: which of them a cycle can use, and which part of one holds data.
use vstd::prelude::*;

use crate::abi;
use crate::arith::imin;

verus! {

/// The data of a host buffer, as the host describes it.
#[derive(Debug, Clone, Copy, PartialEq, Eq, Structural)]
pub struct HostData {
    pub type_: u32,
    /// The memory is mapped.
    pub mapped: bool,
    /// There is a chunk that describes the contents.
    pub has_chunk: bool,
    pub maxsize: u32,
}

/// A host buffer, as the host describes it.
#[derive(Debug, Clone, Copy, PartialEq, Eq, Structural)]
pub struct HostBuffer {
    pub n_datas: u32,
    /// The first data, where there is one.
    pub data: Option<HostData>,
}

/// The contents of a block, as a peer describes them.
#[derive(Debug, Clone, Copy, PartialEq, Eq, Structural)]
pub struct Chunk {
    pub offset: u32,
    pub size: u32,
    pub stride: i32,
    pub flags: i32,
}

/// A block of mapped memory that a cycle can use.
#[derive(Debug, PartialEq, Eq)]
pub struct DataBlock {
    maxsize: u32,
}

/// Whether the data of a buffer can be used: mapped memory of a size that a slice can
/// have, with a chunk.
pub open spec fn usable_data(data: HostData) -> bool {
    data.type_ == abi::DATA_MEM_PTR && data.mapped && data.has_chunk && 0 < data.maxsize
        <= isize::MAX
}

/// The size of the block that a buffer id stands for; `None` where there is none that
/// can be used. The id and the layout come from a peer.
pub open spec fn block_size(buffers: Seq<Option<HostBuffer>>, buffer_id: u32) -> Option<u32> {
    if buffer_id >= buffers.len() {
        None
    } else {
        match buffers[buffer_id as int] {
            Some(buffer) => match buffer.data {
                Some(data) => if buffer.n_datas == 1 && usable_data(data) {
                    Some(data.maxsize)
                } else {
                    None
                },
                None => None,
            },
            None => None,
        }
    }
}

/// The block that a buffer id stands for, if it can be used.
pub fn valid_data_block(buffers: &Vec<Option<HostBuffer>>, buffer_id: u32) -> (block: Option<
    DataBlock,
>)
    ensures
        match block {
            Some(block) => block_size(buffers@, buffer_id) == Some(block.size()) && block.wf(),
            None => block_size(buffers@, buffer_id) is None,
        },
{
    if buffer_id as usize >= buffers.len() {
        return None;
    }
    let buffer = match buffers[buffer_id as usize] {
        Some(buffer) => buffer,
        None => return None,
    };
    if buffer.n_datas != 1 {
        return None;
    }
    match buffer.data {
        Some(data) => if data.type_ == abi::DATA_MEM_PTR && data.mapped && data.has_chunk
            && data.maxsize > 0 && data.maxsize as u64 <= isize::MAX as u64 {
            Some(DataBlock { maxsize: data.maxsize })
        } else {
            None
        },
        None => None,
    }
}

/// A part of a block.
#[derive(Debug, Clone, Copy, PartialEq, Eq, Structural)]
pub struct BlockRange {
    pub offset: u32,
    pub size: u32,
}

/// The part of a block of `maxsize` bytes that a chunk describes: the offset wraps at
/// the end of the block, and the size is what remains behind it at most.
pub open spec fn input_range_of(maxsize: u32, chunk: Chunk) -> BlockRange {
    let offset = (chunk.offset % maxsize) as int;
    BlockRange { offset: offset as u32, size: imin(chunk.size as int, maxsize - offset) as u32 }
}

impl DataBlock {
    /// The size of the block.
    pub closed spec fn size(&self) -> u32 {
        self.maxsize
    }

    /// A block is not empty.
    pub open spec fn wf(&self) -> bool {
        0 < self.size() <= isize::MAX
    }

    /// The size of the block: all of it can be written.
    pub fn output_size(&self) -> (size: u32)
        ensures
            size == self.size(),
    {
        self.maxsize
    }

    /// The part of the block that a peer's chunk describes, inside the block whatever
    /// the peer wrote.
    pub fn input_range(&self, chunk: Chunk) -> (range: BlockRange)
        requires
            self.wf(),
        ensures
            range == input_range_of(self.size(), chunk),
            range.offset + range.size <= self.size(),
    {
        let offset: u32 = chunk.offset % self.maxsize;
        BlockRange { offset, size: chunk.size.min(self.maxsize - offset) }
    }

    /// The chunk that describes `size` bytes at the start of the block.
    pub fn publish(&self, size: u32, stride: u32) -> (chunk: Chunk)
        requires
            size <= self.size(),
        ensures
            chunk == (Chunk { offset: 0, size, stride: stride as i32, flags: 0 }),
    {
        Chunk {
            offset: 0,
            size,
            stride: #[verifier::truncate]
            (stride as i32),
            flags: 0,
        }
    }
}

/// Whatever a peer writes into its chunk, the part of the block that is read lies
/// inside the block, and a sound chunk is read as it is. What was published is read
/// back.
pub proof fn input_stays_inside_the_block(maxsize: u32, chunk: Chunk)
    requires
        maxsize > 0,
    ensures
        input_range_of(maxsize, chunk).offset < maxsize,
        input_range_of(maxsize, chunk).offset + input_range_of(maxsize, chunk).size <= maxsize,
        chunk.offset < maxsize && chunk.offset + chunk.size <= maxsize ==> input_range_of(
            maxsize,
            chunk,
        ) == (BlockRange { offset: chunk.offset, size: chunk.size }),
{
    if chunk.offset < maxsize {
        vstd::arithmetic::div_mod::lemma_small_mod(chunk.offset as nat, maxsize as nat);
    }
}

/// A buffer can be used where it is known and has one data of mapped memory, with a chunk
/// and a size that a slice can have; its block is then all of that memory.
pub proof fn usable_buffer_is_one_mapped_block(
    buffers: Seq<Option<HostBuffer>>,
    buffer_id: u32,
    buffer: HostBuffer,
    data: HostData,
)
    requires
        buffer_id < buffers.len(),
        buffers[buffer_id as int] == Some(buffer),
        buffer.data == Some(data),
    ensures
        buffer.n_datas == 1 && data.type_ == 1 && data.mapped && data.has_chunk && data.maxsize > 0
            && data.maxsize <= isize::MAX ==> block_size(buffers, buffer_id) == Some(data.maxsize),
        buffer.n_datas != 1 ==> block_size(buffers, buffer_id) is None,
        data.type_ != 1 ==> block_size(buffers, buffer_id) is None,
        !data.mapped ==> block_size(buffers, buffer_id) is None,
        !data.has_chunk ==> block_size(buffers, buffer_id) is None,
        data.maxsize == 0 ==> block_size(buffers, buffer_id) is None,
        data.maxsize > isize::MAX ==> block_size(buffers, buffer_id) is None,
{
}

/// A buffer that the host did not register, or that has no data, cannot be used.
pub proof fn unknown_buffer_has_no_block(buffers: Seq<Option<HostBuffer>>, buffer_id: u32)
    ensures
        buffer_id >= buffers.len() ==> block_size(buffers, buffer_id) is None,
        buffer_id < buffers.len() && buffers[buffer_id as int] is None ==> block_size(
            buffers,
            buffer_id,
        ) is None,
        buffer_id < buffers.len() && buffers[buffer_id as int] is Some && (
        buffers[buffer_id as int]->0).data is None ==> block_size(buffers, buffer_id) is None,
{
}

/// A chunk is read from its offset, counted from the start of the block again after each of
/// its ends, and up to its size or the end of the block.
pub proof fn chunk_wraps_at_the_end_of_the_block(maxsize: u32, chunk: Chunk, turns: nat, offset: u32)
    requires
        offset < maxsize,
        chunk.offset == turns * maxsize + offset,
    ensures
        input_range_of(maxsize, chunk).offset == offset,
        chunk.size <= maxsize - offset ==> input_range_of(maxsize, chunk).size == chunk.size,
        chunk.size > maxsize - offset ==> input_range_of(maxsize, chunk).size == maxsize - offset,
{
    let m = maxsize as int;
    vstd::arithmetic::div_mod::lemma_mod_multiples_vanish(turns as int, offset as int, m);
    vstd::arithmetic::div_mod::lemma_small_mod(offset as nat, m as nat);
    assert(m * turns as int + offset == chunk.offset) by (nonlinear_arith)
        requires
            chunk.offset == turns * m + offset,
    ;
}

} // verus!

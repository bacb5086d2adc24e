//! Buffer descriptors and their size arithmetic.
//!
//! A buffer here is the description a renderer hands to the graphics API:
//! a byte size computed from an element count and an element size, a usage
//! mask, and a label. Copy and write requests are resolved from element
//! ranges into byte offsets, with every step of the arithmetic proved free
//! of overflow.

use vstd::prelude::*;
use vstd::arithmetic::mul::lemma_mul_inequality;

verus! {

/// Usage flags of a buffer, one flag per capability.
#[derive(Clone, Copy, Debug, PartialEq, Eq, Structural)]
pub struct BufferUsages {
    pub map_read: bool,
    pub map_write: bool,
    pub copy_src: bool,
    pub copy_dst: bool,
    pub index: bool,
    pub vertex: bool,
    pub uniform: bool,
    pub storage: bool,
}

/// The usage mask that holds both of two masks' capabilities.
pub open spec fn usage_union(a: BufferUsages, b: BufferUsages) -> BufferUsages {
    BufferUsages {
        map_read: a.map_read || b.map_read,
        map_write: a.map_write || b.map_write,
        copy_src: a.copy_src || b.copy_src,
        copy_dst: a.copy_dst || b.copy_dst,
        index: a.index || b.index,
        vertex: a.vertex || b.vertex,
        uniform: a.uniform || b.uniform,
        storage: a.storage || b.storage,
    }
}

/// The usage mask with exactly the given capabilities set.
pub open spec fn usage_mask(
    map_read: bool,
    map_write: bool,
    copy_src: bool,
    copy_dst: bool,
    index: bool,
    vertex: bool,
    uniform: bool,
    storage: bool,
) -> BufferUsages {
    BufferUsages { map_read, map_write, copy_src, copy_dst, index, vertex, uniform, storage }
}

impl BufferUsages {
    /// The empty usage mask.
    pub fn none() -> (r: BufferUsages)
        ensures
            r == usage_mask(false, false, false, false, false, false, false, false),
    {
        BufferUsages {
            map_read: false,
            map_write: false,
            copy_src: false,
            copy_dst: false,
            index: false,
            vertex: false,
            uniform: false,
            storage: false,
        }
    }

    /// A mask with only `map_read` set.
    pub fn map_read() -> (r: BufferUsages)
        ensures
            r == usage_mask(true, false, false, false, false, false, false, false),
    {
        BufferUsages { map_read: true, ..BufferUsages::none() }
    }

    /// A mask with only `map_write` set.
    pub fn map_write() -> (r: BufferUsages)
        ensures
            r == usage_mask(false, true, false, false, false, false, false, false),
    {
        BufferUsages { map_write: true, ..BufferUsages::none() }
    }

    /// A mask with only `copy_src` set.
    pub fn copy_src() -> (r: BufferUsages)
        ensures
            r == usage_mask(false, false, true, false, false, false, false, false),
    {
        BufferUsages { copy_src: true, ..BufferUsages::none() }
    }

    /// A mask with only `copy_dst` set.
    pub fn copy_dst() -> (r: BufferUsages)
        ensures
            r == usage_mask(false, false, false, true, false, false, false, false),
    {
        BufferUsages { copy_dst: true, ..BufferUsages::none() }
    }

    /// A mask with only `index` set.
    pub fn index() -> (r: BufferUsages)
        ensures
            r == usage_mask(false, false, false, false, true, false, false, false),
    {
        BufferUsages { index: true, ..BufferUsages::none() }
    }

    /// A mask with only `vertex` set.
    pub fn vertex() -> (r: BufferUsages)
        ensures
            r == usage_mask(false, false, false, false, false, true, false, false),
    {
        BufferUsages { vertex: true, ..BufferUsages::none() }
    }

    /// A mask with only `uniform` set.
    pub fn uniform() -> (r: BufferUsages)
        ensures
            r == usage_mask(false, false, false, false, false, false, true, false),
    {
        BufferUsages { uniform: true, ..BufferUsages::none() }
    }

    /// A mask with only `storage` set.
    pub fn storage() -> (r: BufferUsages)
        ensures
            r == usage_mask(false, false, false, false, false, false, false, true),
    {
        BufferUsages { storage: true, ..BufferUsages::none() }
    }

    /// The mask holding both this mask's and `other`'s capabilities.
    pub fn union(self, other: BufferUsages) -> (r: BufferUsages)
        ensures
            r == usage_union(self, other),
    {
        BufferUsages {
            map_read: self.map_read || other.map_read,
            map_write: self.map_write || other.map_write,
            copy_src: self.copy_src || other.copy_src,
            copy_dst: self.copy_dst || other.copy_dst,
            index: self.index || other.index,
            vertex: self.vertex || other.vertex,
            uniform: self.uniform || other.uniform,
            storage: self.storage || other.storage,
        }
    }
}

/// The description of a buffer: what a renderer asks the graphics API to
/// allocate, together with the element bookkeeping of the typed wrapper.
pub struct Buffer {
    pub label: Option<String>,
    pub size: u64,
    pub usage: BufferUsages,
    pub mapped_at_creation: bool,
    pub len: usize,
    pub item_size: u64,
}

/// One bound of an element range to copy from a buffer.
#[derive(Clone, Copy, Debug, PartialEq, Eq)]
pub enum CopyBound {
    Unbounded,
    Included(u64),
    Excluded(u64),
}

/// The first element index a start bound admits.
pub open spec fn resolve_start(b: CopyBound) -> int {
    match b {
        CopyBound::Unbounded => 0,
        CopyBound::Included(o) => o as int,
        CopyBound::Excluded(o) => o as int + 1,
    }
}

/// The element index an end bound resolves to, for a buffer of `len`
/// elements: an unbounded end stops at the last element.
pub open spec fn resolve_end(b: CopyBound, len: usize) -> int {
    match b {
        CopyBound::Unbounded => len as int - 1,
        CopyBound::Included(o) => o as int,
        CopyBound::Excluded(o) => o as int - 1,
    }
}

/// A copy request between two buffers, in bytes.
#[derive(Clone, Copy, Debug, PartialEq, Eq, Structural)]
pub struct BufferCopy {
    pub src_offset: u64,
    pub dst_offset: u64,
    pub size: u64,
}

/// A write request into a buffer: where the bytes go and how many
/// elements they hold.
#[derive(Clone, Copy, Debug, PartialEq, Eq, Structural)]
pub struct BufferWrite {
    pub offset: u64,
    pub data_len: usize,
}

impl Buffer {
    /// Describe a buffer of `len` uninitialised elements of `item_size`
    /// bytes each.
    pub fn new_empty(usage: BufferUsages, label: Option<String>, len: usize, item_size: u64) -> (r:
        Buffer)
        requires
            len * item_size <= u64::MAX,
        ensures
            r.size == len * item_size,
            r.usage == usage,
            r.label == label,
            r.mapped_at_creation == false,
            r.len == len,
            r.item_size == item_size,
    {
        Buffer {
            label,
            size: (len as u64) * item_size,
            usage,
            mapped_at_creation: false,
            len,
            item_size,
        }
    }

    /// Describe a buffer initialised from `data_len` elements of
    /// `item_size` bytes each.
    pub fn new(usage: BufferUsages, label: Option<String>, data_len: usize, item_size: u64) -> (r:
        Buffer)
        requires
            data_len * item_size <= u64::MAX,
        ensures
            r.size == data_len * item_size,
            r.usage == usage,
            r.label == label,
            r.mapped_at_creation == false,
            r.len == data_len,
            r.item_size == item_size,
    {
        Buffer {
            label,
            size: (data_len as u64) * item_size,
            usage,
            mapped_at_creation: false,
            len: data_len,
            item_size,
        }
    }

    /// Describe a vertex buffer initialised from `data_len` elements.
    pub fn new_vert(label: Option<String>, data_len: usize, item_size: u64) -> (r: Buffer)
        requires
            data_len * item_size <= u64::MAX,
        ensures
            r.size == data_len * item_size,
            r.usage == usage_mask(false, false, false, false, false, true, false, false),
            r.label == label,
            r.mapped_at_creation == false,
            r.len == data_len,
            r.item_size == item_size,
    {
        Buffer::new(BufferUsages::vertex(), label, data_len, item_size)
    }

    /// Describe a readable storage buffer initialised from `data_len`
    /// elements.
    pub fn new_storage(label: Option<String>, data_len: usize, item_size: u64) -> (r: Buffer)
        requires
            data_len * item_size <= u64::MAX,
        ensures
            r.size == data_len * item_size,
            r.usage == usage_mask(true, false, false, false, false, false, false, true),
            r.label == label,
            r.mapped_at_creation == false,
            r.len == data_len,
            r.item_size == item_size,
    {
        Buffer::new(BufferUsages::storage().union(BufferUsages::map_read()), label, data_len, item_size)
    }

    /// Describe an index buffer initialised from `data_len` elements.
    pub fn new_index(label: Option<String>, data_len: usize, item_size: u64) -> (r: Buffer)
        requires
            data_len * item_size <= u64::MAX,
        ensures
            r.size == data_len * item_size,
            r.usage == usage_mask(false, false, false, false, true, false, false, false),
            r.label == label,
            r.mapped_at_creation == false,
            r.len == data_len,
            r.item_size == item_size,
    {
        Buffer::new(BufferUsages::index(), label, data_len, item_size)
    }

    /// How many elements the buffer holds.
    pub fn len(&self) -> (r: usize)
        ensures
            r == self.len,
    {
        self.len
    }

    /// Resolve an element range of this buffer and a destination offset
    /// into a byte-level copy request.
    ///
    /// The end bound resolves to an element index, not one past it: an
    /// unbounded end stops at the last element, so the resulting span
    /// covers `resolve_end - resolve_start` elements.
    pub fn copy_to_buffer(&self, dst: &Buffer, src_start: CopyBound, src_end: CopyBound,
        dst_offset: u64) -> (r: BufferCopy)
        requires
            src_end is Unbounded ==> self.len > 0,
            resolve_start(src_start) <= u64::MAX,
            0 <= resolve_end(src_end, self.len),
            resolve_start(src_start) <= resolve_end(src_end, self.len),
            resolve_end(src_end, self.len) * self.item_size <= u64::MAX,
            dst_offset * self.item_size <= u64::MAX,
        ensures
            r.src_offset == resolve_start(src_start) * self.item_size,
            r.size == (resolve_end(src_end, self.len) - resolve_start(src_start))
                * self.item_size,
            r.dst_offset == dst_offset * self.item_size,
    {
        let start_elem: u64 = match src_start {
            CopyBound::Unbounded => 0,
            CopyBound::Included(o) => o,
            CopyBound::Excluded(o) => o + 1,
        };
        let end_elem: u64 = match src_end {
            CopyBound::Unbounded => (self.len - 1) as u64,
            CopyBound::Included(o) => o,
            CopyBound::Excluded(o) => o - 1,
        };
        proof {
            lemma_mul_inequality(start_elem as int, end_elem as int, self.item_size as int);
        }
        let start_byte: u64 = start_elem * self.item_size;
        let end_byte: u64 = end_elem * self.item_size;
        let copy_size: u64 = end_byte - start_byte;
        let dst_byte: u64 = dst_offset * self.item_size;
        proof {
            vstd::arithmetic::mul::lemma_mul_is_distributive_sub_other_way(
                self.item_size as int,
                end_elem as int,
                start_elem as int,
            );
        }
        BufferCopy { src_offset: start_byte, dst_offset: dst_byte, size: copy_size }
    }
}

/// A buffer that the queue may rewrite after creation: its usage always
/// holds `copy_dst` on top of what was asked for.
pub struct DynamicBuffer(pub Buffer);

impl DynamicBuffer {
    /// Describe an uninitialised rewritable buffer.
    pub fn new_empty(usage: BufferUsages, label: Option<String>, len: usize, item_size: u64) -> (r:
        DynamicBuffer)
        requires
            len * item_size <= u64::MAX,
        ensures
            r.0.size == len * item_size,
            r.0.usage == usage_union(usage, usage_mask(false, false, false, true, false, false, false, false)),
            r.0.label == label,
            r.0.mapped_at_creation == false,
            r.0.len == len,
            r.0.item_size == item_size,
    {
        DynamicBuffer(Buffer::new_empty(usage.union(BufferUsages::copy_dst()), label, len, item_size))
    }

    /// Describe a rewritable buffer initialised from `data_len` elements.
    pub fn new(usage: BufferUsages, label: Option<String>, data_len: usize, item_size: u64) -> (r:
        DynamicBuffer)
        requires
            data_len * item_size <= u64::MAX,
        ensures
            r.0.size == data_len * item_size,
            r.0.usage == usage_union(usage, usage_mask(false, false, false, true, false, false, false, false)),
            r.0.label == label,
            r.0.mapped_at_creation == false,
            r.0.len == data_len,
            r.0.item_size == item_size,
    {
        DynamicBuffer(Buffer::new(usage.union(BufferUsages::copy_dst()), label, data_len, item_size))
    }

    /// Describe a rewritable vertex buffer.
    pub fn new_vert(label: Option<String>, data_len: usize, item_size: u64) -> (r: DynamicBuffer)
        requires
            data_len * item_size <= u64::MAX,
        ensures
            r.0.size == data_len * item_size,
            r.0.usage == usage_mask(false, false, false, true, false, true, false, false),
            r.0.label == label,
            r.0.mapped_at_creation == false,
            r.0.len == data_len,
            r.0.item_size == item_size,
    {
        DynamicBuffer::new(BufferUsages::vertex(), label, data_len, item_size)
    }

    /// Describe a rewritable index buffer.
    pub fn new_index(label: Option<String>, data_len: usize, item_size: u64) -> (r: DynamicBuffer)
        requires
            data_len * item_size <= u64::MAX,
        ensures
            r.0.size == data_len * item_size,
            r.0.usage == usage_mask(false, false, false, true, true, false, false, false),
            r.0.label == label,
            r.0.mapped_at_creation == false,
            r.0.len == data_len,
            r.0.item_size == item_size,
    {
        DynamicBuffer::new(BufferUsages::index(), label, data_len, item_size)
    }

    /// Describe a rewritable uniform buffer.
    pub fn new_uniform(label: Option<String>, data_len: usize, item_size: u64) -> (r:
        DynamicBuffer)
        requires
            data_len * item_size <= u64::MAX,
        ensures
            r.0.size == data_len * item_size,
            r.0.usage == usage_mask(false, false, false, true, false, false, true, false),
            r.0.label == label,
            r.0.mapped_at_creation == false,
            r.0.len == data_len,
            r.0.item_size == item_size,
    {
        DynamicBuffer::new(BufferUsages::uniform(), label, data_len, item_size)
    }

    /// Resolve a queue write of `data_len` elements starting at element
    /// `offset` into its byte offset.
    pub fn write_buffer(&self, offset: usize, data_len: usize) -> (r: BufferWrite)
        requires
            offset * self.0.item_size <= u64::MAX,
        ensures
            r.offset == offset * self.0.item_size,
            r.data_len == data_len,
    {
        BufferWrite { offset: (offset as u64) * self.0.item_size, data_len }
    }
}

/// A buffer that can be mapped into CPU memory: its usage always holds
/// `map_read` and `map_write` on top of what was asked for.
pub struct MappedBuffer {
    pub buffer: Buffer,
}

impl MappedBuffer {
    /// Describe an uninitialised mappable buffer.
    pub fn new_empty(usage: BufferUsages, label: Option<String>, len: usize, item_size: u64) -> (r:
        MappedBuffer)
        requires
            len * item_size <= u64::MAX,
        ensures
            r.buffer.size == len * item_size,
            r.buffer.usage == usage_union(usage, usage_mask(true, true, false, false, false, false, false, false)),
            r.buffer.label == label,
            r.buffer.mapped_at_creation == false,
            r.buffer.len == len,
            r.buffer.item_size == item_size,
    {
        MappedBuffer {
            buffer: Buffer::new_empty(
                usage.union(BufferUsages::map_read()).union(BufferUsages::map_write()),
                label,
                len,
                item_size,
            ),
        }
    }

    /// Describe a mappable buffer initialised from `data_len` elements.
    pub fn new(usage: BufferUsages, label: Option<String>, data_len: usize, item_size: u64) -> (r:
        MappedBuffer)
        requires
            data_len * item_size <= u64::MAX,
        ensures
            r.buffer.size == data_len * item_size,
            r.buffer.usage == usage_union(usage, usage_mask(true, true, false, false, false, false, false, false)),
            r.buffer.label == label,
            r.buffer.mapped_at_creation == false,
            r.buffer.len == data_len,
            r.buffer.item_size == item_size,
    {
        MappedBuffer {
            buffer: Buffer::new(
                usage.union(BufferUsages::map_read()).union(BufferUsages::map_write()),
                label,
                data_len,
                item_size,
            ),
        }
    }

    /// Describe a mappable vertex buffer.
    pub fn new_vert(label: Option<String>, data_len: usize, item_size: u64) -> (r: MappedBuffer)
        requires
            data_len * item_size <= u64::MAX,
        ensures
            r.buffer.size == data_len * item_size,
            r.buffer.usage == usage_mask(true, true, false, false, false, true, false, false),
            r.buffer.len == data_len,
            r.buffer.item_size == item_size,
            r.buffer.label == label,
            r.buffer.mapped_at_creation == false,
    {
        MappedBuffer::new(BufferUsages::vertex(), label, data_len, item_size)
    }

    /// Describe a mappable index buffer.
    pub fn new_index(label: Option<String>, data_len: usize, item_size: u64) -> (r: MappedBuffer)
        requires
            data_len * item_size <= u64::MAX,
        ensures
            r.buffer.size == data_len * item_size,
            r.buffer.usage == usage_mask(true, true, false, false, true, false, false, false),
            r.buffer.len == data_len,
            r.buffer.item_size == item_size,
            r.buffer.label == label,
            r.buffer.mapped_at_creation == false,
    {
        MappedBuffer::new(BufferUsages::index(), label, data_len, item_size)
    }

    /// Describe a mappable uniform buffer.
    pub fn new_uniform(label: Option<String>, data_len: usize, item_size: u64) -> (r: MappedBuffer)
        requires
            data_len * item_size <= u64::MAX,
        ensures
            r.buffer.size == data_len * item_size,
            r.buffer.usage == usage_mask(true, true, false, false, false, false, true, false),
            r.buffer.len == data_len,
            r.buffer.item_size == item_size,
            r.buffer.label == label,
            r.buffer.mapped_at_creation == false,
    {
        MappedBuffer::new(BufferUsages::uniform(), label, data_len, item_size)
    }

    /// Describe a mappable storage buffer.
    pub fn new_storage(label: Option<String>, data_len: usize, item_size: u64) -> (r: MappedBuffer)
        requires
            data_len * item_size <= u64::MAX,
        ensures
            r.buffer.size == data_len * item_size,
            r.buffer.usage == usage_mask(true, true, false, false, false, false, false, true),
            r.buffer.len == data_len,
            r.buffer.item_size == item_size,
            r.buffer.label == label,
            r.buffer.mapped_at_creation == false,
    {
        MappedBuffer::new(BufferUsages::storage(), label, data_len, item_size)
    }
}

} // verus!

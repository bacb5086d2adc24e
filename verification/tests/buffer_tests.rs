use wgpu_utils::buffer::{Buffer, BufferUsages, CopyBound, DynamicBuffer, MappedBuffer};

#[test]
fn empty_buffer_size_is_len_times_item_size() {
    let b = Buffer::new_empty(BufferUsages::storage(), None, 12, 8);
    assert_eq!(b.size, 96);
    assert_eq!(b.len(), 12);
    assert_eq!(b.item_size, 8);
    assert!(!b.mapped_at_creation);
    assert_eq!(b.usage, BufferUsages::storage());
}

#[test]
fn init_buffer_presets() {
    let v = Buffer::new_vert(Some(String::from("verts")), 4, 16);
    assert_eq!(v.size, 64);
    assert_eq!(v.usage, BufferUsages::vertex());
    assert_eq!(v.label.as_deref(), Some("verts"));

    let i = Buffer::new_index(None, 6, 4);
    assert_eq!(i.size, 24);
    assert_eq!(i.usage, BufferUsages::index());

    // A storage buffer is also readable by mapping.
    let s = Buffer::new_storage(None, 3, 4);
    let expected = BufferUsages::storage().union(BufferUsages::map_read());
    assert_eq!(s.usage, expected);
    assert!(s.usage.storage && s.usage.map_read && !s.usage.map_write);
}

#[test]
fn usage_union_keeps_both_masks() {
    let u = BufferUsages::vertex().union(BufferUsages::copy_dst());
    assert!(u.vertex && u.copy_dst);
    assert!(!u.map_read && !u.map_write && !u.copy_src && !u.index && !u.uniform && !u.storage);
    assert_eq!(u.union(u), u);
    assert_eq!(BufferUsages::none().union(BufferUsages::uniform()), BufferUsages::uniform());
}

#[test]
fn dynamic_buffer_always_copy_dst() {
    let d = DynamicBuffer::new(BufferUsages::uniform(), None, 1, 48);
    assert!(d.0.usage.uniform && d.0.usage.copy_dst);
    assert_eq!(d.0.size, 48);

    let e = DynamicBuffer::new_empty(BufferUsages::none(), None, 10, 4);
    assert!(e.0.usage.copy_dst);
    assert_eq!(e.0.size, 40);

    assert!(DynamicBuffer::new_vert(None, 2, 8).0.usage.vertex);
    assert!(DynamicBuffer::new_index(None, 2, 4).0.usage.index);
    assert!(DynamicBuffer::new_uniform(None, 1, 64).0.usage.uniform);
}

#[test]
fn dynamic_buffer_write_offset_in_bytes() {
    let d = DynamicBuffer::new_empty(BufferUsages::none(), None, 100, 12);
    let w = d.write_buffer(5, 20);
    assert_eq!(w.offset, 60);
    assert_eq!(w.data_len, 20);
    let w0 = d.write_buffer(0, 1);
    assert_eq!(w0.offset, 0);
}

#[test]
fn mapped_buffer_always_mappable_both_ways() {
    let m = MappedBuffer::new(BufferUsages::none(), None, 5, 4);
    assert!(m.buffer.usage.map_read && m.buffer.usage.map_write);
    assert_eq!(m.buffer.size, 20);

    assert!(MappedBuffer::new_empty(BufferUsages::none(), None, 1, 1).buffer.usage.map_read);
    assert!(MappedBuffer::new_vert(None, 1, 1).buffer.usage.vertex);
    assert!(MappedBuffer::new_index(None, 1, 1).buffer.usage.index);
    assert!(MappedBuffer::new_uniform(None, 1, 1).buffer.usage.uniform);
    let s = MappedBuffer::new_storage(None, 1, 1).buffer.usage;
    assert!(s.storage && s.map_read && s.map_write);
}

#[test]
fn copy_full_range_stops_at_last_element() {
    // 5 elements of 4 bytes; an unbounded end resolves to the last
    // element, so the span covers 4 of the 5 elements.
    let src = Buffer::new_empty(BufferUsages::copy_src(), None, 5, 4);
    let dst = Buffer::new_empty(BufferUsages::copy_dst(), None, 5, 4);
    let c = src.copy_to_buffer(&dst, CopyBound::Unbounded, CopyBound::Unbounded, 0);
    assert_eq!(c.src_offset, 0);
    assert_eq!(c.dst_offset, 0);
    assert_eq!(c.size, 16);
}

#[test]
fn copy_bounds_resolve_to_byte_offsets() {
    let src = Buffer::new_empty(BufferUsages::copy_src(), None, 10, 8);
    let dst = Buffer::new_empty(BufferUsages::copy_dst(), None, 10, 8);

    // Included(1)..Excluded(4) resolves to the element span 1..=3, which
    // the inclusive end arithmetic counts as 2 elements.
    let c = src.copy_to_buffer(&dst, CopyBound::Included(1), CopyBound::Excluded(4), 2);
    assert_eq!(c.src_offset, 8);
    assert_eq!(c.size, 16);
    assert_eq!(c.dst_offset, 16);

    // An excluded start begins one element later.
    let c2 = src.copy_to_buffer(&dst, CopyBound::Excluded(1), CopyBound::Included(6), 0);
    assert_eq!(c2.src_offset, 16);
    assert_eq!(c2.size, 32);

    // An empty span: start equals end.
    let c3 = src.copy_to_buffer(&dst, CopyBound::Included(3), CopyBound::Included(3), 0);
    assert_eq!(c3.size, 0);
    assert_eq!(c3.src_offset, 24);
}

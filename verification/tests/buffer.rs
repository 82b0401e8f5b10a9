use radiant::buffer::AppendBuffer;

#[test]
fn new_buffer_is_empty() {
    let b: AppendBuffer<u32> = AppendBuffer::new(8);
    assert_eq!(b.len(), 0);
    assert_eq!(b.capacity(), 8);
    assert!(b.snapshot().is_empty());
}

#[test]
fn push_returns_slot_and_appends() {
    let mut b: AppendBuffer<u32> = AppendBuffer::new(2);
    assert_eq!(b.push(10), 0);
    assert_eq!(b.push(20), 1);
    assert_eq!(b.len(), 2);
    assert_eq!(*b.get(0), 10);
    assert_eq!(*b.get(1), 20);
}

#[test]
fn append_reserves_contiguous_block() {
    let mut b: AppendBuffer<u32> = AppendBuffer::new(4);
    let start = b.append(vec![1, 2, 3]);
    assert_eq!(start, 0);
    let start = b.append(vec![4, 5]);
    assert_eq!(start, 3);
    assert_eq!(b.snapshot().as_slice(), &[1, 2, 3, 4, 5]);
}

#[test]
fn growth_doubles_capacity() {
    let mut b: AppendBuffer<u32> = AppendBuffer::new(2);
    b.push(1);
    b.push(2);
    assert_eq!(b.capacity(), 2);
    b.push(3);
    assert_eq!(b.capacity(), 4);
    assert_eq!(b.snapshot().as_slice(), &[1, 2, 3]);
}

#[test]
fn growth_jumps_to_needed_size() {
    let mut b: AppendBuffer<u32> = AppendBuffer::new(2);
    let start = b.append((0..10).collect());
    assert_eq!(start, 0);
    assert_eq!(b.len(), 10);
    assert_eq!(b.capacity(), 10);
}

#[test]
fn clear_keeps_capacity() {
    let mut b: AppendBuffer<u32> = AppendBuffer::new(2);
    b.append(vec![1, 2, 3, 4, 5]);
    let cap = b.capacity();
    b.clear();
    assert_eq!(b.len(), 0);
    assert_eq!(b.capacity(), cap);
}

#[test]
fn append_empty_block_is_noop() {
    let mut b: AppendBuffer<u32> = AppendBuffer::new(0);
    let start = b.append(Vec::new());
    assert_eq!(start, 0);
    assert_eq!(b.len(), 0);
}

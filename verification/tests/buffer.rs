use enviro_core::engine::buffer::{BufferPool, ZeroCopyBuffer, DEFAULT_BUFFER_CAPACITY};

#[test]
fn test_buffer_new() {
    let buf = ZeroCopyBuffer::new(1024);
    assert_eq!(buf.len(), 0);
    assert!(buf.is_empty());
    assert_eq!(buf.capacity(), 1024);
}

#[test]
fn test_buffer_write_and_read() {
    let mut buf = ZeroCopyBuffer::new(64);
    buf.write(b"hello world");
    assert_eq!(buf.len(), 11);
    assert!(!buf.is_empty());
    assert_eq!(buf.as_slice(), b"hello world");
}

#[test]
fn test_buffer_overwrite() {
    let mut buf = ZeroCopyBuffer::new(64);
    buf.write(b"first");
    buf.write(b"second");
    assert_eq!(buf.as_slice(), b"second");
    assert_eq!(buf.len(), 6);
}

#[test]
fn test_buffer_reset() {
    let mut buf = ZeroCopyBuffer::new(64);
    buf.write(b"data");
    buf.reset();
    assert!(buf.is_empty());
    assert_eq!(buf.len(), 0);
}

#[test]
fn test_pool_allocate_fresh() {
    let mut pool = BufferPool::new(DEFAULT_BUFFER_CAPACITY);
    let buf = pool.allocate();
    assert_eq!(buf.capacity(), DEFAULT_BUFFER_CAPACITY);

    let stats = pool.get_stats();
    assert_eq!(stats.total_allocations, 1);
    assert_eq!(stats.reuses, 0);
    assert_eq!(stats.active_count, 1);
}

#[test]
fn test_pool_reuse() {
    let mut pool = BufferPool::new(DEFAULT_BUFFER_CAPACITY);

    let buf = pool.allocate();
    pool.release(buf);

    let _buf2 = pool.allocate();

    let stats = pool.get_stats();
    assert_eq!(stats.total_allocations, 1);
    assert_eq!(stats.reuses, 1);
    assert_eq!(stats.active_count, 1);
}

#[test]
fn test_pool_multiple_allocations() {
    let mut pool = BufferPool::new(256);

    let b1 = pool.allocate();
    let b2 = pool.allocate();
    let b3 = pool.allocate();

    assert_eq!(pool.get_stats().active_count, 3);
    assert_eq!(pool.get_stats().total_allocations, 3);

    pool.release(b1);
    pool.release(b2);
    pool.release(b3);

    assert_eq!(pool.get_stats().active_count, 0);

    // All three should be reused now
    let _r1 = pool.allocate();
    let _r2 = pool.allocate();
    let _r3 = pool.allocate();

    let stats = pool.get_stats();
    assert_eq!(stats.total_allocations, 3);
    assert_eq!(stats.reuses, 3);
    assert_eq!(stats.active_count, 3);
}

#[test]
fn test_pool_released_buffer_is_empty() {
    let mut pool = BufferPool::new(128);
    let mut buf = pool.allocate();
    buf.write(b"leftover data");
    pool.release(buf);

    let reused = pool.allocate();
    assert!(reused.is_empty(), "reused buffer should be cleared");
}

#[test]
fn released_buffers_come_back_oldest_first_with_their_capacity() {
    let mut pool = BufferPool::new(16);
    pool.release(ZeroCopyBuffer::new(100));
    pool.release(ZeroCopyBuffer::new(200));
    assert_eq!(pool.get_stats().active_count, 0);
    assert_eq!(pool.allocate().capacity(), 100);
    assert_eq!(pool.allocate().capacity(), 200);
    assert_eq!(pool.allocate().capacity(), 16);
    assert_eq!(DEFAULT_BUFFER_CAPACITY, 4096);
}

#[test]
fn write_of_nothing_empties_the_buffer() {
    let mut buf = ZeroCopyBuffer::new(0);
    buf.write(b"abc");
    buf.write(b"");
    assert!(buf.is_empty());
    assert_eq!(buf.as_slice(), b"");
    assert_eq!(buf.capacity(), 0);
}

use enviro_core::engine::memory_pool::ContextPool;

#[test]
fn test_pool_acquire_returns_context() {
    let mut pool = ContextPool::new(2);
    let ctx = pool.acquire("ctr-1");
    assert_eq!(ctx.container_id, "ctr-1");
}

#[test]
fn test_pool_release_and_reuse() {
    let mut pool = ContextPool::new(1);
    let ctx = pool.acquire("ctr-1");
    pool.release(ctx);

    let ctx2 = pool.acquire("ctr-2");
    assert_eq!(ctx2.container_id, "ctr-2");
    // The recycled context should have had its env cleared.
    assert!(ctx2.env.is_empty());
}

#[test]
fn test_pool_stats_tracking() {
    let mut pool = ContextPool::new(4);
    assert_eq!(pool.stats().pool_size, 4);
    assert_eq!(pool.stats().active_count, 0);

    let c1 = pool.acquire("a");
    let c2 = pool.acquire("b");
    assert_eq!(pool.stats().active_count, 2);
    assert_eq!(pool.stats().peak_usage, 2);

    pool.release(c1);
    assert_eq!(pool.stats().active_count, 1);
    assert_eq!(pool.stats().recycled_count, 1);

    pool.release(c2);
    assert_eq!(pool.stats().active_count, 0);
    assert_eq!(pool.stats().recycled_count, 2);
    // Peak should still be 2.
    assert_eq!(pool.stats().peak_usage, 2);
}

#[test]
fn test_pool_grows_beyond_capacity() {
    let mut pool = ContextPool::new(1);
    let c1 = pool.acquire("a");
    let c2 = pool.acquire("b"); // exceeds initial capacity
    assert_eq!(pool.stats().active_count, 2);
    pool.release(c1);
    pool.release(c2);
}

#[test]
fn test_shrink_to_fit() {
    let mut pool = ContextPool::new(8);
    let c1 = pool.acquire("a");
    pool.release(c1);
    // peak_usage == 1, free_list has 8 items
    pool.shrink_to_fit();
    assert!(pool.free_count() <= 1);
}

#[test]
fn test_release_clears_sensitive_fields() {
    let mut pool = ContextPool::new(1);
    let mut ctx = pool.acquire("secret");
    ctx.env.insert("TOKEN".into(), "abc123".into());
    pool.release(ctx);

    let reused = pool.acquire("other");
    assert!(reused.env.is_empty());
    assert!(reused.container_id == "other");
}

#[test]
fn default_context_and_shrinking_by_peak() {
    let mut pool = ContextPool::new(0);
    let ctx = pool.acquire("fresh");
    assert_eq!(ctx.workdir, "/");
    assert_eq!(ctx.limits.cpu_millicores, 1000);
    assert_eq!(ctx.limits.memory_bytes, 256 * 1024 * 1024);
    assert_eq!(ctx.limits.pid_limit, 128);
    assert!(ctx.network.isolated);
    assert!(ctx.network.dns_servers.is_empty());
    pool.release(ctx);
    let mut big = ContextPool::new(5);
    let a = big.acquire("a");
    let b = big.acquire("b");
    let c = big.acquire("c");
    big.release(a);
    big.release(b);
    big.release(c);
    assert_eq!(big.free_count(), 5);
    big.shrink_to_fit();
    assert_eq!(big.free_count(), 3);
    big.shrink_to_fit();
    assert_eq!(big.free_count(), 3);
    let mut unused = ContextPool::new(4);
    unused.shrink_to_fit();
    assert_eq!(unused.free_count(), 1);
    let mut context = big.acquire("x");
    context.workdir = "/srv".to_string();
    context.scrub();
    assert_eq!(context.container_id, "");
    assert_eq!(context.workdir, "/srv");
}

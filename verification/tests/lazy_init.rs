use enviro_core::engine::lazy_init::{LazyResource, LazyResourcePool};

#[test]
fn test_lazy_resource_deferred() {
    let res = LazyResource::<String>::new("test");
    assert!(!res.is_initialized());
}

#[test]
fn test_lazy_resource_init_once() {
    let mut res = LazyResource::<u32>::new("counter");
    let val = res.get_or_init(|| 42);
    assert_eq!(*val, 42);
    assert!(res.is_initialized());

    // Second call must return the same value without re-running init.
    let val2 = res.get_or_init(|| panic!("should not be called"));
    assert_eq!(*val2, 42);
}

#[test]
fn test_lazy_resource_into_inner() {
    let mut res = LazyResource::<String>::new("owned");
    res.get_or_init(|| "hello".to_string());
    assert_eq!(res.into_inner(), Some("hello".to_string()));
}

#[test]
fn test_lazy_resource_into_inner_uninit() {
    let res = LazyResource::<String>::new("empty");
    assert_eq!(res.into_inner(), None);
}

#[test]
fn test_pool_register_and_init() {
    let mut pool = LazyResourcePool::<String>::new();
    pool.register("alpha");
    assert!(!pool.is_initialized("alpha"));

    let val = pool.get_or_init("alpha", || "ready".to_string());
    assert_eq!(val, "ready");
    assert!(pool.is_initialized("alpha"));
}

#[test]
fn test_pool_auto_register() {
    let mut pool = LazyResourcePool::<i32>::new();
    let val = pool.get_or_init("auto", || 99);
    assert_eq!(*val, 99);
    assert!(pool.is_initialized("auto"));
}

#[test]
fn test_pool_reset() {
    let mut pool = LazyResourcePool::<String>::new();
    pool.get_or_init("x", || "first".to_string());
    assert!(pool.reset("x"));
    assert!(!pool.is_initialized("x"));

    // Re-init after reset should use the new closure.
    let val = pool.get_or_init("x", || "second".to_string());
    assert_eq!(val, "second");
}

#[test]
fn test_pool_reset_nonexistent() {
    let mut pool = LazyResourcePool::<u8>::new();
    assert!(!pool.reset("nope"));
}

#[test]
fn test_pool_len_and_empty() {
    let mut pool = LazyResourcePool::<u8>::new();
    assert!(pool.is_empty());
    assert_eq!(pool.len(), 0);

    pool.register("a");
    pool.register("b");
    assert_eq!(pool.len(), 2);
    assert!(!pool.is_empty());
}

#[test]
fn test_pool_default() {
    let pool = LazyResourcePool::<u8>::default();
    assert!(pool.is_empty());
}

#[test]
fn test_pool_multiple_resources_independent() {
    let mut pool = LazyResourcePool::<String>::new();
    pool.get_or_init("net", || "net-up".to_string());
    pool.get_or_init("fs", || "fs-up".to_string());

    assert!(pool.is_initialized("net"));
    assert!(pool.is_initialized("fs"));
    assert!(!pool.is_initialized("cgroup"));
}

#[test]
fn registering_twice_keeps_the_resource() {
    let mut pool = LazyResourcePool::<u32>::new();
    let mut runs = 0;
    pool.register("r");
    assert_eq!(*pool.get_or_init("r", || { runs += 1; 5 }), 5);
    pool.register("r");
    assert!(pool.is_initialized("r"));
    assert_eq!(*pool.get_or_init("r", || { runs += 1; 6 }), 5);
    assert_eq!(runs, 1);
    assert_eq!(pool.len(), 1);
    let mut res = LazyResource::<u32>::new("single");
    assert_eq!(res.get(), None);
    res.get_or_init(|| 3);
    assert_eq!(res.get(), Some(&3));
}

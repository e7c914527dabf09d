use enviro_core::engine::namespace_cache::{CacheStats, NamespaceCache, NamespaceTemplate};

#[test]
fn test_template_new() {
    let tpl = NamespaceTemplate::new("test");
    assert_eq!(tpl.name, "test");
    assert_eq!(tpl.uid_range, 65536);
    assert!(tpl.isolate_network);
    assert!(tpl.isolate_mount);
    assert!(tpl.isolate_pid);
}

#[test]
fn test_cache_miss_then_hit() {
    let mut cache = NamespaceCache::new();

    // First call — miss
    let tpl = cache.get_or_create("default", || NamespaceTemplate::new("default"));
    assert_eq!(tpl.name, "default");
    assert_eq!(cache.cache_stats().misses, 1);
    assert_eq!(cache.cache_stats().hits, 0);

    // Second call — hit
    let tpl2 = cache.get_or_create("default", || panic!("should not be called"));
    assert_eq!(tpl2.name, "default");
    assert_eq!(cache.cache_stats().misses, 1);
    assert_eq!(cache.cache_stats().hits, 1);
}

#[test]
fn test_cache_invalidate() {
    let mut cache = NamespaceCache::new();

    cache.get_or_create("net-only", || {
        let mut tpl = NamespaceTemplate::new("net-only");
        tpl.isolate_mount = false;
        tpl.isolate_pid = false;
        tpl
    });

    assert!(cache.invalidate("net-only"));
    assert!(!cache.invalidate("net-only")); // already removed

    assert_eq!(cache.cache_stats().cached_count, 0);
}

#[test]
fn test_cache_invalidate_nonexistent() {
    let mut cache = NamespaceCache::new();
    assert!(!cache.invalidate("does-not-exist"));
}

#[test]
fn test_cache_stats() {
    let mut cache = NamespaceCache::new();

    cache.get_or_create("a", || NamespaceTemplate::new("a"));
    cache.get_or_create("b", || NamespaceTemplate::new("b"));
    cache.get_or_create("a", || panic!("should reuse"));

    let stats = cache.cache_stats();
    assert_eq!(stats.hits, 1);
    assert_eq!(stats.misses, 2);
    assert_eq!(stats.cached_count, 2);
}

#[test]
fn test_cache_recreate_after_invalidate() {
    let mut cache = NamespaceCache::new();

    cache.get_or_create("x", || {
        let mut tpl = NamespaceTemplate::new("x");
        tpl.host_uid = 1000;
        tpl
    });

    cache.invalidate("x");

    let tpl = cache.get_or_create("x", || {
        let mut tpl = NamespaceTemplate::new("x");
        tpl.host_uid = 2000;
        tpl
    });

    assert_eq!(tpl.host_uid, 2000);
    // miss count should be 2 (first + after invalidate)
    assert_eq!(cache.cache_stats().misses, 2);
}

#[test]
fn test_default_impl() {
    let cache = NamespaceCache::default();
    assert_eq!(cache.cache_stats().cached_count, 0);
}

#[test]
fn template_defaults_and_validity() {
    let tpl = NamespaceTemplate::new("t");
    assert_eq!(tpl.host_uid, 1000);
    assert_eq!(tpl.host_gid, 1000);
    assert_eq!(tpl.gid_range, 65536);
    assert!(tpl.is_valid());
    let mut no_uids = tpl.clone();
    no_uids.uid_range = 0;
    assert!(!no_uids.is_valid());
    let mut no_gids = tpl.clone();
    no_gids.gid_range = 0;
    assert!(!no_gids.is_valid());
    let mut one = tpl.clone();
    one.uid_range = 1;
    one.gid_range = 1;
    assert!(one.is_valid());
    assert_eq!(tpl.clone(), tpl);
}

#[test]
fn builder_runs_once_until_invalidated() {
    let mut cache = NamespaceCache::new();
    let mut builds = 0;
    for _ in 0..5 {
        let tpl = cache.get_or_create("same", || {
            builds += 1;
            let mut tpl = NamespaceTemplate::new("same");
            tpl.host_uid = 4242;
            tpl
        });
        assert_eq!(tpl.host_uid, 4242);
    }
    assert_eq!(builds, 1);
    assert_eq!(cache.cache_stats(), CacheStats { hits: 4, misses: 1, cached_count: 1 });
    assert!(cache.invalidate("same"));
    cache.get_or_create("same", || {
        builds += 1;
        NamespaceTemplate::new("same")
    });
    assert_eq!(builds, 2);
    assert_eq!(cache.cache_stats(), CacheStats { hits: 4, misses: 2, cached_count: 1 });
}

#[test]
fn hits_plus_misses_is_the_number_of_lookups() {
    let mut cache = NamespaceCache::new();
    let names = ["a", "b", "a", "c", "b", "a", "d", "a"];
    for (i, name) in names.iter().enumerate() {
        if i == 4 {
            cache.invalidate("a");
        }
        cache.get_or_create(name, || NamespaceTemplate::new(name));
        let stats = cache.cache_stats();
        assert_eq!(stats.hits + stats.misses, i + 1);
    }
    let stats = cache.cache_stats();
    assert_eq!(stats.cached_count, 4);
    assert_eq!(stats.misses, 5);
    assert_eq!(stats.hits, 3);
}

#[test]
fn a_copy_handed_out_does_not_change_the_cache() {
    let mut cache = NamespaceCache::new();
    let mut tpl = cache.get_or_create("p", || NamespaceTemplate::new("p"));
    tpl.host_uid = 1;
    tpl.name.push_str("-changed");
    let again = cache.get_or_create("p", || panic!("cached"));
    assert_eq!(again, NamespaceTemplate::new("p"));
}

#[test]
fn custom_templates_need_ranges_above_zero() {
    assert_eq!(NamespaceTemplate::custom("c", 1, 2, 0, 5, true, false, true), None);
    assert_eq!(NamespaceTemplate::custom("c", 1, 2, 5, 0, true, false, true), None);
    assert_eq!(NamespaceTemplate::custom("c", 1, 2, 0, 0, true, false, true), None);
    let smallest = NamespaceTemplate::custom("c", 1, 2, 1, 1, true, false, true).unwrap();
    assert!(smallest.is_valid());
    assert_eq!(
        smallest,
        NamespaceTemplate {
            name: "c".to_string(),
            host_uid: 1,
            host_gid: 2,
            uid_range: 1,
            gid_range: 1,
            isolate_network: true,
            isolate_mount: false,
            isolate_pid: true,
        }
    );
    let largest = NamespaceTemplate::custom("c", 0, 0, u32::MAX, u32::MAX, false, false, false).unwrap();
    assert!(largest.is_valid());
    assert_eq!(largest.uid_range, u32::MAX);
}

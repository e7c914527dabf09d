use enviro_core::text::{push_decimal, str_eq};

#[test]
fn decimal_numerals() {
    for (n, expected) in [
        (0u64, "0"),
        (7, "7"),
        (9, "9"),
        (10, "10"),
        (99, "99"),
        (100, "100"),
        (1000, "1000"),
        (65536, "65536"),
        (4294967295, "4294967295"),
        (4294967296, "4294967296"),
        (18446744073709551615, "18446744073709551615"),
    ] {
        let mut out = String::from("n=");
        push_decimal(&mut out, n);
        assert_eq!(out, format!("n={}", expected));
        assert_eq!(out, format!("n={}", n));
    }
}

#[test]
fn comparing_string_slices() {
    assert!(str_eq("", ""));
    assert!(str_eq("memory.max", "memory.max"));
    assert!(!str_eq("memory.max", "memory.maX"));
    assert!(!str_eq("memory.max", "memory.ma"));
    assert!(!str_eq("a", ""));
    assert!(str_eq("naïve — ✓", "naïve — ✓"));
    assert!(!str_eq("naïve", "naive"));
}

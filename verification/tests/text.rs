use qvirt::text::{
    bool_str, chars_of, concat3, decimal_string, find_between, join, parse_u32, starts_with,
    str_eq, string_of,
};

#[test]
fn equal_strings_are_equal() {
    assert!(str_eq("", ""));
    assert!(str_eq("vm\u{e9}", "vm\u{e9}"));
    assert!(!str_eq("vm", "vm1"));
    assert!(!str_eq("vm1", "vm2"));
}

#[test]
fn characters_are_taken_apart_and_put_together() {
    let chars = chars_of("a\u{e9}=b");
    assert_eq!(chars, vec!['a', '\u{e9}', '=', 'b']);
    assert_eq!(string_of(&chars, 1, 3), "\u{e9}=");
    assert_eq!(string_of(&chars, 2, 2), "");
    assert_eq!(find_between(&chars, 0, 4, '='), 2);
    assert_eq!(find_between(&chars, 0, 2, '='), 2);
    assert_eq!(find_between(&chars, 3, 4, '='), 4);
}

#[test]
fn prefixes() {
    assert!(starts_with("vsoc_x86_64", "vsoc_"));
    assert!(starts_with("vsoc_", "vsoc_"));
    assert!(starts_with("x", ""));
    assert!(!starts_with("vsoc", "vsoc_"));
    assert!(!starts_with("qemu_trusty", "vsoc_"));
}

#[test]
fn decimal_notation() {
    assert_eq!(decimal_string(0), "0");
    assert_eq!(decimal_string(10), "10");
    assert_eq!(decimal_string(4294967295), "4294967295");
    assert_eq!(decimal_string(u64::MAX), "18446744073709551615");
    assert_eq!(bool_str(true), "true");
    assert_eq!(bool_str(false), "false");
}

#[test]
fn numbers_are_read_as_the_standard_library_reads_them() {
    for s in [
        "0", "7", "007", "+7", "++7", "+", "", "-1", " 7", "7 ", "4294967295", "4294967296",
        "99999999999999999999", "0x10", "1e3", "\u{661}", "12a",
    ] {
        assert_eq!(parse_u32(s), s.parse::<u32>().ok(), "{}", s);
    }
}

#[test]
fn written_numbers_are_read_back() {
    for n in [0u32, 1, 9, 10, 99, 100, 65535, u32::MAX] {
        assert_eq!(parse_u32(&decimal_string(n as u64)), Some(n));
    }
}

#[test]
fn paths_are_joined_as_the_standard_library_joins_them() {
    for base in ["", "/", "/data", "/data/", "app"] {
        for rel in ["", "x", "x/y", "/x", "**"] {
            let expected = std::path::Path::new(base).join(rel);
            assert_eq!(join(base, rel), expected.to_str().unwrap(), "{} {}", base, rel);
        }
    }
}

#[test]
fn three_strings_in_a_row() {
    assert_eq!(concat3("a", "", "bc"), "abc");
}

use prompt_manager::text::{encode_utf16, normalize, to_decimal, to_hex, trim};

#[test]
fn trim_removes_white_space_at_both_ends_only() {
    assert_eq!(trim("  a b \t\n"), "a b");
    assert_eq!(trim("ab"), "ab");
    assert_eq!(trim(""), "");
    assert_eq!(trim(" \t\r\n"), "");
    assert_eq!(trim("x "), "x");
    assert_eq!(trim(" x"), "x");
}

#[test]
fn trim_knows_unicode_white_space() {
    assert_eq!(trim("\u{3000}提示\u{2003}"), "提示");
    assert_eq!(trim("\u{a0}a\u{a0}"), "a");
    // A zero-width space is no white space.
    assert_eq!(trim("\u{200b}a"), "\u{200b}a");
}

#[test]
fn trim_agrees_with_std_on_samples() {
    for s in ["", " ", "a", "  lead", "trail  ", " \u{85}both\u{1680} ", "in ner", "\n\n"] {
        assert_eq!(trim(s), s.trim());
    }
}

#[test]
fn normalize_trims_then_lower_cases() {
    assert_eq!(normalize("  GitHub "), "github");
    assert_eq!(normalize("ÄÖ"), "äö");
    assert_eq!(normalize("already"), "already");
    assert_eq!(normalize("   "), "");
}

#[test]
fn normalize_follows_std_on_final_sigma() {
    assert_eq!(normalize("ΟΔΟΣ"), "ΟΔΟΣ".to_lowercase());
}

#[test]
fn hex_of_small_and_large_numbers() {
    assert_eq!(to_hex(0), "0");
    assert_eq!(to_hex(9), "9");
    assert_eq!(to_hex(10), "a");
    assert_eq!(to_hex(15), "f");
    assert_eq!(to_hex(16), "10");
    assert_eq!(to_hex(255), "ff");
    assert_eq!(to_hex(0xdead_beef), "deadbeef");
    assert_eq!(to_hex(u64::MAX), "ffffffffffffffff");
}

#[test]
fn hex_agrees_with_std_formatting() {
    for n in [1u64, 17, 4096, 65535, 1 << 40, 0x0123_4567_89ab_cdef, u64::MAX - 1] {
        assert_eq!(to_hex(n), format!("{:x}", n));
    }
}

#[test]
fn decimal_of_small_and_large_numbers() {
    assert_eq!(to_decimal(0), "0");
    assert_eq!(to_decimal(7), "7");
    assert_eq!(to_decimal(10), "10");
    assert_eq!(to_decimal(1234567890), "1234567890");
    assert_eq!(to_decimal(u64::MAX), "18446744073709551615");
}

#[test]
fn utf16_of_basic_plane_is_one_unit_each() {
    assert_eq!(encode_utf16("abc"), vec![0x61, 0x62, 0x63]);
    assert_eq!(encode_utf16("提示"), vec![0x63d0, 0x793a]);
    assert_eq!(encode_utf16(""), Vec::<u16>::new());
    assert_eq!(encode_utf16("\u{ffff}"), vec![0xffff]);
}

#[test]
fn utf16_of_supplementary_plane_is_a_surrogate_pair() {
    assert_eq!(encode_utf16("\u{10000}"), vec![0xd800, 0xdc00]);
    assert_eq!(encode_utf16("😀"), vec![0xd83d, 0xde00]);
    assert_eq!(encode_utf16("\u{10ffff}"), vec![0xdbff, 0xdfff]);
}

#[test]
fn utf16_agrees_with_std_encoding() {
    for s in ["hello", "a😀b", "\u{e000}\u{d7ff}", "混合 text 🎉🎉", "\u{1f468}\u{200d}\u{1f469}"] {
        let expected: Vec<u16> = s.encode_utf16().collect();
        assert_eq!(encode_utf16(s), expected);
    }
}

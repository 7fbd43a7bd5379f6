//! Text, one scalar at a time.

use oxutrm::text::{
    align_left, align_right, contains, len_of, number, parse_index, same, scalars, starts_with,
    text_of, trim,
};

#[test]
fn scalars_go_in_and_come_out() {
    let v = scalars("aé你🦀");
    assert_eq!(v, ['a', 'é', '你', '🦀']);
    assert_eq!(text_of(&v, 1, 3), "é你");
    assert_eq!(text_of(&v, 2, 2), "");
}

#[test]
fn a_scalar_is_as_long_as_std_says() {
    for c in ['\0', '\u{7f}', '\u{80}', '\u{7ff}', '\u{800}', '\u{ffff}', '\u{10000}'] {
        assert_eq!(len_of(c), c.len_utf8());
    }
}

#[test]
fn searching_agrees_with_std() {
    for hay in ["", "a", "xterm-256color", "256", "25", "aab", "unknown option"] {
        for needle in ["", "256", "ab", "a", "option "] {
            assert_eq!(contains(hay, needle), hay.contains(needle), "{hay:?} {needle:?}");
            assert_eq!(starts_with(hay, needle), hay.starts_with(needle), "{hay:?} {needle:?}");
        }
        assert!(same(hay, hay));
    }
    assert!(!same("a", "b"));
    assert!(!same("a", "aa"));
}

#[test]
fn trimming_agrees_with_std() {
    for s in ["", " ", "a", "  a b\t\n", "\u{3000}x\u{a0}", "\u{200b}x"] {
        assert_eq!(trim(s), s.trim());
    }
}

#[test]
fn numbers_are_written_and_read() {
    for n in [0, 9, 10, 1_000, 16_777_216, u64::MAX] {
        assert_eq!(number(n), n.to_string());
    }
    for s in ["", "0", "007", "+7", "-7", "7 ", "++7", "+", "18446744073709551615",
        "18446744073709551616"]
    {
        assert_eq!(parse_index(s), s.parse::<usize>().ok(), "{s:?}");
    }
}

#[test]
fn padding_goes_on_the_named_side() {
    assert_eq!(align_right("7", 3), "  7");
    assert_eq!(align_left("7", 3), "7  ");
    assert_eq!(align_right("1234", 3), "1234");
    assert_eq!(align_left("1234", 3), "1234");
}

#[test]
fn whitespace_is_what_has_the_property_and_nothing_else() {
    let mut white = 0;
    for v in 0..=0x10ffff_u32 {
        let Some(c) = char::from_u32(v) else { continue };
        let listed = matches!(
            v,
            0x9..=0xd
                | 0x20
                | 0x85
                | 0xa0
                | 0x1680
                | 0x2000..=0x200a
                | 0x2028
                | 0x2029
                | 0x202f
                | 0x205f
                | 0x3000
        );
        assert_eq!(c.is_whitespace(), listed, "{v:x}");
        if listed {
            white += 1;
            assert_eq!(trim(&format!("{c}x{c}")), "x");
        }
    }
    assert_eq!(white, 25);
}

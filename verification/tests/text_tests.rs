use lightwhisper::text::{concat_pieces, join2, join3, str_eq, trim, white_space};

#[test]
fn trim_removes_white_space_at_both_ends() {
    assert_eq!(trim("  hello world \n"), "hello world");
    assert_eq!(trim("hello"), "hello");
    assert_eq!(trim("\t\r\n x \u{3000}"), "x");
    assert_eq!(trim("a  b"), "a  b");
}

#[test]
fn trim_of_white_space_only_is_empty() {
    assert_eq!(trim(""), "");
    assert_eq!(trim("   "), "");
    assert_eq!(trim("\u{a0}\u{2003}\n"), "");
}

#[test]
fn trim_agrees_with_the_standard_library() {
    for s in [" \u{85}caf\u{e9} \u{1680}", "\u{2028}\u{2029}x\u{202f}\u{205f}", "\u{200b}x ", "\u{feff} y"] {
        assert_eq!(trim(s), s.trim());
    }
}

#[test]
fn white_space_is_the_unicode_property() {
    for code in 0u32..0x3100 {
        if let Some(c) = char::from_u32(code) {
            assert_eq!(white_space(c), c.is_whitespace());
        }
    }
}

#[test]
fn concat_pieces_skips_unreadable_ones() {
    let pieces = vec![Some(" hello".to_string()), None, Some(" world".to_string())];
    assert_eq!(concat_pieces(&pieces), " hello world");
    assert_eq!(concat_pieces(&vec![]), "");
    assert_eq!(concat_pieces(&vec![None, None]), "");
}

#[test]
fn joins_and_comparisons() {
    assert_eq!(join2("ab", "cd"), "abcd");
    assert_eq!(join3("a", "", "c"), "ac");
    assert!(str_eq("auto", "auto"));
    assert!(!str_eq("auto", "Auto"));
    assert!(!str_eq("auto", "aut"));
}

use ghostgit::text::{blank, decimal_text, join_text, white_space};

#[test]
fn white_space_agrees_with_std() {
    for u in 0u32..=0x3100 {
        if let Some(c) = char::from_u32(u) {
            assert_eq!(white_space(c), c.is_whitespace(), "code point {u:#x}");
        }
    }
    assert!(!white_space('\u{feff}'));
    assert!(!white_space('a'));
}

#[test]
fn blank_is_trim_empty() {
    for s in ["", " ", "   ", "\t\n", "\u{3000}", " a ", "x", "\u{a0}\u{2028}", "Initial commit"] {
        assert_eq!(blank(s), s.trim().is_empty(), "{s:?}");
    }
}

#[test]
fn decimal_matches_to_string() {
    for n in [0u64, 7, 9, 10, 42, 100, 12345, u64::MAX] {
        assert_eq!(decimal_text(n), n.to_string());
    }
}

#[test]
fn join_matches_std_join() {
    let parts: Vec<String> = vec!["a.txt".into(), "b.txt".into(), "c".into()];
    assert_eq!(join_text(&parts, ", "), parts.join(", "));
    assert_eq!(join_text(&vec![], ", "), "");
    assert_eq!(join_text(&vec!["only".to_string()], ", "), "only");
}

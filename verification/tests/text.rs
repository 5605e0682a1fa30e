use flashr_tui::text::{from_chars, joined, str_eq, to_chars, trim, trim_span};

#[test]
fn to_chars_and_back() {
    let chars = to_chars("héllo");
    assert_eq!(chars, vec!['h', 'é', 'l', 'l', 'o']);
    assert_eq!(from_chars(&chars, 0, 5), "héllo");
    assert_eq!(from_chars(&chars, 1, 3), "él");
    assert_eq!(from_chars(&chars, 2, 2), "");
}

#[test]
fn concat_joins_in_order() {
    assert_eq!(joined("/dev/", "sdb"), "/dev/sdb");
    assert_eq!(joined("", ""), "");
}

#[test]
fn trim_removes_whitespace_at_both_ends_only() {
    assert_eq!(trim("  a b \n"), "a b");
    assert_eq!(trim("\t\r\n"), "");
    assert_eq!(trim(""), "");
    assert_eq!(trim("x"), "x");
}

#[test]
fn trim_knows_unicode_whitespace() {
    assert_eq!(trim("\u{2003}x\u{00A0}y\u{3000}"), "x\u{00A0}y");
    assert_eq!(trim("\u{200B}x"), "\u{200B}x");
}

#[test]
fn trim_span_lies_between_the_runs_of_set_flags() {
    assert_eq!(trim_span(&vec![true, true, false, false, true, false, true]), (2, 6));
    assert_eq!(trim_span(&vec![false, true, false]), (0, 3));
    assert_eq!(trim_span(&vec![false]), (0, 1));
    assert_eq!(trim_span(&vec![true, false]), (1, 2));
    assert_eq!(trim_span(&vec![false, true]), (0, 1));
}

#[test]
fn trim_span_of_set_flags_only_is_empty() {
    assert_eq!(trim_span(&vec![true, true, true]), (3, 3));
    assert_eq!(trim_span(&vec![true]), (1, 1));
    assert_eq!(trim_span(&Vec::new()), (0, 0));
}

#[test]
fn str_eq_compares_characters() {
    assert!(str_eq("", ""));
    assert!(str_eq("disk", "disk"));
    assert!(str_eq("日本語", "日本語"));
    assert!(!str_eq("disk", "disc"));
    assert!(!str_eq("disk", "disks"));
    assert!(!str_eq("disk", "Disk"));
    assert!(!str_eq("é", "e\u{301}"));
    assert!(!str_eq("", " "));
}

#[test]
fn trim_agrees_with_std_on_samples() {
    for sample in ["", " ", "a", " a", "a ", "  a  b  ", "\n\n1 2\r", "\u{1680}z\u{2028}"] {
        assert_eq!(trim(sample), sample.trim(), "sample {sample:?}");
    }
}

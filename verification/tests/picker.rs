use flashr_tui::picker::{comes_before, is_lex_less};
use flashr_tui::{load_entries, FileEntry};

fn entry(name: &str, is_dir: bool) -> FileEntry {
    FileEntry { name: name.to_string(), path: format!("/here/{name}"), is_dir }
}

fn names(entries: &[FileEntry]) -> Vec<String> {
    entries.iter().map(|e| e.name.clone()).collect()
}

fn chars(s: &str) -> Vec<char> {
    s.chars().collect()
}

#[test]
fn load_entries_orders_parent_directories_files() {
    let found = vec![
        entry("b.txt", false),
        entry("A.txt", false),
        entry(".hidden", false),
        entry("dirZ", true),
        entry(".config", true),
        entry("dira", true),
        entry("a.iso", false),
    ];
    let shown = load_entries(Some("/".to_string()), &found);
    assert_eq!(names(&shown), vec!["..", "dira", "dirZ", "a.iso", "A.txt", "b.txt"]);
    assert_eq!(shown[0].path, "/");
    assert!(shown[0].is_dir);
    assert_eq!(shown[1].path, "/here/dira");
    assert!(shown[1].is_dir);
    assert!(!shown[3].is_dir);
}

#[test]
fn load_entries_without_parent_has_no_dotdot() {
    let found = vec![entry("x", false), entry("d", true)];
    let shown = load_entries(None, &found);
    assert_eq!(names(&shown), vec!["d", "x"]);
}

#[test]
fn load_entries_of_unreadable_directory_is_just_the_parent() {
    let shown = load_entries(Some("/home".to_string()), &Vec::new());
    assert_eq!(names(&shown), vec![".."]);
    assert!(load_entries(None, &Vec::new()).is_empty());
}

#[test]
fn load_entries_keeps_the_order_of_names_that_differ_in_case_only() {
    let mut first = entry("README", false);
    first.path = "/one".to_string();
    let mut second = entry("readme", false);
    second.path = "/two".to_string();
    let mut third = entry("ReadMe", false);
    third.path = "/three".to_string();
    let shown = load_entries(None, &vec![first, second, third]);
    let paths: Vec<String> = shown.iter().map(|e| e.path.clone()).collect();
    assert_eq!(paths, vec!["/one", "/two", "/three"]);
}

#[test]
fn load_entries_agrees_with_a_stable_sort() {
    let found = vec![
        entry("zeta", false),
        entry("Alpha", true),
        entry("beta", false),
        entry("alpha", false),
        entry("Beta", true),
        entry("ÉCOLE", false),
        entry("école2", false),
        entry("10", false),
        entry("9", false),
    ];
    let mut expected: Vec<FileEntry> = found.clone();
    expected.sort_by(|a, b| match (a.is_dir, b.is_dir) {
        (true, false) => std::cmp::Ordering::Less,
        (false, true) => std::cmp::Ordering::Greater,
        _ => a.name.to_lowercase().cmp(&b.name.to_lowercase()),
    });
    let shown = load_entries(None, &found);
    assert_eq!(names(&shown), names(&expected));
}

#[test]
fn lex_less_is_the_order_of_strings() {
    assert!(is_lex_less(&chars("a"), &chars("b")));
    assert!(is_lex_less(&chars(""), &chars("a")));
    assert!(is_lex_less(&chars("ab"), &chars("abc")));
    assert!(is_lex_less(&chars("Z"), &chars("a")));
    assert!(is_lex_less(&chars("z"), &chars("é")));
    assert!(!is_lex_less(&chars("a"), &chars("a")));
    assert!(!is_lex_less(&chars(""), &chars("")));
    assert!(!is_lex_less(&chars("b"), &chars("a")));
    assert!(!is_lex_less(&chars("abc"), &chars("ab")));
    for (a, b) in [("10", "9"), ("é", "z"), ("x", "xy"), ("日本", "日本語"), ("\u{10000}", "\u{FFFF}")] {
        assert_eq!(is_lex_less(&chars(a), &chars(b)), a < b, "{a:?} {b:?}");
    }
}

#[test]
fn comes_before_sets_case_aside() {
    assert!(comes_before(&entry("apple", false), &entry("Banana", false)));
    assert!(!comes_before(&entry("Banana", false), &entry("apple", false)));
    assert!(comes_before(&entry("zz", true), &entry("aa", false)));
    assert!(comes_before(&entry("..", true), &entry("aa", true)));
    assert!(!comes_before(&entry("Same", false), &entry("same", false)));
    assert!(!comes_before(&entry("same", false), &entry("Same", false)));
}

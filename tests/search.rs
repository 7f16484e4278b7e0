use findr::{
    classify, name_matches, parse_type, search, search_root, type_matches, Args, Entry, EntryType,
    NamePattern, WalkItem,
};

fn found(path: &str, name: &str, kind: EntryType) -> WalkItem {
    WalkItem::Found(Entry { path: path.to_string(), name: name.to_string(), kind })
}

/// root/{a.txt, b.csv, sub/c.txt}, as a depth-first walk yields it.
fn tree() -> Vec<WalkItem> {
    vec![
        found("root", "root", EntryType::Dir),
        found("root/a.txt", "a.txt", EntryType::File),
        found("root/b.csv", "b.csv", EntryType::File),
        found("root/sub", "sub", EntryType::Dir),
        found("root/sub/c.txt", "c.txt", EntryType::File),
    ]
}

fn patterns(ps: &[&str]) -> Vec<NamePattern> {
    ps.iter().map(|p| NamePattern::new(p).unwrap()).collect()
}

fn request(names: &[&str], types: Vec<EntryType>) -> Args {
    Args::new(vec!["root".to_string()], patterns(names), types)
}

#[test]
fn empty_type_filter_admits_every_kind() {
    for t in [EntryType::File, EntryType::Dir, EntryType::Link] {
        assert!(type_matches(t, &vec![]));
    }
}

#[test]
fn type_filter_admits_only_listed_kinds() {
    let ts = vec![EntryType::File, EntryType::Link];
    assert!(type_matches(EntryType::File, &ts));
    assert!(type_matches(EntryType::Link, &ts));
    assert!(!type_matches(EntryType::Dir, &ts));
}

#[test]
fn empty_pattern_set_admits_every_name() {
    assert!(name_matches("anything", &vec![]));
    assert!(name_matches("", &vec![]));
}

#[test]
fn pattern_set_admits_when_one_pattern_matches() {
    let ps = patterns(&["^x", "txt"]);
    assert!(name_matches("notes.txt", &ps));
    assert!(name_matches("xyz", &ps));
    assert!(!name_matches("notes.csv", &ps));
}

#[test]
fn pattern_search_is_unanchored() {
    let p = NamePattern::new("b").unwrap();
    assert!(p.is_match("abc"));
    assert!(!p.is_match("xyz"));
    assert_eq!(p.as_str(), "b");
}

#[test]
fn invalid_pattern_is_refused() {
    let e = NamePattern::new("foo(bar").unwrap_err();
    assert_eq!(e.pattern, "foo(bar");
    assert!(!e.message.is_empty());
}

#[test]
fn search_is_repeatable() {
    let args = request(&[".txt$"], vec![]);
    let a = search(&args, &vec![tree()]);
    let b = search(&args, &vec![tree()]);
    assert_eq!(a.output, b.output);
    assert_eq!(a.diagnostics, b.diagnostics);
}

#[test]
fn symlink_to_directory_is_a_link() {
    assert_eq!(classify(true, true, false), Some(EntryType::Link));
    assert_eq!(classify(true, false, true), Some(EntryType::Link));
    assert_eq!(classify(false, true, false), Some(EntryType::Dir));
    assert_eq!(classify(false, false, true), Some(EntryType::File));
    assert_eq!(classify(false, false, false), None);
}

#[test]
fn name_filter_on_tree() {
    let r = search_root(&request(&[".txt$"], vec![]), &tree());
    assert_eq!(r.output, "root/a.txt\nroot/sub/c.txt\n");
    assert!(r.diagnostics.is_empty());
}

#[test]
fn type_filter_on_tree() {
    let r = search_root(&request(&[], vec![EntryType::Dir]), &tree());
    assert_eq!(r.output, "root\nroot/sub\n");
}

#[test]
fn type_and_name_filters_on_tree() {
    let r = search_root(&request(&["^a"], vec![EntryType::File]), &tree());
    assert_eq!(r.output, "root/a.txt\n");
}

#[test]
fn no_filters_keep_every_entry() {
    let r = search_root(&request(&[], vec![]), &tree());
    assert_eq!(r.output, "root\nroot/a.txt\nroot/b.csv\nroot/sub\nroot/sub/c.txt\n");
}

#[test]
fn unreadable_subdirectory_gives_one_diagnostic() {
    let items = vec![
        found("root", "root", EntryType::Dir),
        found("root/a.txt", "a.txt", EntryType::File),
        WalkItem::Failed("IO error for operation on root/locked: Permission denied".to_string()),
        found("root/b.csv", "b.csv", EntryType::File),
    ];
    let r = search_root(&request(&[], vec![]), &items);
    assert_eq!(r.diagnostics.len(), 1);
    assert!(r.diagnostics[0].contains("root/locked"));
    assert_eq!(r.output, "root\nroot/a.txt\nroot/b.csv\n");
}

#[test]
fn roots_are_answered_in_order() {
    let second = vec![
        found("other", "other", EntryType::Dir),
        found("other/z.txt", "z.txt", EntryType::File),
        WalkItem::Failed("missing".to_string()),
    ];
    let args = Args::new(
        vec!["root".to_string(), "other".to_string()],
        patterns(&["txt"]),
        vec![],
    );
    let r = search(&args, &vec![tree(), second]);
    assert_eq!(r.output, "root/a.txt\nroot/sub/c.txt\nother/z.txt\n");
    assert_eq!(r.diagnostics, vec!["missing".to_string()]);
}

#[test]
fn search_of_no_walk_is_empty() {
    let r = search(&request(&[], vec![]), &vec![]);
    assert_eq!(r.output, "");
    assert!(r.diagnostics.is_empty());
}

#[test]
fn type_tokens() {
    assert_eq!(parse_type("f"), Some(EntryType::File));
    assert_eq!(parse_type("d"), Some(EntryType::Dir));
    assert_eq!(parse_type("l"), Some(EntryType::Link));
    assert_eq!(parse_type("x"), None);
    assert_eq!(parse_type("ff"), None);
    assert_eq!(parse_type(""), None);
}

#[test]
fn default_root_is_current_directory() {
    let a = Args::new(vec![], vec![], vec![]);
    assert_eq!(a.paths(), &vec![".".to_string()]);
    let b = Args::new(vec!["x".to_string(), "y".to_string()], patterns(&["a"]), vec![EntryType::Dir]);
    assert_eq!(b.paths(), &vec!["x".to_string(), "y".to_string()]);
    assert_eq!(b.names().len(), 1);
    assert_eq!(b.types(), &vec![EntryType::Dir]);
}

#[test]
fn accepts_needs_both_filters() {
    let args = request(&["^a"], vec![EntryType::Dir]);
    let e = Entry { path: "root/a.txt".to_string(), name: "a.txt".to_string(), kind: EntryType::File };
    assert!(!args.accepts(&e));
    let d = Entry { path: "root/adir".to_string(), name: "adir".to_string(), kind: EntryType::Dir };
    assert!(args.accepts(&d));
}

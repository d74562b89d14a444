use klocc::{data_from_analysis, head_hash, relative_path, sort_languages, Data, FileInfo, Info, LanguageInfo};

fn s(text: &str) -> String {
    text.to_string()
}

fn lang(name: &str, code: u32, comments: u32, blanks: u32, files: &[&str]) -> LanguageInfo {
    let mut l = LanguageInfo::new(s(name), Info::new(code, comments, blanks));
    for f in files {
        l.files.push(FileInfo::new(s(f), 1, 1, 1));
    }
    l
}

#[test]
fn head_hash_takes_first_field() {
    assert_eq!(head_hash(&s("3f2a9c\tHEAD\n")), "3f2a9c");
}

#[test]
fn head_hash_without_tab_is_whole_output() {
    assert_eq!(head_hash(&s("abcdef")), "abcdef");
    assert_eq!(head_hash(&s("")), "");
}

#[test]
fn head_hash_stops_at_first_tab() {
    assert_eq!(head_hash(&s("\tHEAD")), "");
    assert_eq!(head_hash(&s("a\tb\tc")), "a");
}

#[test]
fn path_is_relative_to_clone() {
    let root = s("/tmp/cloned_repositories.Xy12/demo");
    assert_eq!(relative_path(&root, &s("/tmp/cloned_repositories.Xy12/demo/src/main.x")), Some(s("src/main.x")));
}

#[test]
fn path_independent_of_temporary_root() {
    let root = s("/var/demo/work/demo");
    assert_eq!(relative_path(&root, &s("/var/demo/work/demo/src/main.x")), Some(s("src/main.x")));
}

#[test]
fn path_outside_clone_is_refused() {
    let root = s("/tmp/a/demo");
    assert_eq!(relative_path(&root, &s("/tmp/a/other/x.rs")), None);
    assert_eq!(relative_path(&root, &s("/tmp/a/demo")), None);
    assert_eq!(relative_path(&root, &s("/tmp/a/demox/y.rs")), None);
    assert_eq!(relative_path(&root, &s("/tmp")), None);
}

#[test]
fn languages_ordered_largest_first() {
    let sorted = sort_languages(vec![
        lang("C", 10, 0, 0, &[]),
        lang("Rust", 50, 5, 5, &[]),
        lang("TOML", 1, 0, 0, &[]),
        lang("Python", 30, 20, 10, &[]),
    ]);
    let names: Vec<&str> = sorted.iter().map(|l| l.name.as_str()).collect();
    assert_eq!(names, vec!["Rust", "Python", "C", "TOML"]);
}

#[test]
fn equal_languages_keep_their_order() {
    let sorted = sort_languages(vec![
        lang("A", 5, 0, 0, &[]),
        lang("B", 0, 5, 0, &[]),
        lang("C", 9, 0, 0, &[]),
        lang("D", 0, 0, 5, &[]),
    ]);
    let names: Vec<&str> = sorted.iter().map(|l| l.name.as_str()).collect();
    assert_eq!(names, vec!["C", "A", "B", "D"]);
}

#[test]
fn sort_of_nothing_is_nothing() {
    assert!(sort_languages(Vec::new()).is_empty());
}

#[test]
fn record_assembled_from_analysis() {
    let root = s("/tmp/t1/demo");
    let langs = vec![
        lang("Markdown", 0, 4, 1, &["/tmp/t1/demo/README.md"]),
        lang("Rust", 40, 3, 2, &["/tmp/t1/demo/src/main.rs", "/tmp/t1/demo/src/lib.rs"]),
    ];
    let d: Data = data_from_analysis(s("https://github.com/alice/demo.git"), &root, Info::new(40, 7, 3), langs).unwrap();
    assert_eq!(d.repo, "https://github.com/alice/demo.git");
    assert_eq!(d.hash, "");
    assert_eq!(d.total, Info::new(40, 7, 3));
    assert_eq!(d.creation_time, d.verified_time);
    assert_eq!(d.languages.len(), 2);
    assert_eq!(d.languages[0].name, "Rust");
    assert_eq!(d.languages[0].files[0].path, "src/main.rs");
    assert_eq!(d.languages[0].files[1].path, "src/lib.rs");
    assert_eq!(d.languages[1].name, "Markdown");
    assert_eq!(d.languages[1].files[0].path, "README.md");
}

#[test]
fn record_refused_for_file_outside_clone() {
    let root = s("/tmp/t1/demo");
    let langs = vec![lang("Rust", 1, 0, 0, &["/tmp/t1/demo/a.rs", "/etc/passwd"])];
    let r = data_from_analysis(s("https://github.com/alice/demo.git"), &root, Info::new(1, 0, 0), langs);
    assert!(r.is_err());
}

#[test]
fn info_lines_do_not_overflow() {
    let i = Info::new(u32::MAX, u32::MAX, u32::MAX);
    assert_eq!(i.lines(), 3 * (u32::MAX as u64));
}

#[test]
fn constructors_keep_fields() {
    let f = FileInfo::new(s("a.rs"), 1, 2, 3);
    assert_eq!((f.path.as_str(), f.code, f.comments, f.blanks), ("a.rs", 1, 2, 3));
    let l = LanguageInfo::new(s("Rust"), Info::new(4, 5, 6));
    assert_eq!(l.name, "Rust");
    assert_eq!(l.total, Info::new(4, 5, 6));
    assert!(l.files.is_empty());
    let d = Data::new(s("u"), Info::new(7, 8, 9));
    assert_eq!(d.repo, "u");
    assert_eq!(d.hash, "");
    assert_eq!(d.total, Info::new(7, 8, 9));
    assert!(d.languages.is_empty());
    assert_eq!(d.creation_time, d.verified_time);
    assert!(d.creation_time > 1_600_000_000);
}

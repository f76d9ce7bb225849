use latex_backend::listing::{comes_first, precedes, sort_entries, FileEntry};

fn entry(name: &str, is_dir: bool) -> FileEntry {
    FileEntry { name: name.to_string(), path: format!("/root/{}", name), is_dir }
}

fn names(list: &[FileEntry]) -> Vec<String> {
    list.iter().map(|e| e.name.clone()).collect()
}

#[test]
fn directories_come_before_files() {
    let sorted = sort_entries(vec![entry("a.tex", false), entry("zeta", true), entry("alpha", true)]);
    assert_eq!(names(&sorted), vec!["alpha", "zeta", "a.tex"]);
}

#[test]
fn names_are_ordered_by_character_codes() {
    let sorted = sort_entries(vec![
        entry("b", false),
        entry("B", false),
        entry("a10", false),
        entry("a2", false),
        entry("é", false),
        entry("", false),
        entry("ab", false),
        entry("a", false),
    ]);
    assert_eq!(names(&sorted), vec!["", "B", "a", "a10", "a2", "ab", "b", "é"]);
}

#[test]
fn sorting_keeps_every_entry() {
    let list = vec![entry("x", false), entry("x", true), entry("x", false), entry("y", true)];
    let sorted = sort_entries(list);
    assert_eq!(sorted.len(), 4);
    assert_eq!(names(&sorted), vec!["x", "y", "x", "x"]);
}

#[test]
fn entries_with_the_same_name_keep_their_order() {
    let first = FileEntry { name: "n".to_string(), path: "first".to_string(), is_dir: false };
    let second = FileEntry { name: "n".to_string(), path: "second".to_string(), is_dir: false };
    let third = FileEntry { name: "n".to_string(), path: "third".to_string(), is_dir: false };
    let sorted = sort_entries(vec![first, entry("m", false), second, entry("o", false), third]);
    let paths: Vec<String> = sorted.iter().map(|e| e.path.clone()).collect();
    assert_eq!(paths, vec!["/root/m", "first", "second", "third", "/root/o"]);
}

#[test]
fn sorting_nothing_gives_nothing() {
    assert_eq!(sort_entries(Vec::new()), Vec::<FileEntry>::new());
}

#[test]
fn sorting_agrees_with_a_stable_sort_of_std() {
    let make = || {
        vec![
            entry("src", true),
            entry("main.tex", false),
            entry("AuxiliaryFiles", true),
            entry("refs.bib", false),
            entry("figures", true),
            entry("Main.tex", false),
            entry("main.tex", false),
            entry("文档.tex", false),
            entry(".git", true),
        ]
    };
    let mut expected = make();
    expected.sort_by(|a, b| {
        if a.is_dir == b.is_dir {
            a.name.cmp(&b.name)
        } else if a.is_dir {
            std::cmp::Ordering::Less
        } else {
            std::cmp::Ordering::Greater
        }
    });
    assert_eq!(sort_entries(make()), expected);
}

#[test]
fn comes_first_is_the_order_of_the_dictionary() {
    assert!(comes_first("a", "b"));
    assert!(!comes_first("b", "a"));
    assert!(comes_first("", "a"));
    assert!(!comes_first("a", ""));
    assert!(!comes_first("", ""));
    assert!(!comes_first("same", "same"));
    assert!(comes_first("ab", "abc"));
    assert!(comes_first("Z", "a"));
    assert!(comes_first("z", "é"));
}

#[test]
fn comes_first_agrees_with_std() {
    let words = ["", "a", "A", "ab", "b", "é", "e", "文", "\u{10000}", "\u{ffff}"];
    for a in words {
        for b in words {
            assert_eq!(comes_first(a, b), a < b);
        }
    }
}

#[test]
fn precedes_puts_a_directory_before_a_file_of_any_name() {
    assert!(precedes(&entry("z", true), &entry("a", false)));
    assert!(!precedes(&entry("a", false), &entry("z", true)));
    assert!(precedes(&entry("a", true), &entry("b", true)));
    assert!(!precedes(&entry("a", true), &entry("a", true)));
}

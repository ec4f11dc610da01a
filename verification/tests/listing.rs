use model_session::listing::{list_model_files, DirEntry};
use model_session::text::{same_text, text_precedes};

fn file(name: &str) -> DirEntry {
    DirEntry {
        name: String::from(name),
        is_file: true,
    }
}

fn directory(name: &str) -> DirEntry {
    DirEntry {
        name: String::from(name),
        is_file: false,
    }
}

#[test]
fn files_are_listed_sorted_and_directories_left_out() {
    let entries = vec![file("a.bin"), file("c.bin"), directory("models"), file("b.bin")];
    assert_eq!(list_model_files(&entries), vec!["a.bin", "b.bin", "c.bin"]);
}

#[test]
fn empty_directory_lists_nothing() {
    assert_eq!(list_model_files(&vec![]), Vec::<String>::new());
}

#[test]
fn only_directories_list_nothing() {
    let entries = vec![directory("models"), directory("a.bin")];
    assert_eq!(list_model_files(&entries), Vec::<String>::new());
}

#[test]
fn listing_agrees_with_the_standard_sort() {
    let names = vec![
        "weights.bin",
        "Weights.bin",
        "weights",
        "weights.bin.bak",
        "",
        "10.bin",
        "9.bin",
        "ünïcode.bin",
        "zeta",
        "模型.bin",
        "a",
        "B",
        "~last",
        " space",
    ];
    let entries: Vec<DirEntry> = names.iter().map(|name| file(name)).collect();
    let mut expected: Vec<String> = names.iter().map(|name| String::from(*name)).collect();
    expected.sort();
    assert_eq!(list_model_files(&entries), expected);
}

#[test]
fn a_name_reported_twice_is_listed_twice() {
    let entries = vec![file("b"), file("a"), file("b"), directory("b")];
    assert_eq!(list_model_files(&entries), vec!["a", "b", "b"]);
}

#[test]
fn sorted_input_stays_as_it_is() {
    let entries = vec![file("a"), file("b"), file("c")];
    assert_eq!(list_model_files(&entries), vec!["a", "b", "c"]);
}

#[test]
fn reversed_input_is_put_in_order() {
    let entries = vec![file("c"), file("b"), file("a")];
    assert_eq!(list_model_files(&entries), vec!["a", "b", "c"]);
}

#[test]
fn names_compare_as_strings_do() {
    let names = ["", "a", "a.bin", "ab", "b", "B", "é", "z", "zz", "模"];
    for a in names {
        for b in names {
            assert_eq!(text_precedes(a, b), a <= b);
        }
    }
}

#[test]
fn a_name_precedes_what_it_begins() {
    assert!(text_precedes("weights", "weights.bin"));
    assert!(!text_precedes("weights.bin", "weights"));
    assert!(text_precedes("weights", "weights"));
    assert!(text_precedes("", "a"));
    assert!(!text_precedes("a", ""));
}

#[test]
fn upper_case_precedes_lower_case() {
    assert!(text_precedes("Z", "a"));
    assert!(!text_precedes("a", "Z"));
}

#[test]
fn same_text_is_equality_of_strings() {
    let texts = ["", "a", "ab", "b", "llama", "llamb", "é", "e\u{301}", "模"];
    for a in texts {
        for b in texts {
            assert_eq!(same_text(a, b), a == b);
        }
    }
}

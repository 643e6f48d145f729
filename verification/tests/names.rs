//! The auto-generated entry-name rule: parsing existing names and
//! picking the next index.

use joman::naming::{next_entry_name, parse_entry_index};

#[test]
fn next_name_for_empty_journal() {
    let existing: Vec<String> = Vec::new();
    assert_eq!(next_entry_name(&existing), "entry_1.enc");
}

#[test]
fn next_name_takes_highest_index() {
    let existing = vec![
        String::from("entry_3.enc"),
        String::from("entry_10.enc"),
        String::from("notes.txt"),
        String::from("entry_x.enc"),
        String::from("Log_9.md.enc"),
    ];
    assert_eq!(next_entry_name(&existing), "entry_11.enc");
}

#[test]
fn next_name_reads_leading_zeros() {
    let existing = vec![String::from("entry_007.enc")];
    assert_eq!(next_entry_name(&existing), "entry_8.enc");
}

#[test]
fn next_name_ignores_overlong_index() {
    let existing = vec![
        String::from("entry_99999999999999999999.enc"),
        String::from("entry_2.enc"),
    ];
    assert_eq!(next_entry_name(&existing), "entry_3.enc");
}

#[test]
fn next_name_past_highest_32_bit_index() {
    let existing = vec![String::from("entry_4294967295.enc")];
    assert_eq!(next_entry_name(&existing), "entry_4294967296.enc");
}

#[test]
fn parse_entry_index_accepts_entry_names() {
    assert_eq!(parse_entry_index("entry_5.enc"), Some(5));
    assert_eq!(parse_entry_index("entry_0.enc"), Some(0));
    assert_eq!(parse_entry_index("entry_4294967295.enc"), Some(4294967295));
    assert_eq!(parse_entry_index("entry_012.enc"), Some(12));
}

#[test]
fn parse_entry_index_rejects_other_names() {
    assert_eq!(parse_entry_index("entry_.enc"), None);
    assert_eq!(parse_entry_index("entry_5.txt"), None);
    assert_eq!(parse_entry_index("xentry_5.enc"), None);
    assert_eq!(parse_entry_index("entry_5.enc.bak"), None);
    assert_eq!(parse_entry_index("entry_+5.enc"), None);
    assert_eq!(parse_entry_index("entry_4294967296.enc"), None);
    assert_eq!(parse_entry_index("entry_1a2.enc"), None);
    assert_eq!(parse_entry_index(""), None);
}

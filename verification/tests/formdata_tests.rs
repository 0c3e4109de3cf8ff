use worker::formdata::{entry_of, field_of, listed_entries, listed_entry_of, FormEntry};

#[derive(Debug, PartialEq)]
struct Upload(&'static str);

#[test]
fn files_win_over_text() {
    match entry_of(Some(Upload("a.png")), Some("ignored".to_string())) {
        Some(FormEntry::File(f)) => assert_eq!(f, Upload("a.png")),
        _ => panic!("expected a file"),
    }
}

#[test]
fn text_values_are_fields() {
    match entry_of::<Upload>(None, Some("hello".to_string())) {
        Some(FormEntry::Field(s)) => assert_eq!(s, "hello"),
        _ => panic!("expected a field"),
    }
    assert!(entry_of::<Upload>(None, None).is_none());
}

#[test]
fn field_lookup_skips_files() {
    assert_eq!(field_of(true, Some("x".to_string())), None);
    assert_eq!(field_of(false, Some("x".to_string())), Some("x".to_string()));
    assert_eq!(field_of(false, None), None);
}

#[test]
fn listed_values_without_text_are_empty_fields() {
    match listed_entry_of::<Upload>(None, None) {
        FormEntry::Field(s) => assert_eq!(s, ""),
        _ => panic!("expected a field"),
    }
    match listed_entry_of(Some(Upload("b.txt")), None) {
        FormEntry::File(f) => assert_eq!(f, Upload("b.txt")),
        _ => panic!("expected a file"),
    }
}

#[test]
fn listed_entries_keep_order() {
    let values = vec![
        (None, Some("a".to_string())),
        (Some(Upload("f.bin")), None),
        (None, None),
    ];
    let entries = listed_entries(true, values).unwrap();
    assert_eq!(entries.len(), 3);
    match &entries[0] {
        FormEntry::Field(s) => assert_eq!(s, "a"),
        _ => panic!("expected a field"),
    }
    match &entries[1] {
        FormEntry::File(f) => assert_eq!(*f, Upload("f.bin")),
        _ => panic!("expected a file"),
    }
    match &entries[2] {
        FormEntry::Field(s) => assert_eq!(s, ""),
        _ => panic!("expected a field"),
    }
    assert!(listed_entries::<Upload>(false, Vec::new()).is_none());
}

use onyx_core_builders::utils::{checkbox, empty_string_as_none, sequence};

#[test]
fn an_empty_field_is_an_absent_field() {
    assert_eq!(empty_string_as_none(None), None);
    assert_eq!(empty_string_as_none(Some(String::new())), None);
    assert_eq!(empty_string_as_none(Some(String::new())), empty_string_as_none(None));
}

#[test]
fn any_other_field_is_kept_as_it_is() {
    assert_eq!(empty_string_as_none(Some(String::from("12"))), Some(String::from("12")));
    assert_eq!(empty_string_as_none(Some(String::from(" "))), Some(String::from(" ")));
    assert_eq!(empty_string_as_none(Some(String::from("road"))), Some(String::from("road")));
}

#[test]
fn a_checkbox_is_ticked_by_any_value_but_false_and_off() {
    assert!(checkbox(Some(String::from("on"))));
    assert!(checkbox(Some(String::from("true"))));
    assert!(checkbox(Some(String::from("1"))));
    assert!(checkbox(Some(String::from("False"))));
    assert!(!checkbox(Some(String::from("false"))));
    assert!(!checkbox(Some(String::from("off"))));
    assert!(!checkbox(Some(String::new())));
    assert!(!checkbox(None));
}

#[test]
fn a_list_in_one_field_is_split_at_its_commas() {
    let items = |raw: &str| sequence(Some(String::from(raw)));
    assert_eq!(items("gantt,kanban"), vec!["gantt", "kanban"]);
    assert_eq!(items(" gantt ,  kanban board "), vec!["gantt", "kanban board"]);
    assert_eq!(items("one"), vec!["one"]);
    assert_eq!(items("a,,b"), vec!["a", "", "b"]);
    assert_eq!(items(","), vec!["", ""]);
    assert_eq!(items("a,"), vec!["a", ""]);
    assert_eq!(items("  "), vec![""]);
    assert_eq!(items("\u{e9}t\u{e9}, \u{44f}"), vec!["\u{e9}t\u{e9}", "\u{44f}"]);
    assert_eq!(sequence(Some(String::new())), Vec::<String>::new());
    assert_eq!(sequence(None), Vec::<String>::new());
}

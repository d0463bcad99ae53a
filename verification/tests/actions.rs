use role_permission::action::{Action, InvalidAction};
use role_permission::text::same_text;

fn every_action() -> Vec<Action> {
    vec![Action::Admin, Action::Read, Action::List, Action::Write, Action::Delete]
}

#[test]
fn as_string_gives_the_canonical_names() {
    assert_eq!(Action::Admin.as_string(), "admin");
    assert_eq!(Action::Read.as_string(), "read");
    assert_eq!(Action::List.as_string(), "list");
    assert_eq!(Action::Write.as_string(), "write");
    assert_eq!(Action::Delete.as_string(), "delete");
}

#[test]
fn from_string_accepts_the_canonical_names() {
    assert_eq!(Action::from_string("admin"), Ok(Action::Admin));
    assert_eq!(Action::from_string("read"), Ok(Action::Read));
    assert_eq!(Action::from_string("list"), Ok(Action::List));
    assert_eq!(Action::from_string("write"), Ok(Action::Write));
    assert_eq!(Action::from_string("delete"), Ok(Action::Delete));
}

#[test]
fn decoding_an_encoded_action_gives_it_back() {
    for action in every_action() {
        assert_eq!(Action::from_string(&action.as_string()), Ok(action));
    }
}

#[test]
fn encoding_a_decoded_name_gives_it_back() {
    for name in ["admin", "read", "list", "write", "delete"] {
        let action = Action::from_string(name).unwrap();
        assert_eq!(action.as_string(), name);
    }
}

#[test]
fn names_are_pairwise_distinct() {
    let all = every_action();
    for (i, a) in all.iter().enumerate() {
        for (j, b) in all.iter().enumerate() {
            assert_eq!(a.as_string() == b.as_string(), i == j);
        }
    }
}

#[test]
fn from_string_rejects_another_case() {
    assert_eq!(Action::from_string("Admin"), Err(InvalidAction));
    assert_eq!(Action::from_string("READ"), Err(InvalidAction));
    assert_eq!(Action::from_string("Delete"), Err(InvalidAction));
}

#[test]
fn from_string_rejects_the_empty_text() {
    assert_eq!(Action::from_string(""), Err(InvalidAction));
}

#[test]
fn from_string_rejects_unknown_words() {
    assert_eq!(Action::from_string("superadmin"), Err(InvalidAction));
    assert_eq!(Action::from_string("adminx"), Err(InvalidAction));
    assert_eq!(Action::from_string("rea"), Err(InvalidAction));
    assert_eq!(Action::from_string("execute"), Err(InvalidAction));
}

#[test]
fn from_string_rejects_surrounding_blanks() {
    assert_eq!(Action::from_string(" admin"), Err(InvalidAction));
    assert_eq!(Action::from_string("admin "), Err(InvalidAction));
    assert_eq!(Action::from_string("write\n"), Err(InvalidAction));
}

#[test]
fn from_string_rejects_look_alike_characters() {
    // Cyrillic "а" in place of the first letter, and a name of the same byte length.
    assert_eq!(Action::from_string("\u{430}dmin"), Err(InvalidAction));
    assert_eq!(Action::from_string("r\u{e9}d"), Err(InvalidAction));
}

#[test]
fn same_text_compares_exactly() {
    assert!(same_text("", ""));
    assert!(same_text("list", "list"));
    assert!(same_text("d\u{e9}j\u{e0}", "d\u{e9}j\u{e0}"));
    assert!(!same_text("list", "lisT"));
    assert!(!same_text("list", "lists"));
    assert!(!same_text("lists", "list"));
    assert!(!same_text("", " "));
    assert!(!same_text("read", "list"));
}

#[test]
fn an_invalid_action_says_so() {
    let error = Action::from_string("grant").unwrap_err();
    assert_eq!(error.message(), "Invalid action");
}

use splinter_registry::error::CliError;
use splinter_registry::text::{clone_strings, find_char, same_strings};

fn strings(items: &[&str]) -> Vec<String> {
    items.iter().map(|item| item.to_string()).collect()
}

#[test]
fn find_char_gives_the_first_position() {
    assert_eq!(find_char("a=b=c", '='), Some(1));
    assert_eq!(find_char("=", '='), Some(0));
    assert_eq!(find_char("abc", '='), None);
    assert_eq!(find_char("", '='), None);
}

#[test]
fn find_char_counts_characters() {
    assert_eq!(find_char("größe=1", '='), Some(5));
    assert_eq!(find_char("日本語=x", '='), Some(3));
}

#[test]
fn clone_strings_copies_in_order() {
    let items = strings(&["b", "a", ""]);
    assert_eq!(clone_strings(&items), items);
    assert_eq!(clone_strings(&Vec::new()), Vec::<String>::new());
}

#[test]
fn same_strings_compares_in_order() {
    assert!(same_strings(&strings(&["a", "b"]), &strings(&["a", "b"])));
    assert!(!same_strings(&strings(&["a", "b"]), &strings(&["b", "a"])));
    assert!(!same_strings(&strings(&["a"]), &strings(&["a", "b"])));
    assert!(same_strings(&Vec::new(), &Vec::new()));
}

#[test]
fn unexpected_event_message() {
    assert_eq!(
        CliError::UnexpectedEvent.to_string(),
        "workflow received an answer it had not asked for"
    );
    assert_eq!(
        CliError::EnvironmentError("Failed to open 'f': Permission denied".to_string()).to_string(),
        "Failed to open 'f': Permission denied"
    );
}

#[test]
fn cloned_error_is_the_same_error() {
    let errors = vec![
        CliError::RequiresArgs,
        CliError::MalformedRegistryFile("f".to_string()),
        CliError::DuplicateIdentity("n".to_string()),
        CliError::NotFoundError("n".to_string()),
        CliError::Conflict("c".to_string()),
    ];
    for error in errors {
        assert_eq!(error.clone(), error);
    }
}

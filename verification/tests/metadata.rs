use splinter_registry::error::{CliError, MetadataError};
use splinter_registry::metadata::{parse_metadata, parse_metadata_list, Metadata};

fn strings(items: &[&str]) -> Vec<String> {
    items.iter().map(|item| item.to_string()).collect()
}

#[test]
fn parse_metadata_accepts_key_and_value() {
    assert_eq!(parse_metadata("a=1"), Ok(("a".to_string(), "1".to_string())));
}

#[test]
fn parse_metadata_rejects_empty_key() {
    assert_eq!(parse_metadata("=1"), Err(CliError::InvalidMetadata(MetadataError::EmptyKey)));
}

#[test]
fn parse_metadata_rejects_empty_value() {
    assert_eq!(
        parse_metadata("a="),
        Err(CliError::InvalidMetadata(MetadataError::EmptyValue("a".to_string())))
    );
}

#[test]
fn parse_metadata_rejects_token_without_separator() {
    assert_eq!(
        parse_metadata("a"),
        Err(CliError::InvalidMetadata(MetadataError::MissingValue("a".to_string())))
    );
}

#[test]
fn parse_metadata_rejects_empty_token() {
    assert_eq!(parse_metadata(""), Err(CliError::InvalidMetadata(MetadataError::EmptyKey)));
}

#[test]
fn parse_metadata_rejects_lone_separator() {
    assert_eq!(parse_metadata("="), Err(CliError::InvalidMetadata(MetadataError::EmptyKey)));
}

#[test]
fn parse_metadata_splits_at_first_separator_only() {
    assert_eq!(parse_metadata("a=b=c"), Ok(("a".to_string(), "b=c".to_string())));
    assert_eq!(parse_metadata("a=="), Ok(("a".to_string(), "=".to_string())));
}

#[test]
fn parse_metadata_counts_characters_not_bytes() {
    assert_eq!(
        parse_metadata("größe=zwölf"),
        Ok(("größe".to_string(), "zwölf".to_string()))
    );
    assert_eq!(
        parse_metadata("名前="),
        Err(CliError::InvalidMetadata(MetadataError::EmptyValue("名前".to_string())))
    );
}

#[test]
fn parse_metadata_joined_again_gives_the_token() {
    for token in ["a=1", "company=Bitwise IO", "k=v=w", "x==", "größe=1"] {
        let (key, value) = parse_metadata(token).unwrap();
        assert_eq!(format!("{}={}", key, value), token);
        assert!(!key.contains('='));
    }
}

#[test]
fn metadata_error_messages() {
    assert_eq!(MetadataError::EmptyKey.to_string(), "Empty '--metadata' argument detected");
    assert_eq!(
        MetadataError::MissingValue("a".to_string()).to_string(),
        "Missing value for metadata key 'a'"
    );
    assert_eq!(
        MetadataError::EmptyValue("a".to_string()).to_string(),
        "Empty value detected for metadata key 'a'"
    );
}

#[test]
fn metadata_list_of_no_tokens_is_empty() {
    let metadata = parse_metadata_list(&Vec::new()).unwrap();
    assert!(metadata.is_empty());
    assert_eq!(metadata.len(), 0);
}

#[test]
fn metadata_list_keeps_every_entry() {
    let metadata = parse_metadata_list(&strings(&["a=1", "b=2"])).unwrap();
    assert_eq!(metadata.len(), 2);
    assert_eq!(metadata.get("a"), Some(&"1".to_string()));
    assert_eq!(metadata.get("b"), Some(&"2".to_string()));
    assert_eq!(metadata.get("c"), None);
}

#[test]
fn metadata_list_last_occurrence_wins() {
    let metadata = parse_metadata_list(&strings(&["a=1", "b=2", "a=3"])).unwrap();
    assert_eq!(metadata.len(), 2);
    assert_eq!(metadata.get("a"), Some(&"3".to_string()));
    assert_eq!(metadata.get("b"), Some(&"2".to_string()));
}

#[test]
fn metadata_list_fails_on_any_malformed_token() {
    assert_eq!(
        parse_metadata_list(&strings(&["a=1", "b", "c=3"])).unwrap_err(),
        CliError::InvalidMetadata(MetadataError::MissingValue("b".to_string()))
    );
}

#[test]
fn metadata_list_reports_the_first_malformed_token() {
    assert_eq!(
        parse_metadata_list(&strings(&["a=1", "b=", "=3"])).unwrap_err(),
        CliError::InvalidMetadata(MetadataError::EmptyValue("b".to_string()))
    );
}

#[test]
fn metadata_insert_overwrites_in_place() {
    let mut metadata = Metadata::new();
    metadata.insert("a".to_string(), "1".to_string());
    metadata.insert("b".to_string(), "2".to_string());
    metadata.insert("a".to_string(), "3".to_string());
    assert_eq!(
        metadata.to_vec(),
        vec![("a".to_string(), "3".to_string()), ("b".to_string(), "2".to_string())]
    );
    assert_eq!(metadata.entry(0), Some((&"a".to_string(), &"3".to_string())));
    assert_eq!(metadata.entry(2), None);
}

#[test]
fn metadata_same_as_ignores_order() {
    let mut left = Metadata::new();
    left.insert("a".to_string(), "1".to_string());
    left.insert("b".to_string(), "2".to_string());
    let mut right = Metadata::new();
    right.insert("b".to_string(), "2".to_string());
    right.insert("a".to_string(), "1".to_string());
    assert!(left.same_as(&right));
    assert!(right.same_as(&left));
    assert!(left.same_as(&left.clone()));
}

#[test]
fn metadata_same_as_sees_differences() {
    let mut left = Metadata::new();
    left.insert("a".to_string(), "1".to_string());
    let mut other_value = Metadata::new();
    other_value.insert("a".to_string(), "2".to_string());
    let mut more = left.clone();
    more.insert("b".to_string(), "2".to_string());
    assert!(!left.same_as(&other_value));
    assert!(!left.same_as(&more));
    assert!(!more.same_as(&left));
    assert!(!left.same_as(&Metadata::new()));
}

#[test]
fn metadata_nothing_empty_checks_keys_and_values() {
    let mut metadata = Metadata::new();
    assert!(metadata.nothing_empty());
    metadata.insert("a".to_string(), "1".to_string());
    assert!(metadata.nothing_empty());
    let mut empty_value = metadata.clone();
    empty_value.insert("b".to_string(), String::new());
    assert!(!empty_value.nothing_empty());
    let mut empty_key = metadata.clone();
    empty_key.insert(String::new(), "1".to_string());
    assert!(!empty_key.nothing_empty());
}

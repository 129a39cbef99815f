use splinter_registry::error::InvalidNodeError;
use splinter_registry::metadata::Metadata;
use splinter_registry::node::{checked_record, NodeResponse, RegistryNode, RegistryNodeBuilder};

fn node_one() -> RegistryNode {
    RegistryNodeBuilder::new("node-1")
        .with_endpoint("tcps://node-1:8044".to_string())
        .with_key("0123".to_string())
        .build()
        .unwrap()
}

#[test]
fn builder_makes_the_record_it_was_given() {
    let node = RegistryNodeBuilder::new("node-1")
        .with_endpoint("tcps://node-1:8044".to_string())
        .with_endpoints(vec!["tcps://node-1:8045".to_string(), "tcp://n1".to_string()])
        .with_display_name("Node 1".to_string())
        .with_key("abc".to_string())
        .with_keys(vec!["def".to_string()])
        .with_metadata("company".to_string(), "Bitwise IO".to_string())
        .build()
        .unwrap();
    assert_eq!(node.identity(), "node-1");
    assert_eq!(
        node.endpoints(),
        &vec![
            "tcps://node-1:8044".to_string(),
            "tcps://node-1:8045".to_string(),
            "tcp://n1".to_string()
        ]
    );
    assert_eq!(node.display_name(), "Node 1");
    assert_eq!(node.keys(), &vec!["abc".to_string(), "def".to_string()]);
    assert_eq!(node.metadata().len(), 1);
    assert_eq!(node.metadata().get("company"), Some(&"Bitwise IO".to_string()));
}

#[test]
fn builder_display_name_defaults_to_identity() {
    assert_eq!(node_one().display_name(), "node-1");
}

#[test]
fn builder_later_display_name_replaces_earlier() {
    let node = RegistryNodeBuilder::new("node-1")
        .with_display_name("first".to_string())
        .with_display_name("second".to_string())
        .with_endpoint("e".to_string())
        .with_key("k".to_string())
        .build()
        .unwrap();
    assert_eq!(node.display_name(), "second");
}

#[test]
fn builder_later_metadata_overwrites_earlier() {
    let node = RegistryNodeBuilder::new("node-1")
        .with_endpoint("e".to_string())
        .with_key("k".to_string())
        .with_metadata("a".to_string(), "1".to_string())
        .with_metadata("a".to_string(), "2".to_string())
        .build()
        .unwrap();
    assert_eq!(node.metadata().len(), 1);
    assert_eq!(node.metadata().get("a"), Some(&"2".to_string()));
}

#[test]
fn builder_rejects_empty_identity() {
    let made = RegistryNodeBuilder::new("")
        .with_endpoint("e".to_string())
        .with_key("k".to_string())
        .build();
    assert_eq!(made.unwrap_err(), InvalidNodeError::EmptyIdentity);
}

#[test]
fn builder_rejects_missing_endpoints() {
    let made = RegistryNodeBuilder::new("node-1").with_key("k".to_string()).build();
    assert_eq!(made.unwrap_err(), InvalidNodeError::MissingEndpoints);
}

#[test]
fn builder_rejects_missing_keys() {
    let made = RegistryNodeBuilder::new("node-1").with_endpoint("e".to_string()).build();
    assert_eq!(made.unwrap_err(), InvalidNodeError::MissingKeys);
}

#[test]
fn builder_rejects_empty_metadata_value() {
    let made = RegistryNodeBuilder::new("node-1")
        .with_endpoint("e".to_string())
        .with_key("k".to_string())
        .with_metadata("a".to_string(), String::new())
        .build();
    assert_eq!(made.unwrap_err(), InvalidNodeError::EmptyMetadata);
}

#[test]
fn builder_reports_the_first_broken_rule() {
    let made = RegistryNodeBuilder::new("").build();
    assert_eq!(made.unwrap_err(), InvalidNodeError::EmptyIdentity);
    let made = RegistryNodeBuilder::new("n").build();
    assert_eq!(made.unwrap_err(), InvalidNodeError::MissingEndpoints);
}

#[test]
fn invalid_node_error_messages() {
    assert_eq!(InvalidNodeError::EmptyIdentity.to_string(), "Identity must be specified");
    assert_eq!(
        InvalidNodeError::MissingEndpoints.to_string(),
        "One or more endpoints must be specified"
    );
    assert_eq!(
        InvalidNodeError::MissingKeys.to_string(),
        "One or more key files must be specified"
    );
    assert_eq!(
        InvalidNodeError::EmptyMetadata.to_string(),
        "Metadata keys and values must not be empty"
    );
}

#[test]
fn node_text_lists_every_field() {
    let node = RegistryNodeBuilder::new("node-1")
        .with_endpoints(vec!["tcps://node-1:8044".to_string(), "tcp://n1:80".to_string()])
        .with_display_name("Node 1".to_string())
        .with_key("abc".to_string())
        .with_metadata("company".to_string(), "Bitwise IO".to_string())
        .with_metadata("site".to_string(), "north".to_string())
        .build()
        .unwrap();
    assert_eq!(
        node.to_string(),
        "identity: node-1\nendpoints:\n  - tcps://node-1:8044\n  - tcp://n1:80\n\
         display name: Node 1\nkeys:\n  - abc\nmetadata:\n  company: Bitwise IO\n  site: north"
    );
}

#[test]
fn node_text_without_metadata() {
    assert_eq!(
        node_one().to_string(),
        "identity: node-1\nendpoints:\n  - tcps://node-1:8044\ndisplay name: node-1\n\
         keys:\n  - 0123\nmetadata:"
    );
}

#[test]
fn node_same_as_is_order_sensitive_for_endpoints_and_keys() {
    let base = || RegistryNodeBuilder::new("n").with_key("k".to_string());
    let ab = base().with_endpoints(vec!["a".to_string(), "b".to_string()]).build().unwrap();
    let ba = base().with_endpoints(vec!["b".to_string(), "a".to_string()]).build().unwrap();
    assert!(ab.same_as(&ab.clone()));
    assert!(!ab.same_as(&ba));
    let base = || RegistryNodeBuilder::new("n").with_endpoint("e".to_string());
    let xy = base().with_keys(vec!["x".to_string(), "y".to_string()]).build().unwrap();
    let yx = base().with_keys(vec!["y".to_string(), "x".to_string()]).build().unwrap();
    assert!(!xy.same_as(&yx));
}

#[test]
fn node_same_as_is_order_insensitive_for_metadata() {
    let base =
        || RegistryNodeBuilder::new("n").with_endpoint("e".to_string()).with_key("k".to_string());
    let left = base()
        .with_metadata("a".to_string(), "1".to_string())
        .with_metadata("b".to_string(), "2".to_string())
        .build()
        .unwrap();
    let right = base()
        .with_metadata("b".to_string(), "2".to_string())
        .with_metadata("a".to_string(), "1".to_string())
        .build()
        .unwrap();
    assert!(left.same_as(&right));
    let other = base().with_metadata("a".to_string(), "1".to_string()).build().unwrap();
    assert!(!left.same_as(&other));
}

#[test]
fn node_same_as_compares_identity_and_display_name() {
    let one = node_one();
    let renamed = RegistryNodeBuilder::new("node-1")
        .with_endpoint("tcps://node-1:8044".to_string())
        .with_key("0123".to_string())
        .with_display_name("other".to_string())
        .build()
        .unwrap();
    let two = RegistryNodeBuilder::new("node-2")
        .with_endpoint("tcps://node-1:8044".to_string())
        .with_key("0123".to_string())
        .with_display_name("node-1".to_string())
        .build()
        .unwrap();
    assert!(!one.same_as(&renamed));
    assert!(!one.same_as(&two));
}

#[test]
fn plain_form_makes_the_same_record_again() {
    let node = RegistryNodeBuilder::new("node-1")
        .with_endpoints(vec!["a".to_string(), "b".to_string()])
        .with_keys(vec!["x".to_string(), "y".to_string()])
        .with_metadata("m".to_string(), "1".to_string())
        .build()
        .unwrap();
    let plain = node.to_response();
    assert_eq!(plain.display_name, Some("node-1".to_string()));
    let again = checked_record(plain).unwrap();
    assert!(again.same_as(&node));
}

#[test]
fn checked_record_applies_the_rules() {
    let record = |identity: &str, endpoints: Vec<String>, keys: Vec<String>| NodeResponse {
        identity: identity.to_string(),
        endpoints,
        display_name: None,
        keys,
        metadata: Metadata::new(),
    };
    let good = checked_record(record("n", vec!["e".to_string()], vec!["k".to_string()])).unwrap();
    assert_eq!(good.display_name(), "n");
    assert_eq!(
        checked_record(record("", vec!["e".to_string()], vec!["k".to_string()])).unwrap_err(),
        InvalidNodeError::EmptyIdentity
    );
    assert_eq!(
        checked_record(record("n", vec![], vec!["k".to_string()])).unwrap_err(),
        InvalidNodeError::MissingEndpoints
    );
    assert_eq!(
        checked_record(record("n", vec!["e".to_string()], vec![])).unwrap_err(),
        InvalidNodeError::MissingKeys
    );
}

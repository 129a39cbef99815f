use splinter_registry::client::{HttpMethod, Operation, RemoteReply, ReplyBody};
use splinter_registry::error::{CliError, InvalidNodeError, IoFailure, MetadataError};
use splinter_registry::generate::{generate_registry, GenerateArgs, RegistryGenerateAction};
use splinter_registry::node::{LocalNodeStatus, NodeResponse};
use splinter_registry::registry_file::{FileContent, LocalRegistryFile};
use splinter_registry::workflow::{Effect, Event, SaveOutcome, Settings};

fn args() -> GenerateArgs {
    GenerateArgs {
        file: None,
        status_url: None,
        private_key_file: None,
        key_files: Some(vec!["node-1.pub".to_string()]),
        metadata: None,
        force: false,
    }
}

fn settings(authentication: bool) -> Settings {
    Settings { environment_url: None, authentication }
}

fn status() -> LocalNodeStatus {
    LocalNodeStatus {
        node_id: "node-1".to_string(),
        display_name: "node-1".to_string(),
        advertised_endpoints: vec!["tcps://node-1:8044".to_string()],
    }
}

fn status_reply() -> RemoteReply {
    RemoteReply::Response {
        status: 200,
        status_text: "200 OK".to_string(),
        body: ReplyBody::Status(status()),
    }
}

/// Stands in for the file system and the node: performs each effect on the
/// file in memory and answers it, until the workflow ends.
fn drive(
    args: Option<GenerateArgs>,
    file: &mut Option<LocalRegistryFile>,
) -> (Result<String, CliError>, Vec<&'static str>) {
    let mut action = RegistryGenerateAction::new(args, settings(false));
    let mut trace = Vec::new();
    let mut event = Event::Started;
    loop {
        let (next, effect) = action.run(event);
        action = next;
        event = match effect {
            Effect::LoadRegistry { .. } => {
                trace.push("load");
                Event::RegistryLoaded(match file {
                    Some(registry) => FileContent::Records(registry.records()),
                    None => FileContent::Absent,
                })
            }
            Effect::Send { request } => {
                trace.push("send");
                assert_eq!(request.operation, Operation::GetNodeStatus);
                Event::Replied(status_reply())
            }
            Effect::ReadKeys { key_files } => {
                trace.push("keys");
                let keys = key_files.iter().map(|file| format!("key of {}", file)).collect();
                Event::KeysRead(Ok(keys))
            }
            Effect::SaveRegistry { registry, .. } => {
                trace.push("save");
                *file = Some(registry);
                Event::RegistrySaved(SaveOutcome::Saved)
            }
            Effect::Finish { message } => {
                assert!(action.is_over());
                return (Ok(message), trace);
            }
            Effect::Fail { error } => {
                assert!(action.is_over());
                return (Err(error), trace);
            }
            other => panic!("unexpected effect {:?}", other),
        };
    }
}

#[test]
fn generate_into_empty_file_writes_one_record() {
    let mut file = None;
    let (result, trace) = drive(Some(args()), &mut file);
    assert_eq!(result, Ok("Added node 'node-1' to './nodes.yaml'".to_string()));
    assert_eq!(trace, vec!["load", "send", "keys", "save"]);
    let records: Vec<NodeResponse> = file.unwrap().records();
    assert_eq!(records.len(), 1);
    assert_eq!(records[0].identity, "node-1");
    assert_eq!(records[0].display_name, Some("node-1".to_string()));
    assert_eq!(records[0].endpoints, vec!["tcps://node-1:8044".to_string()]);
    assert_eq!(records[0].keys, vec!["key of node-1.pub".to_string()]);
    assert!(records[0].metadata.is_empty());
}

#[test]
fn generate_twice_without_force_fails_and_leaves_the_file() {
    let mut file = None;
    let (first, _) = drive(Some(args()), &mut file);
    assert!(first.is_ok());
    let after_first = file.as_ref().unwrap().to_vec();

    let mut again = args();
    again.key_files = Some(vec!["other.pub".to_string()]);
    let (second, trace) = drive(Some(again), &mut file);
    assert_eq!(second, Err(CliError::DuplicateIdentity("node-1".to_string())));
    assert!(second.unwrap_err().is_environment_error());
    assert_eq!(trace, vec!["load", "send", "keys"]);
    let after_second = file.unwrap();
    assert_eq!(after_second.len(), after_first.len());
    assert_eq!(after_second.len(), 1);
    assert!(after_second.get(0).unwrap().same_as(&after_first[0]));
}

#[test]
fn generate_twice_with_force_replaces_the_record() {
    let mut file = None;
    let (first, _) = drive(Some(args()), &mut file);
    assert!(first.is_ok());
    let mut forced = args();
    forced.force = true;
    forced.key_files = Some(vec!["new.pub".to_string()]);
    let (second, trace) = drive(Some(forced), &mut file);
    assert!(second.is_ok());
    assert_eq!(trace, vec!["load", "send", "keys", "save"]);
    let registry = file.unwrap();
    assert_eq!(registry.len(), 1);
    assert_eq!(registry.get(0).unwrap().keys(), &vec!["key of new.pub".to_string()]);
}

#[test]
fn generate_uses_the_named_file() {
    let mut named = args();
    named.file = Some("/etc/registry.yaml".to_string());
    let action = RegistryGenerateAction::new(Some(named), settings(false));
    let (_, effect) = action.run(Event::Started);
    match effect {
        Effect::LoadRegistry { path } => assert_eq!(path, "/etc/registry.yaml"),
        other => panic!("unexpected effect {:?}", other),
    }
}

#[test]
fn generate_without_arguments_fails() {
    let action = RegistryGenerateAction::new(None, settings(false));
    let (action, effect) = action.run(Event::Started);
    assert!(matches!(effect, Effect::Fail { error: CliError::RequiresArgs }));
    assert!(action.is_over());
}

#[test]
fn generate_asks_nothing_after_it_failed() {
    let action = RegistryGenerateAction::new(None, settings(false));
    let (action, _) = action.run(Event::Started);
    let (action, effect) = action.run(Event::Started);
    assert!(matches!(effect, Effect::Nothing));
    let (action, effect) = action.run(Event::RegistrySaved(SaveOutcome::Saved));
    assert!(matches!(effect, Effect::Nothing));
    assert!(action.is_over());
}

#[test]
fn generate_malformed_file_fails_before_anything_is_sent() {
    let action = RegistryGenerateAction::new(Some(args()), settings(false));
    let (action, _) = action.run(Event::Started);
    let (action, effect) = action.run(Event::RegistryLoaded(FileContent::Malformed));
    match effect {
        Effect::Fail { error } => {
            assert_eq!(error, CliError::MalformedRegistryFile("./nodes.yaml".to_string()))
        }
        other => panic!("unexpected effect {:?}", other),
    }
    assert!(action.is_over());
}

#[test]
fn generate_status_url_falls_back_to_environment_then_default() {
    let request_url = |status_url: Option<&str>, environment_url: Option<&str>| {
        let mut with_url = args();
        with_url.status_url = status_url.map(String::from);
        let settings =
            Settings { environment_url: environment_url.map(String::from), authentication: false };
        let action = RegistryGenerateAction::new(Some(with_url), settings);
        let (action, _) = action.run(Event::Started);
        let (_, effect) = action.run(Event::RegistryLoaded(FileContent::Absent));
        match effect {
            Effect::Send { request } => {
                assert_eq!(request.method, HttpMethod::Get);
                assert_eq!(request.authorization, None);
                request.url
            }
            other => panic!("unexpected effect {:?}", other),
        }
    };
    assert_eq!(request_url(Some("http://a"), Some("http://b")), "http://a/status");
    assert_eq!(request_url(None, Some("http://b")), "http://b/status");
    assert_eq!(request_url(None, None), "http://127.0.0.1:8080/status");
}

#[test]
fn generate_with_authentication_sends_the_credential() {
    let mut with_key = args();
    with_key.private_key_file = Some("admin.priv".to_string());
    let action = RegistryGenerateAction::new(Some(with_key), settings(true));
    let (action, _) = action.run(Event::Started);
    let (action, effect) = action.run(Event::RegistryLoaded(FileContent::Absent));
    match effect {
        Effect::Authorize { key_file } => assert_eq!(key_file, Some("admin.priv".to_string())),
        other => panic!("unexpected effect {:?}", other),
    }
    let (_, effect) = action.run(Event::Credential(Ok("Bearer token".to_string())));
    match effect {
        Effect::Send { request } => {
            assert_eq!(request.authorization, Some("Bearer token".to_string()))
        }
        other => panic!("unexpected effect {:?}", other),
    }
}

#[test]
fn generate_without_credential_fails() {
    let action = RegistryGenerateAction::new(Some(args()), settings(true));
    let (action, _) = action.run(Event::Started);
    let (action, _) = action.run(Event::RegistryLoaded(FileContent::Absent));
    let (_, effect) = action.run(Event::Credential(Err("no key".to_string())));
    match effect {
        Effect::Fail { error } => {
            assert_eq!(error, CliError::EnvironmentError("no key".to_string()))
        }
        other => panic!("unexpected effect {:?}", other),
    }
}

#[test]
fn generate_without_key_files_fails() {
    for key_files in [None, Some(Vec::new())] {
        let mut without = args();
        without.key_files = key_files;
        let action = RegistryGenerateAction::new(Some(without), settings(false));
        let (action, _) = action.run(Event::Started);
        let (action, _) = action.run(Event::RegistryLoaded(FileContent::Absent));
        let (_, effect) = action.run(Event::Replied(status_reply()));
        match effect {
            Effect::Fail { error } => {
                assert_eq!(error, CliError::ValidationError(InvalidNodeError::MissingKeys))
            }
            other => panic!("unexpected effect {:?}", other),
        }
    }
}

#[test]
fn generate_failed_save_is_an_environment_error() {
    let outcomes = vec![
        (
            SaveOutcome::NotSerialized("bad".to_string()),
            "Cannot format node list into yaml: bad",
        ),
        (
            SaveOutcome::NotCreated(IoFailure::PermissionDenied),
            "Failed to create or overwrite './nodes.yaml': Permission denied",
        ),
        (
            SaveOutcome::NotWritten(IoFailure::Unknown),
            "Failed to write to file './nodes.yaml': Unknown error",
        ),
    ];
    for (outcome, message) in outcomes {
        let action = RegistryGenerateAction::new(Some(args()), settings(false));
        let (action, _) = action.run(Event::Started);
        let (action, _) = action.run(Event::RegistryLoaded(FileContent::Absent));
        let (action, _) = action.run(Event::Replied(status_reply()));
        let (action, effect) = action.run(Event::KeysRead(Ok(vec!["k".to_string()])));
        assert!(matches!(effect, Effect::SaveRegistry { .. }));
        let (_, effect) = action.run(Event::RegistrySaved(outcome));
        match effect {
            Effect::Fail { error } => {
                assert_eq!(error, CliError::EnvironmentError(message.to_string()))
            }
            other => panic!("unexpected effect {:?}", other),
        }
    }
}

#[test]
fn generate_answer_out_of_turn_ends_the_workflow() {
    let action = RegistryGenerateAction::new(Some(args()), settings(false));
    let (action, _) = action.run(Event::Started);
    let (action, effect) = action.run(Event::KeysRead(Ok(vec!["k".to_string()])));
    assert!(matches!(effect, Effect::Fail { error: CliError::UnexpectedEvent }));
    assert!(action.is_over());
}

#[test]
fn generate_registry_merges_the_record() {
    let merged = generate_registry(
        LocalRegistryFile::new(),
        status(),
        vec!["k1".to_string(), "k2".to_string()],
        &Some(vec!["a=1".to_string(), "b=2".to_string()]),
        false,
    )
    .unwrap();
    assert_eq!(merged.len(), 1);
    let node = merged.get(0).unwrap();
    assert_eq!(node.identity(), "node-1");
    assert_eq!(node.keys(), &vec!["k1".to_string(), "k2".to_string()]);
    assert_eq!(node.metadata().get("a"), Some(&"1".to_string()));
    assert_eq!(node.metadata().get("b"), Some(&"2".to_string()));
}

#[test]
fn generate_registry_malformed_token_aborts() {
    let merged = generate_registry(
        LocalRegistryFile::new(),
        status(),
        vec!["k1".to_string()],
        &Some(vec!["a=1".to_string(), "b".to_string()]),
        false,
    );
    assert_eq!(
        merged.unwrap_err(),
        CliError::InvalidMetadata(MetadataError::MissingValue("b".to_string()))
    );
}

#[test]
fn generate_registry_validates_the_record() {
    let mut no_endpoints = status();
    no_endpoints.advertised_endpoints.clear();
    let keys = vec!["k".to_string()];
    let merged = generate_registry(LocalRegistryFile::new(), no_endpoints, keys, &None, false);
    assert_eq!(merged.unwrap_err(), CliError::ValidationError(InvalidNodeError::MissingEndpoints));
    let merged = generate_registry(LocalRegistryFile::new(), status(), Vec::new(), &None, false);
    assert_eq!(merged.unwrap_err(), CliError::ValidationError(InvalidNodeError::MissingKeys));
    let mut no_identity = status();
    no_identity.node_id.clear();
    let keys = vec!["k".to_string()];
    let merged = generate_registry(LocalRegistryFile::new(), no_identity, keys, &None, false);
    assert_eq!(merged.unwrap_err(), CliError::ValidationError(InvalidNodeError::EmptyIdentity));
}

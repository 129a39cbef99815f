//! The workflow by which a node publishes its own record: it reads the local
//! registry file, asks the running node for its status, assembles the
//! node's record from the status, the operator's key files and metadata,
//! merges the record into the registry by identity and writes the file.

use vstd::prelude::*;
use crate::client::{
    interpret, interpreted, new_client, Operation, RemoteAnswer, RemoteAnswerView,
    RemoteRequestView, SplinterRestClientView, resolved_url,
};
use crate::error::{CliError, CliErrorView, InvalidNodeError};
use crate::metadata::{map_of, parse_metadata_list, parsed_tokens, Metadata};
use crate::node::{
    built, BuilderView, LocalNodeStatus, LocalNodeStatusView, NodeView, RegistryNodeBuilder,
};
use crate::registry_file::{loaded, upserted, LocalRegistryFile};
use crate::text::{clone_strings, views_of};
use crate::workflow::{
    check_saved, optional_view, optional_views, save_error, supplied, values_of, Effect,
    EffectView, Event, EventView, Settings, SettingsView,
};

verus! {

/// The registry file that is used when none is named.
pub const DEFAULT_OUTPUT_FILE: &'static str = "./nodes.yaml";

/// What the operator asks of the workflow.
#[derive(Debug)]
pub struct GenerateArgs {
    /// The path of the registry file.
    pub file: Option<String>,
    /// The address of the node to ask for its status.
    pub status_url: Option<String>,
    /// The file that holds the private key to obtain the credential with.
    pub private_key_file: Option<String>,
    /// The files that hold the keys of the node.
    pub key_files: Option<Vec<String>>,
    /// The `key=value` tokens of the metadata.
    pub metadata: Option<Vec<String>>,
    /// Whether a record of the same identity may be replaced.
    pub force: bool,
}

/// `GenerateArgs` over character sequences.
pub struct GenerateArgsView {
    pub file: Option<Seq<char>>,
    pub status_url: Option<Seq<char>>,
    pub private_key_file: Option<Seq<char>>,
    pub key_files: Option<Seq<Seq<char>>>,
    pub metadata: Option<Seq<Seq<char>>>,
    pub force: bool,
}

impl View for GenerateArgs {
    type V = GenerateArgsView;

    open spec fn view(&self) -> GenerateArgsView {
        GenerateArgsView {
            file: optional_view(self.file),
            status_url: optional_view(self.status_url),
            private_key_file: optional_view(self.private_key_file),
            key_files: optional_views(self.key_files),
            metadata: optional_views(self.metadata),
            force: self.force,
        }
    }
}

/// How far the workflow has come, and what it holds on to.
pub enum GenerateStageView {
    /// Not begun.
    Idle,
    /// Waiting for the content of the registry file.
    LoadingRegistry,
    /// Waiting for the credential.
    Authorizing { registry: Seq<NodeView> },
    /// Waiting for the status of the node.
    FetchingStatus { registry: Seq<NodeView> },
    /// Waiting for the keys.
    ReadingKeys { registry: Seq<NodeView>, status: LocalNodeStatusView },
    /// Waiting for the file to be written.
    Persisting { identity: Seq<char> },
    /// Ended with success.
    Done,
    /// Ended with an error.
    Failed,
}

/// The state of the workflow over character sequences.
pub struct GenerateView {
    pub args: Option<GenerateArgsView>,
    pub settings: SettingsView,
    pub stage: GenerateStageView,
}

/// The path of the registry file: the one named, else the default one.
pub open spec fn output_path(args: GenerateArgsView) -> Seq<char> {
    match args.file {
        Some(path) => path,
        None => DEFAULT_OUTPUT_FILE@,
    }
}

/// The fields of the record of a node that reports `status`.
pub open spec fn generated_fields(
    status: LocalNodeStatusView,
    keys: Seq<Seq<char>>,
    metadata: Map<Seq<char>, Seq<char>>,
) -> BuilderView {
    BuilderView {
        identity: status.node_id,
        endpoints: status.advertised_endpoints,
        display_name: Some(status.display_name),
        keys: keys,
        metadata: metadata,
    }
}

/// The registry after the node's own record is merged in. Every metadata
/// token must parse, the record must be well-formed, and its identity must
/// be new to the registry unless `force` is set.
pub open spec fn generated(
    registry: Seq<NodeView>,
    status: LocalNodeStatusView,
    keys: Seq<Seq<char>>,
    tokens: Option<Seq<Seq<char>>>,
    force: bool,
) -> Result<Seq<NodeView>, CliErrorView> {
    match parsed_tokens(values_of(tokens)) {
        Err(error) => Err(error),
        Ok(entries) => match built(generated_fields(status, keys, map_of(entries))) {
            Err(error) => Err(CliErrorView::ValidationError(error)),
            Ok(record) => upserted(registry, record, force),
        },
    }
}

/// Assembles the record of the node that reports `status` and merges it
/// into the registry.
pub fn generate_registry(
    registry: LocalRegistryFile,
    status: LocalNodeStatus,
    keys: Vec<String>,
    tokens: &Option<Vec<String>>,
    force: bool,
) -> (merged: Result<LocalRegistryFile, CliError>)
    ensures
        match merged {
            Ok(merged) => generated(
                registry@,
                status@,
                views_of(keys@),
                optional_views(*tokens),
                force,
            ) == Ok::<_, CliErrorView>(merged@),
            Err(error) => generated(
                registry@,
                status@,
                views_of(keys@),
                optional_views(*tokens),
                force,
            ) == Err::<Seq<NodeView>, _>(error@),
        },
{
    let metadata = match tokens {
        Some(tokens) => match parse_metadata_list(tokens) {
            Ok(metadata) => metadata,
            Err(error) => {
                return Err(error);
            },
        },
        None => {
            assert(parsed_tokens(Seq::empty()) == Ok::<_, CliErrorView>(
                Seq::<(Seq<char>, Seq<char>)>::empty(),
            ));
            Metadata::new()
        },
    };
    let builder = RegistryNodeBuilder::new(status.node_id.as_str()).with_endpoints(
        status.advertised_endpoints,
    ).with_display_name(status.display_name).with_keys(keys).with_all_metadata(metadata);
    assert(builder@.endpoints =~= status@.advertised_endpoints);
    assert(builder@.keys =~= views_of(keys@));
    let record = match builder.build() {
        Ok(record) => record,
        Err(error) => {
            return Err(CliError::ValidationError(error));
        },
    };
    let mut registry = registry;
    match registry.upsert(record, force) {
        Ok(()) => Ok(registry),
        Err(error) => Err(error),
    }
}

/// The request for the status of the node.
pub open spec fn status_request(
    args: GenerateArgsView,
    settings: SettingsView,
    auth: Option<Seq<char>>,
) -> RemoteRequestView {
    (SplinterRestClientView {
        url: resolved_url(args.status_url, settings.environment_url),
        auth: auth,
    }).get_node_status()
}

/// What the user is told when the record is in the file.
pub open spec fn added_text(identity: Seq<char>, path: Seq<char>) -> Seq<char> {
    "Added node '"@ + identity + "' to '"@ + path + "'"@
}

/// The state in which the workflow has failed, and the effect that says so.
pub open spec fn generate_failed(state: GenerateView, error: CliErrorView) -> (
    GenerateView,
    EffectView,
) {
    (GenerateView { stage: GenerateStageView::Failed, ..state }, EffectView::Fail { error })
}

/// One step of the workflow: the state after the event, and what is asked
/// of the caller next.
///
/// In order, the workflow loads the registry file, obtains the credential
/// where authentication is configured, asks the node for its status, has the
/// key files read, merges the record and has the file written. The first
/// failure ends it: nothing is asked after it. An event other than the
/// answer to what was asked last ends it too.
pub open spec fn generate_step(state: GenerateView, event: EventView) -> (
    GenerateView,
    EffectView,
) {
    match state.stage {
        GenerateStageView::Done => (state, EffectView::Nothing),
        GenerateStageView::Failed => (state, EffectView::Nothing),
        _ => match state.args {
            None => generate_failed(state, CliErrorView::RequiresArgs),
            Some(args) => match (state.stage, event) {
                (GenerateStageView::Idle, EventView::Started) => (
                    GenerateView { stage: GenerateStageView::LoadingRegistry, ..state },
                    EffectView::LoadRegistry { path: output_path(args) },
                ),
                (
                    GenerateStageView::LoadingRegistry,
                    EventView::RegistryLoaded(content),
                ) => match loaded(output_path(args), content) {
                    Err(error) => generate_failed(state, error),
                    Ok(registry) => if state.settings.authentication {
                        (
                            GenerateView {
                                stage: GenerateStageView::Authorizing { registry },
                                ..state
                            },
                            EffectView::Authorize { key_file: args.private_key_file },
                        )
                    } else {
                        (
                            GenerateView {
                                stage: GenerateStageView::FetchingStatus { registry },
                                ..state
                            },
                            EffectView::Send {
                                request: status_request(args, state.settings, None),
                            },
                        )
                    },
                },
                (
                    GenerateStageView::Authorizing { registry },
                    EventView::Credential(credential),
                ) => match credential {
                    Err(reason) => generate_failed(state, CliErrorView::EnvironmentError(reason)),
                    Ok(token) => (
                        GenerateView {
                            stage: GenerateStageView::FetchingStatus { registry },
                            ..state
                        },
                        EffectView::Send {
                            request: status_request(args, state.settings, Some(token)),
                        },
                    ),
                },
                (
                    GenerateStageView::FetchingStatus { registry },
                    EventView::Replied(reply),
                ) => match interpreted(Operation::GetNodeStatus, reply) {
                    Err(error) => generate_failed(state, error),
                    Ok(RemoteAnswerView::Status(status)) => if supplied(args.key_files) {
                        (
                            GenerateView {
                                stage: GenerateStageView::ReadingKeys { registry, status },
                                ..state
                            },
                            EffectView::ReadKeys { key_files: args.key_files->0 },
                        )
                    } else {
                        generate_failed(
                            state,
                            CliErrorView::ValidationError(InvalidNodeError::MissingKeys),
                        )
                    },
                    Ok(_) => generate_failed(state, CliErrorView::UnexpectedEvent),
                },
                (
                    GenerateStageView::ReadingKeys { registry, status },
                    EventView::KeysRead(keys),
                ) => match keys {
                    Err(reason) => generate_failed(state, CliErrorView::EnvironmentError(reason)),
                    Ok(keys) => match generated(registry, status, keys, args.metadata, args.force) {
                        Err(error) => generate_failed(state, error),
                        Ok(merged) => (
                            GenerateView {
                                stage: GenerateStageView::Persisting { identity: status.node_id },
                                ..state
                            },
                            EffectView::SaveRegistry { path: output_path(args), registry: merged },
                        ),
                    },
                },
                (
                    GenerateStageView::Persisting { identity },
                    EventView::RegistrySaved(outcome),
                ) => match save_error(output_path(args), outcome) {
                    Some(error) => generate_failed(state, error),
                    None => (
                        GenerateView { stage: GenerateStageView::Done, ..state },
                        EffectView::Finish { message: added_text(identity, output_path(args)) },
                    ),
                },
                _ => generate_failed(state, CliErrorView::UnexpectedEvent),
            },
        },
    }
}

/// Once the workflow has ended it asks for nothing more, whatever it is
/// told; and a step that fails ends it.
pub proof fn lemma_generate_ends(state: GenerateView, event: EventView, later: EventView)
    ensures
        generate_step(state, event).1.is_final() ==> generate_step(
            generate_step(state, event).0,
            later,
        ) == (generate_step(state, event).0, EffectView::Nothing),
{
}

/// The file is written only after everything else has succeeded: the write
/// is asked for in answer to the keys alone, with the registry that the
/// merge gave, and no step that fails asks for it.
pub proof fn lemma_generate_writes_last(state: GenerateView, event: EventView)
    ensures
        generate_step(state, event).1 matches EffectView::SaveRegistry { path, registry } ==> {
            &&& state.args is Some
            &&& state.stage is ReadingKeys
            &&& event matches EventView::KeysRead(Ok(keys))
            &&& path == output_path(state.args->0)
            &&& generated(
                state.stage->ReadingKeys_registry,
                state.stage->ReadingKeys_status,
                keys,
                state.args->0.metadata,
                state.args->0.force,
            ) == Ok::<_, CliErrorView>(registry)
        },
{
}

/// After a node's record was merged into a registry, merging a record of
/// the same node again without `force` is refused as a duplicate, whatever
/// its keys and metadata, as long as they make a well-formed record.
pub proof fn lemma_generated_twice(
    registry: Seq<NodeView>,
    status: LocalNodeStatusView,
    keys: Seq<Seq<char>>,
    tokens: Option<Seq<Seq<char>>>,
    force: bool,
    later_keys: Seq<Seq<char>>,
    later_tokens: Option<Seq<Seq<char>>>,
)
    requires
        generated(registry, status, keys, tokens, force) is Ok,
        parsed_tokens(values_of(later_tokens)) matches Ok(entries) && built(
            generated_fields(status, later_keys, map_of(entries)),
        ) is Ok,
    ensures
        generated(
            generated(registry, status, keys, tokens, force)->Ok_0,
            status,
            later_keys,
            later_tokens,
            false,
        ) == Err::<Seq<NodeView>, _>(CliErrorView::DuplicateIdentity(status.node_id)),
{
    let entries = parsed_tokens(values_of(tokens))->Ok_0;
    let record = built(generated_fields(status, keys, map_of(entries)))->Ok_0;
    crate::registry_file::lemma_upserted(registry, record, force);
    let merged = generated(registry, status, keys, tokens, force)->Ok_0;
    let later_entries = parsed_tokens(values_of(later_tokens))->Ok_0;
    let later = built(generated_fields(status, later_keys, map_of(later_entries)))->Ok_0;
    crate::registry_file::lemma_upserted(merged, later, false);
}

enum GenerateStage {
    Idle,
    LoadingRegistry,
    Authorizing { registry: LocalRegistryFile },
    FetchingStatus { registry: LocalRegistryFile },
    ReadingKeys { registry: LocalRegistryFile, status: LocalNodeStatus },
    Persisting { identity: String },
    Done,
    Failed,
}

impl View for GenerateStage {
    type V = GenerateStageView;

    closed spec fn view(&self) -> GenerateStageView {
        match self {
            GenerateStage::Idle => GenerateStageView::Idle,
            GenerateStage::LoadingRegistry => GenerateStageView::LoadingRegistry,
            GenerateStage::Authorizing { registry } => GenerateStageView::Authorizing {
                registry: registry@,
            },
            GenerateStage::FetchingStatus { registry } => GenerateStageView::FetchingStatus {
                registry: registry@,
            },
            GenerateStage::ReadingKeys { registry, status } => GenerateStageView::ReadingKeys {
                registry: registry@,
                status: status@,
            },
            GenerateStage::Persisting { identity } => GenerateStageView::Persisting {
                identity: identity@,
            },
            GenerateStage::Done => GenerateStageView::Done,
            GenerateStage::Failed => GenerateStageView::Failed,
        }
    }
}

/// The workflow that adds the record of the running node to the local
/// registry file.
pub struct RegistryGenerateAction {
    args: Option<GenerateArgs>,
    settings: Settings,
    stage: GenerateStage,
}

impl View for RegistryGenerateAction {
    type V = GenerateView;

    closed spec fn view(&self) -> GenerateView {
        GenerateView {
            args: match self.args {
                Some(args) => Some(args@),
                None => None,
            },
            settings: self.settings@,
            stage: self.stage@,
        }
    }
}

fn output_file(args: &GenerateArgs) -> (path: String)
    ensures
        path@ == output_path(args@),
{
    match &args.file {
        Some(path) => path.clone(),
        None => String::from_str(DEFAULT_OUTPUT_FILE),
    }
}

impl RegistryGenerateAction {
    /// The workflow before it has begun, for these arguments, if any were
    /// given, and these settings.
    pub fn new(args: Option<GenerateArgs>, settings: Settings) -> (action: Self)
        ensures
            action@ == (GenerateView {
                args: match args {
                    Some(args) => Some(args@),
                    None => None,
                },
                settings: settings@,
                stage: GenerateStageView::Idle,
            }),
    {
        RegistryGenerateAction { args, settings, stage: GenerateStage::Idle }
    }

    /// Whether the workflow has ended, with success or with an error.
    pub fn is_over(&self) -> (over: bool)
        ensures
            over == (self@.stage is Done || self@.stage is Failed),
    {
        match self.stage {
            GenerateStage::Done => true,
            GenerateStage::Failed => true,
            _ => false,
        }
    }

    fn fail(args: Option<GenerateArgs>, settings: Settings, error: CliError) -> (next: (
        Self,
        Effect,
    ))
        ensures
            next.0@ == (GenerateView {
                args: match args {
                    Some(args) => Some(args@),
                    None => None,
                },
                settings: settings@,
                stage: GenerateStageView::Failed,
            }),
            next.1@ == (EffectView::Fail { error: error@ }),
    {
        (
            RegistryGenerateAction { args, settings, stage: GenerateStage::Failed },
            Effect::Fail { error },
        )
    }

    fn ask_status(args: GenerateArgs, settings: Settings, registry: LocalRegistryFile, auth: Option<
        String,
    >) -> (next: (Self, Effect))
        ensures
            next.0@ == (GenerateView {
                args: Some(args@),
                settings: settings@,
                stage: GenerateStageView::FetchingStatus { registry: registry@ },
            }),
            next.1@ == (EffectView::Send {
                request: status_request(args@, settings@, optional_view(auth)),
            }),
    {
        let client = new_client(args.status_url.as_ref(), settings.environment_url.as_ref(), auth);
        let request = client.get_node_status();
        (
            RegistryGenerateAction {
                args: Some(args),
                settings,
                stage: GenerateStage::FetchingStatus { registry },
            },
            Effect::Send { request },
        )
    }

    /// Takes the workflow one step: hands it the event, and returns its next
    /// state with what it asks of the caller.
    pub fn run(self, event: Event) -> (next: (Self, Effect))
        ensures
            (next.0@, next.1@) == generate_step(self@, event@),
    {
        let RegistryGenerateAction { args, settings, stage } = self;
        match stage {
            GenerateStage::Done => {
                return (
                    RegistryGenerateAction { args, settings, stage: GenerateStage::Done },
                    Effect::Nothing,
                );
            },
            GenerateStage::Failed => {
                return (
                    RegistryGenerateAction { args, settings, stage: GenerateStage::Failed },
                    Effect::Nothing,
                );
            },
            _ => {},
        }
        let args = match args {
            Some(args) => args,
            None => {
                return Self::fail(None, settings, CliError::RequiresArgs);
            },
        };
        match (stage, event) {
            (GenerateStage::Idle, Event::Started) => {
                let path = output_file(&args);
                (
                    RegistryGenerateAction {
                        args: Some(args),
                        settings,
                        stage: GenerateStage::LoadingRegistry,
                    },
                    Effect::LoadRegistry { path },
                )
            },
            (GenerateStage::LoadingRegistry, Event::RegistryLoaded(content)) => {
                let path = output_file(&args);
                match LocalRegistryFile::load(path.as_str(), content) {
                    Err(error) => Self::fail(Some(args), settings, error),
                    Ok(registry) => {
                        if settings.authentication {
                            let key_file = crate::client::clone_optional(&args.private_key_file);
                            (
                                RegistryGenerateAction {
                                    args: Some(args),
                                    settings,
                                    stage: GenerateStage::Authorizing { registry },
                                },
                                Effect::Authorize { key_file },
                            )
                        } else {
                            Self::ask_status(args, settings, registry, None)
                        }
                    },
                }
            },
            (GenerateStage::Authorizing { registry }, Event::Credential(credential)) => {
                match credential {
                    Err(reason) => Self::fail(
                        Some(args),
                        settings,
                        CliError::EnvironmentError(reason),
                    ),
                    Ok(token) => Self::ask_status(args, settings, registry, Some(token)),
                }
            },
            (GenerateStage::FetchingStatus { registry }, Event::Replied(reply)) => {
                match interpret(Operation::GetNodeStatus, reply) {
                    Err(error) => Self::fail(Some(args), settings, error),
                    Ok(RemoteAnswer::Status(status)) => {
                        let key_files = match &args.key_files {
                            Some(key_files) => clone_strings(key_files),
                            None => Vec::new(),
                        };
                        if key_files.len() > 0 {
                            (
                                RegistryGenerateAction {
                                    args: Some(args),
                                    settings,
                                    stage: GenerateStage::ReadingKeys { registry, status },
                                },
                                Effect::ReadKeys { key_files },
                            )
                        } else {
                            Self::fail(
                                Some(args),
                                settings,
                                CliError::ValidationError(InvalidNodeError::MissingKeys),
                            )
                        }
                    },
                    Ok(_) => Self::fail(Some(args), settings, CliError::UnexpectedEvent),
                }
            },
            (GenerateStage::ReadingKeys { registry, status }, Event::KeysRead(keys)) => {
                match keys {
                    Err(reason) => Self::fail(
                        Some(args),
                        settings,
                        CliError::EnvironmentError(reason),
                    ),
                    Ok(keys) => {
                        let identity = status.node_id.clone();
                        let merged = generate_registry(
                            registry,
                            status,
                            keys,
                            &args.metadata,
                            args.force,
                        );
                        match merged {
                            Err(error) => Self::fail(Some(args), settings, error),
                            Ok(merged) => {
                                let path = output_file(&args);
                                (
                                    RegistryGenerateAction {
                                        args: Some(args),
                                        settings,
                                        stage: GenerateStage::Persisting { identity },
                                    },
                                    Effect::SaveRegistry { path, registry: merged },
                                )
                            },
                        }
                    },
                }
            },
            (GenerateStage::Persisting { identity }, Event::RegistrySaved(outcome)) => {
                let path = output_file(&args);
                match check_saved(path.as_str(), outcome) {
                    Some(error) => Self::fail(Some(args), settings, error),
                    None => {
                        let message = String::from_str("Added node '").concat(
                            identity.as_str(),
                        ).concat("' to '").concat(path.as_str()).concat("'");
                        (
                            RegistryGenerateAction {
                                args: Some(args),
                                settings,
                                stage: GenerateStage::Done,
                            },
                            Effect::Finish { message },
                        )
                    },
                }
            },
            _ => Self::fail(Some(args), settings, CliError::UnexpectedEvent),
        }
    }
}

} // verus!

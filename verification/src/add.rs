//! The workflow by which an operator adds a node record to the remote
//! registry, or updates one. The record is either made of the fields that
//! the operator gives, or of the record that the registry holds, with the
//! operator's fields laid over it.

use vstd::prelude::*;
use crate::client::{
    clone_optional, interpret, interpreted, new_client, resolved_url, Operation, RemoteAnswer,
    RemoteAnswerView, RemoteRequestView, SplinterRestClient, SplinterRestClientView,
};
use crate::error::{CliError, CliErrorView, InvalidNodeError};
use crate::metadata::{map_of, parse_metadata_list, parsed_tokens, Metadata};
use crate::node::{
    built, BuilderView, NodeResponse, NodeResponseView, NodeView, RegistryNode,
    RegistryNodeBuilder,
};
use crate::text::{clone_strings, views_of};
use crate::workflow::{
    optional_view, optional_views, supplied, values_of, Effect, EffectView, Event, EventView,
    Settings, SettingsView,
};

verus! {

/// What the operator asks of the workflow.
#[derive(Debug)]
pub struct AddArgs {
    /// The address of the registry service.
    pub url: Option<String>,
    /// The identity of the node.
    pub identity: Option<String>,
    /// The name to show the node under.
    pub display_name: Option<String>,
    /// The file that holds the private key to obtain the credential with.
    pub private_key_file: Option<String>,
    /// The `key=value` tokens of the metadata.
    pub metadata: Option<Vec<String>>,
    /// Whether to start from the record that the registry holds.
    pub from_remote: bool,
    /// The endpoints of the node.
    pub endpoints: Option<Vec<String>>,
    /// The files that hold the keys of the node.
    pub key_files: Option<Vec<String>>,
    /// Whether to leave the registry as it is and only show the record.
    pub dry_run: bool,
}

/// `AddArgs` over character sequences.
pub struct AddArgsView {
    pub url: Option<Seq<char>>,
    pub identity: Option<Seq<char>>,
    pub display_name: Option<Seq<char>>,
    pub private_key_file: Option<Seq<char>>,
    pub metadata: Option<Seq<Seq<char>>>,
    pub from_remote: bool,
    pub endpoints: Option<Seq<Seq<char>>>,
    pub key_files: Option<Seq<Seq<char>>>,
    pub dry_run: bool,
}

impl View for AddArgs {
    type V = AddArgsView;

    open spec fn view(&self) -> AddArgsView {
        AddArgsView {
            url: optional_view(self.url),
            identity: optional_view(self.identity),
            display_name: optional_view(self.display_name),
            private_key_file: optional_view(self.private_key_file),
            metadata: optional_views(self.metadata),
            from_remote: self.from_remote,
            endpoints: optional_views(self.endpoints),
            key_files: optional_views(self.key_files),
            dry_run: self.dry_run,
        }
    }
}

/// How far the workflow has come, and what it holds on to.
pub enum AddStageView {
    /// Not begun.
    Idle,
    /// Waiting for the credential.
    Authorizing,
    /// Waiting for the record that the registry holds.
    FetchingNode { client: SplinterRestClientView, metadata: Map<Seq<char>, Seq<char>> },
    /// Waiting for the keys.
    ReadingKeys {
        client: SplinterRestClientView,
        fetched: Option<NodeResponseView>,
        metadata: Map<Seq<char>, Seq<char>>,
    },
    /// Waiting for the registry to take the record.
    Calling { record: NodeView },
    /// Ended with success.
    Done,
    /// Ended with an error.
    Failed,
}

/// The state of the workflow over character sequences.
pub struct AddView {
    pub args: Option<AddArgsView>,
    pub settings: SettingsView,
    pub stage: AddStageView,
}

/// The name to show the node under: the one that the operator gives, else
/// the identity that the operator gives.
pub open spec fn operator_display_name(args: AddArgsView, identity: Seq<char>) -> Seq<char> {
    match args.display_name {
        Some(name) => name,
        None => identity,
    }
}

/// The fields of a record that is made of what the operator gives.
pub open spec fn explicit_fields(
    args: AddArgsView,
    identity: Seq<char>,
    keys: Seq<Seq<char>>,
    metadata: Map<Seq<char>, Seq<char>>,
) -> BuilderView {
    BuilderView {
        identity: identity,
        endpoints: values_of(args.endpoints),
        display_name: Some(operator_display_name(args, identity)),
        keys: keys,
        metadata: metadata,
    }
}

/// The fields of a record that the registry holds, with what the operator
/// gives laid over them. Endpoints, keys and metadata are each replaced as
/// a whole where the operator gave any, and kept where not. The display name
/// is always the operator's, whatever the registry holds.
pub open spec fn layered_fields(
    args: AddArgsView,
    identity: Seq<char>,
    fetched: NodeResponseView,
    keys: Option<Seq<Seq<char>>>,
    metadata: Map<Seq<char>, Seq<char>>,
) -> BuilderView {
    BuilderView {
        identity: fetched.identity,
        endpoints: if supplied(args.endpoints) {
            args.endpoints->0
        } else {
            fetched.endpoints
        },
        display_name: Some(operator_display_name(args, identity)),
        keys: match keys {
            Some(keys) => keys,
            None => fetched.keys,
        },
        metadata: if supplied(args.metadata) {
            metadata
        } else {
            fetched.metadata
        },
    }
}

/// The fields of the record to report: laid over the fetched record where
/// there is one, else made of what the operator gives.
pub open spec fn assembled_fields(
    args: AddArgsView,
    identity: Seq<char>,
    fetched: Option<NodeResponseView>,
    keys: Option<Seq<Seq<char>>>,
    metadata: Map<Seq<char>, Seq<char>>,
) -> BuilderView {
    match fetched {
        Some(fetched) => layered_fields(args, identity, fetched, keys, metadata),
        None => explicit_fields(args, identity, values_of(keys), metadata),
    }
}

/// The request that hands a record to the registry: an update where the
/// workflow started from the registry's record, else an addition.
pub open spec fn write_request(
    args: AddArgsView,
    client: SplinterRestClientView,
    record: NodeView,
) -> RemoteRequestView {
    if args.from_remote {
        client.update_node(record)
    } else {
        client.add_node(record)
    }
}

/// The operation of `write_request`.
pub open spec fn write_operation(args: AddArgsView) -> Operation {
    if args.from_remote {
        Operation::UpdateNode
    } else {
        Operation::AddNode
    }
}

/// The state in which the workflow has failed, and the effect that says so.
pub open spec fn add_failed(
    args: Option<AddArgsView>,
    settings: SettingsView,
    error: CliErrorView,
) -> (AddView, EffectView) {
    (AddView { args, settings, stage: AddStageView::Failed }, EffectView::Fail { error })
}

/// What follows once the fields are together: the record is validated and,
/// unless this is a dry run, handed to the registry. A dry run ends here
/// with the record that would have been handed over.
pub open spec fn add_assembled(
    args: AddArgsView,
    settings: SettingsView,
    client: SplinterRestClientView,
    fields: BuilderView,
) -> (AddView, EffectView) {
    match built(fields) {
        Err(error) => add_failed(Some(args), settings, CliErrorView::ValidationError(error)),
        Ok(record) => if args.dry_run {
            (
                AddView { args: Some(args), settings, stage: AddStageView::Done },
                EffectView::Report { record },
            )
        } else {
            (
                AddView { args: Some(args), settings, stage: AddStageView::Calling { record } },
                EffectView::Send { request: write_request(args, client, record) },
            )
        },
    }
}

/// What follows once the credential is settled: the metadata tokens are
/// parsed, and then either the registry's record is asked for, or the
/// operator's endpoints and key files are required and the keys asked for.
pub open spec fn add_prepared(
    args: AddArgsView,
    settings: SettingsView,
    identity: Seq<char>,
    auth: Option<Seq<char>>,
) -> (AddView, EffectView) {
    let client = SplinterRestClientView {
        url: resolved_url(args.url, settings.environment_url),
        auth: auth,
    };
    match parsed_tokens(values_of(args.metadata)) {
        Err(error) => add_failed(Some(args), settings, error),
        Ok(entries) => if args.from_remote {
            (
                AddView {
                    args: Some(args),
                    settings,
                    stage: AddStageView::FetchingNode { client, metadata: map_of(entries) },
                },
                EffectView::Send { request: client.get_node(identity) },
            )
        } else if !supplied(args.endpoints) {
            add_failed(
                Some(args),
                settings,
                CliErrorView::ValidationError(InvalidNodeError::MissingEndpoints),
            )
        } else if !supplied(args.key_files) {
            add_failed(
                Some(args),
                settings,
                CliErrorView::ValidationError(InvalidNodeError::MissingKeys),
            )
        } else {
            (
                AddView {
                    args: Some(args),
                    settings,
                    stage: AddStageView::ReadingKeys {
                        client,
                        fetched: None,
                        metadata: map_of(entries),
                    },
                },
                EffectView::ReadKeys { key_files: args.key_files->0 },
            )
        },
    }
}

/// One step of the workflow: the state after the event, and what is asked
/// of the caller next.
///
/// In order, the workflow obtains the credential where authentication is
/// configured, parses the metadata, fetches the registry's record where it
/// is to start from it (that the registry holds none ends the workflow),
/// has the key files read where any were given, validates the record and,
/// unless this is a dry run, hands it to the registry. It ends by reporting
/// the record. The first failure ends it: nothing is asked after it. An
/// event other than the answer to what was asked last ends it too.
pub open spec fn add_step(state: AddView, event: EventView) -> (AddView, EffectView) {
    match state.stage {
        AddStageView::Done => (state, EffectView::Nothing),
        AddStageView::Failed => (state, EffectView::Nothing),
        _ => match state.args {
            None => add_failed(state.args, state.settings, CliErrorView::RequiresArgs),
            Some(args) => match args.identity {
                None => add_failed(
                    state.args,
                    state.settings,
                    CliErrorView::ValidationError(InvalidNodeError::EmptyIdentity),
                ),
                Some(identity) => match (state.stage, event) {
                    (AddStageView::Idle, EventView::Started) => if state.settings.authentication {
                        (
                            AddView { stage: AddStageView::Authorizing, ..state },
                            EffectView::Authorize { key_file: args.private_key_file },
                        )
                    } else {
                        add_prepared(args, state.settings, identity, None)
                    },
                    (
                        AddStageView::Authorizing,
                        EventView::Credential(credential),
                    ) => match credential {
                        Err(reason) => add_failed(
                            state.args,
                            state.settings,
                            CliErrorView::EnvironmentError(reason),
                        ),
                        Ok(token) => add_prepared(args, state.settings, identity, Some(token)),
                    },
                    (
                        AddStageView::FetchingNode { client, metadata },
                        EventView::Replied(reply),
                    ) => match interpreted(Operation::GetNode, reply) {
                        Err(error) => add_failed(state.args, state.settings, error),
                        Ok(RemoteAnswerView::Node(None)) => add_failed(
                            state.args,
                            state.settings,
                            CliErrorView::NotFoundError(identity),
                        ),
                        Ok(RemoteAnswerView::Node(Some(fetched))) => if supplied(args.key_files) {
                            (
                                AddView {
                                    stage: AddStageView::ReadingKeys {
                                        client,
                                        fetched: Some(fetched),
                                        metadata,
                                    },
                                    ..state
                                },
                                EffectView::ReadKeys { key_files: args.key_files->0 },
                            )
                        } else {
                            add_assembled(
                                args,
                                state.settings,
                                client,
                                assembled_fields(args, identity, Some(fetched), None, metadata),
                            )
                        },
                        Ok(_) => add_failed(
                            state.args,
                            state.settings,
                            CliErrorView::UnexpectedEvent,
                        ),
                    },
                    (
                        AddStageView::ReadingKeys { client, fetched, metadata },
                        EventView::KeysRead(keys),
                    ) => match keys {
                        Err(reason) => add_failed(
                            state.args,
                            state.settings,
                            CliErrorView::EnvironmentError(reason),
                        ),
                        Ok(keys) => add_assembled(
                            args,
                            state.settings,
                            client,
                            assembled_fields(args, identity, fetched, Some(keys), metadata),
                        ),
                    },
                    (
                        AddStageView::Calling { record },
                        EventView::Replied(reply),
                    ) => match interpreted(write_operation(args), reply) {
                        Err(error) => add_failed(state.args, state.settings, error),
                        Ok(_) => (
                            AddView { stage: AddStageView::Done, ..state },
                            EffectView::Report { record },
                        ),
                    },
                    _ => add_failed(state.args, state.settings, CliErrorView::UnexpectedEvent),
                },
            },
        },
    }
}

/// With nothing laid over it, the fetched record comes back as it is, but
/// for the display name, which is the operator's: the name given, else the
/// identity given. A fetched record that is well-formed stays so.
pub proof fn lemma_no_overrides_keep_fetched(
    args: AddArgsView,
    identity: Seq<char>,
    fetched: NodeResponseView,
    metadata: Map<Seq<char>, Seq<char>>,
)
    requires
        !supplied(args.endpoints),
        !supplied(args.metadata),
    ensures
        built(crate::node::fields_of(fetched)) is Ok <==> built(
            layered_fields(args, identity, fetched, None, metadata),
        ) is Ok,
        built(layered_fields(args, identity, fetched, None, metadata)) matches Ok(record) ==> {
            &&& record.identity == fetched.identity
            &&& record.endpoints == fetched.endpoints
            &&& record.keys == fetched.keys
            &&& record.metadata == fetched.metadata
            &&& record.display_name == operator_display_name(args, identity)
        },
{
}

/// In the workflow itself: when the registry answers with a well-formed
/// record and the operator has given no endpoints, key files or metadata,
/// the record that goes on is the fetched one with the operator's display
/// name. It is reported at once in a dry run, else sent as an update.
pub proof fn lemma_from_remote_without_overrides(
    state: AddView,
    reply: crate::client::RemoteReplyView,
    fetched: NodeResponseView,
)
    requires
        state.stage is FetchingNode,
        state.args matches Some(args) && args.identity is Some && !supplied(args.endpoints)
            && !supplied(args.key_files) && !supplied(args.metadata),
        interpreted(Operation::GetNode, reply) == Ok::<_, CliErrorView>(
            RemoteAnswerView::Node(Some(fetched)),
        ),
        built(crate::node::fields_of(fetched)) is Ok,
    ensures
        ({
            let args = state.args->0;
            let client = state.stage->FetchingNode_client;
            let record = NodeView {
                display_name: operator_display_name(args, args.identity->0),
                ..built(crate::node::fields_of(fetched))->Ok_0
            };
            add_step(state, EventView::Replied(reply)) == if args.dry_run {
                (AddView { stage: AddStageView::Done, ..state }, EffectView::Report { record })
            } else {
                (
                    AddView { stage: AddStageView::Calling { record }, ..state },
                    EffectView::Send { request: write_request(args, client, record) },
                )
            }
        }),
{
    let args = state.args->0;
    lemma_no_overrides_keep_fetched(
        args,
        args.identity->0,
        fetched,
        state.stage->FetchingNode_metadata,
    );
}

/// In the workflow itself: once the keys are read for a record that the
/// operator gives in full, a dry run ends with that record and sends
/// nothing, where without it the same record is sent as an addition.
pub proof fn lemma_explicit_dry_run(state: AddView, keys: Seq<Seq<char>>)
    requires
        state.stage matches AddStageView::ReadingKeys { fetched, .. } && fetched is None,
        state.args matches Some(args) && args.identity is Some && !args.from_remote,
        built(
            explicit_fields(
                state.args->0,
                state.args->0.identity->0,
                keys,
                state.stage->ReadingKeys_metadata,
            ),
        ) is Ok,
    ensures
        ({
            let args = state.args->0;
            let client = state.stage->ReadingKeys_client;
            let record = built(
                explicit_fields(args, args.identity->0, keys, state.stage->ReadingKeys_metadata),
            )->Ok_0;
            add_step(state, EventView::KeysRead(Ok(keys))) == if args.dry_run {
                (AddView { stage: AddStageView::Done, ..state }, EffectView::Report { record })
            } else {
                (
                    AddView { stage: AddStageView::Calling { record }, ..state },
                    EffectView::Send { request: client.add_node(record) },
                )
            }
        }),
{
}

/// A dry run asks for nothing that changes the registry, in any state and
/// on any event.
pub proof fn lemma_dry_run_changes_nothing(state: AddView, event: EventView)
    requires
        state.args matches Some(args) && args.dry_run,
    ensures
        !add_step(state, event).1.is_mutation(),
        add_step(state, event).0.args == state.args,
{
}

/// A dry run still reports: once the fields are together and make a
/// well-formed record, the workflow ends with that record, as it would have
/// after the registry took it.
pub proof fn lemma_dry_run_reports(
    args: AddArgsView,
    settings: SettingsView,
    client: SplinterRestClientView,
    fields: BuilderView,
)
    requires
        args.dry_run,
        built(fields) is Ok,
    ensures
        add_assembled(args, settings, client, fields) == (
            AddView { args: Some(args), settings, stage: AddStageView::Done },
            EffectView::Report { record: built(fields)->Ok_0 },
        ),
{
}

/// Once the workflow has ended it asks for nothing more, whatever it is
/// told; and a step that fails ends it.
pub proof fn lemma_add_ends(state: AddView, event: EventView, later: EventView)
    ensures
        add_step(state, event).1.is_final() ==> add_step(add_step(state, event).0, later) == (
            add_step(state, event).0,
            EffectView::Nothing,
        ),
{
}

enum AddStage {
    Idle,
    Authorizing,
    FetchingNode { client: SplinterRestClient, metadata: Metadata },
    ReadingKeys { client: SplinterRestClient, fetched: Option<NodeResponse>, metadata: Metadata },
    Calling { record: RegistryNode },
    Done,
    Failed,
}

impl View for AddStage {
    type V = AddStageView;

    closed spec fn view(&self) -> AddStageView {
        match self {
            AddStage::Idle => AddStageView::Idle,
            AddStage::Authorizing => AddStageView::Authorizing,
            AddStage::FetchingNode { client, metadata } => AddStageView::FetchingNode {
                client: client@,
                metadata: metadata@,
            },
            AddStage::ReadingKeys { client, fetched, metadata } => AddStageView::ReadingKeys {
                client: client@,
                fetched: match fetched {
                    Some(fetched) => Some(fetched@),
                    None => None,
                },
                metadata: metadata@,
            },
            AddStage::Calling { record } => AddStageView::Calling { record: record@ },
            AddStage::Done => AddStageView::Done,
            AddStage::Failed => AddStageView::Failed,
        }
    }
}

/// The workflow that adds a node record to the remote registry, or updates
/// one.
pub struct RegistryAddAction {
    args: Option<AddArgs>,
    settings: Settings,
    stage: AddStage,
}

impl View for RegistryAddAction {
    type V = AddView;

    closed spec fn view(&self) -> AddView {
        AddView {
            args: match self.args {
                Some(args) => Some(args@),
                None => None,
            },
            settings: self.settings@,
            stage: self.stage@,
        }
    }
}

/// Copies the values that the operator gave, or none.
fn given_values(values: &Option<Vec<String>>) -> (copy: Vec<String>)
    ensures
        views_of(copy@) == values_of(optional_views(*values)),
        copy@.len() > 0 <==> supplied(optional_views(*values)),
{
    match values {
        Some(values) => {
            let copy = clone_strings(values);
            assert(views_of(copy@).len() == views_of(values@).len());
            copy
        },
        None => {
            let copy: Vec<String> = Vec::new();
            assert(views_of(copy@) =~= Seq::<Seq<char>>::empty());
            copy
        },
    }
}

/// Makes the builder of the record to report.
fn assemble(
    args: &AddArgs,
    identity: &String,
    fetched: Option<NodeResponse>,
    keys: Option<Vec<String>>,
    metadata: Metadata,
) -> (builder: RegistryNodeBuilder)
    ensures
        builder@ == assembled_fields(
            args@,
            identity@,
            match fetched {
                Some(fetched) => Some(fetched@),
                None => None,
            },
            optional_views(keys),
            metadata@,
        ),
{
    let display_name = match &args.display_name {
        Some(name) => name.clone(),
        None => identity.clone(),
    };
    let endpoints = given_values(&args.endpoints);
    match fetched {
        Some(fetched) => {
            let endpoints = if endpoints.len() > 0 {
                endpoints
            } else {
                fetched.endpoints
            };
            let keys = match keys {
                Some(keys) => keys,
                None => fetched.keys,
            };
            let tokens = given_values(&args.metadata);
            let metadata = if tokens.len() > 0 {
                metadata
            } else {
                fetched.metadata
            };
            let builder = RegistryNodeBuilder::new(fetched.identity.as_str()).with_endpoints(
                endpoints,
            ).with_display_name(display_name).with_keys(keys).with_all_metadata(metadata);
            assert(builder@.endpoints =~= views_of(endpoints@));
            assert(builder@.keys =~= views_of(keys@));
            builder
        },
        None => {
            let keys = match keys {
                Some(keys) => keys,
                None => {
                    let keys: Vec<String> = Vec::new();
                    assert(views_of(keys@) =~= Seq::<Seq<char>>::empty());
                    keys
                },
            };
            let builder = RegistryNodeBuilder::new(identity.as_str()).with_endpoints(
                endpoints,
            ).with_display_name(display_name).with_keys(keys).with_all_metadata(metadata);
            assert(builder@.endpoints =~= views_of(endpoints@));
            assert(builder@.keys =~= views_of(keys@));
            builder
        },
    }
}

impl RegistryAddAction {
    /// The workflow before it has begun, for these arguments, if any were
    /// given, and these settings.
    pub fn new(args: Option<AddArgs>, settings: Settings) -> (action: Self)
        ensures
            action@ == (AddView {
                args: match args {
                    Some(args) => Some(args@),
                    None => None,
                },
                settings: settings@,
                stage: AddStageView::Idle,
            }),
    {
        RegistryAddAction { args, settings, stage: AddStage::Idle }
    }

    /// Whether the workflow has ended, with success or with an error.
    pub fn is_over(&self) -> (over: bool)
        ensures
            over == (self@.stage is Done || self@.stage is Failed),
    {
        match self.stage {
            AddStage::Done => true,
            AddStage::Failed => true,
            _ => false,
        }
    }

    fn fail(args: Option<AddArgs>, settings: Settings, error: CliError) -> (next: (Self, Effect))
        ensures
            next.0@ == (AddView {
                args: match args {
                    Some(args) => Some(args@),
                    None => None,
                },
                settings: settings@,
                stage: AddStageView::Failed,
            }),
            next.1@ == (EffectView::Fail { error: error@ }),
    {
        (RegistryAddAction { args, settings, stage: AddStage::Failed }, Effect::Fail { error })
    }

    fn prepared(
        args: AddArgs,
        settings: Settings,
        identity: String,
        auth: Option<String>,
    ) -> (next: (Self, Effect))
        requires
            args@.identity == Some(identity@),
        ensures
            (next.0@, next.1@) == add_prepared(args@, settings@, identity@, optional_view(auth)),
    {
        let client = new_client(args.url.as_ref(), settings.environment_url.as_ref(), auth);
        let tokens = given_values(&args.metadata);
        let metadata = match parse_metadata_list(&tokens) {
            Ok(metadata) => metadata,
            Err(error) => {
                return Self::fail(Some(args), settings, error);
            },
        };
        if args.from_remote {
            let request = client.get_node(identity.as_str());
            return (
                RegistryAddAction {
                    args: Some(args),
                    settings,
                    stage: AddStage::FetchingNode { client, metadata },
                },
                Effect::Send { request },
            );
        }
        let endpoints = given_values(&args.endpoints);
        if endpoints.len() == 0 {
            return Self::fail(
                Some(args),
                settings,
                CliError::ValidationError(InvalidNodeError::MissingEndpoints),
            );
        }
        let key_files = given_values(&args.key_files);
        if key_files.len() == 0 {
            return Self::fail(
                Some(args),
                settings,
                CliError::ValidationError(InvalidNodeError::MissingKeys),
            );
        }
        (
            RegistryAddAction {
                args: Some(args),
                settings,
                stage: AddStage::ReadingKeys { client, fetched: None, metadata },
            },
            Effect::ReadKeys { key_files },
        )
    }

    fn assembled(
        args: AddArgs,
        settings: Settings,
        client: SplinterRestClient,
        builder: RegistryNodeBuilder,
    ) -> (next: (Self, Effect))
        ensures
            (next.0@, next.1@) == add_assembled(args@, settings@, client@, builder@),
    {
        let record = match builder.build() {
            Ok(record) => record,
            Err(error) => {
                return Self::fail(Some(args), settings, CliError::ValidationError(error));
            },
        };
        if args.dry_run {
            return (
                RegistryAddAction { args: Some(args), settings, stage: AddStage::Done },
                Effect::Report { record },
            );
        }
        let request = if args.from_remote {
            client.update_node(&record)
        } else {
            client.add_node(&record)
        };
        (
            RegistryAddAction { args: Some(args), settings, stage: AddStage::Calling { record } },
            Effect::Send { request },
        )
    }

    /// Takes the workflow one step: hands it the event, and returns its next
    /// state with what it asks of the caller.
    pub fn run(self, event: Event) -> (next: (Self, Effect))
        ensures
            (next.0@, next.1@) == add_step(self@, event@),
    {
        let RegistryAddAction { args, settings, stage } = self;
        match stage {
            AddStage::Done => {
                return (
                    RegistryAddAction { args, settings, stage: AddStage::Done },
                    Effect::Nothing,
                );
            },
            AddStage::Failed => {
                return (
                    RegistryAddAction { args, settings, stage: AddStage::Failed },
                    Effect::Nothing,
                );
            },
            _ => {},
        }
        let args = match args {
            Some(args) => args,
            None => {
                return Self::fail(None, settings, CliError::RequiresArgs);
            },
        };
        let identity = match &args.identity {
            Some(identity) => identity.clone(),
            None => {
                return Self::fail(
                    Some(args),
                    settings,
                    CliError::ValidationError(InvalidNodeError::EmptyIdentity),
                );
            },
        };
        match (stage, event) {
            (AddStage::Idle, Event::Started) => {
                if settings.authentication {
                    let key_file = clone_optional(&args.private_key_file);
                    (
                        RegistryAddAction {
                            args: Some(args),
                            settings,
                            stage: AddStage::Authorizing,
                        },
                        Effect::Authorize { key_file },
                    )
                } else {
                    Self::prepared(args, settings, identity, None)
                }
            },
            (AddStage::Authorizing, Event::Credential(credential)) => {
                match credential {
                    Err(reason) => Self::fail(
                        Some(args),
                        settings,
                        CliError::EnvironmentError(reason),
                    ),
                    Ok(token) => Self::prepared(args, settings, identity, Some(token)),
                }
            },
            (AddStage::FetchingNode { client, metadata }, Event::Replied(reply)) => {
                match interpret(Operation::GetNode, reply) {
                    Err(error) => Self::fail(Some(args), settings, error),
                    Ok(RemoteAnswer::Node(None)) => Self::fail(
                        Some(args),
                        settings,
                        CliError::NotFoundError(identity),
                    ),
                    Ok(RemoteAnswer::Node(Some(fetched))) => {
                        let key_files = given_values(&args.key_files);
                        if key_files.len() > 0 {
                            (
                                RegistryAddAction {
                                    args: Some(args),
                                    settings,
                                    stage: AddStage::ReadingKeys {
                                        client,
                                        fetched: Some(fetched),
                                        metadata,
                                    },
                                },
                                Effect::ReadKeys { key_files },
                            )
                        } else {
                            let builder = assemble(&args, &identity, Some(fetched), None, metadata);
                            Self::assembled(args, settings, client, builder)
                        }
                    },
                    Ok(_) => Self::fail(Some(args), settings, CliError::UnexpectedEvent),
                }
            },
            (AddStage::ReadingKeys { client, fetched, metadata }, Event::KeysRead(keys)) => {
                match keys {
                    Err(reason) => Self::fail(
                        Some(args),
                        settings,
                        CliError::EnvironmentError(reason),
                    ),
                    Ok(keys) => {
                        let builder = assemble(&args, &identity, fetched, Some(keys), metadata);
                        Self::assembled(args, settings, client, builder)
                    },
                }
            },
            (AddStage::Calling { record }, Event::Replied(reply)) => {
                let operation = if args.from_remote {
                    Operation::UpdateNode
                } else {
                    Operation::AddNode
                };
                match interpret(operation, reply) {
                    Err(error) => Self::fail(Some(args), settings, error),
                    Ok(_) => (
                        RegistryAddAction { args: Some(args), settings, stage: AddStage::Done },
                        Effect::Report { record },
                    ),
                }
            },
            _ => Self::fail(Some(args), settings, CliError::UnexpectedEvent),
        }
    }
}

} // verus!

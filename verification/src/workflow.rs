//! What the workflows and their caller say to each other. A workflow does
//! no outside work itself: it names the work as an `Effect`, the caller
//! performs it and hands the result back as an `Event`.

use vstd::prelude::*;
use crate::client::{RemoteReply, RemoteReplyView, RemoteRequest, RemoteRequestView};
use crate::error::{CliError, CliErrorView, IoFailure};
use crate::node::{NodeView, RegistryNode};
use crate::registry_file::{FileContent, FileContentView, LocalRegistryFile};
use crate::text::views_of;

verus! {

/// What is configured when the program starts.
#[derive(Debug)]
pub struct Settings {
    /// The address of the registry service that the environment names.
    pub environment_url: Option<String>,
    /// Whether requests carry a credential.
    pub authentication: bool,
}

/// `Settings` over character sequences.
pub struct SettingsView {
    pub environment_url: Option<Seq<char>>,
    pub authentication: bool,
}

/// The character sequence of a string that may be missing.
pub open spec fn optional_view(value: Option<String>) -> Option<Seq<char>> {
    match value {
        Some(text) => Some(text@),
        None => None,
    }
}

/// The character sequences of a list of strings that may be missing.
pub open spec fn optional_views(value: Option<Vec<String>>) -> Option<Seq<Seq<char>>> {
    match value {
        Some(items) => Some(views_of(items@)),
        None => None,
    }
}

/// Whether the operator gave at least one value.
pub open spec fn supplied(values: Option<Seq<Seq<char>>>) -> bool {
    values is Some && values->0.len() > 0
}

/// The values that the operator gave, or none.
pub open spec fn values_of(values: Option<Seq<Seq<char>>>) -> Seq<Seq<char>> {
    match values {
        Some(values) => values,
        None => Seq::empty(),
    }
}

impl View for Settings {
    type V = SettingsView;

    open spec fn view(&self) -> SettingsView {
        SettingsView {
            environment_url: optional_view(self.environment_url),
            authentication: self.authentication,
        }
    }
}

/// How writing the registry file went.
#[derive(Debug)]
pub enum SaveOutcome {
    /// The file holds the records and ends in a line break.
    Saved,
    /// The records could not be put into the file's format.
    NotSerialized(String),
    /// The file could not be created or overwritten.
    NotCreated(IoFailure),
    /// The file could not be written to.
    NotWritten(IoFailure),
}

/// A `SaveOutcome` over character sequences.
pub enum SaveOutcomeView {
    Saved,
    NotSerialized(Seq<char>),
    NotCreated(IoFailure),
    NotWritten(IoFailure),
}

impl View for SaveOutcome {
    type V = SaveOutcomeView;

    open spec fn view(&self) -> SaveOutcomeView {
        match self {
            SaveOutcome::Saved => SaveOutcomeView::Saved,
            SaveOutcome::NotSerialized(reason) => SaveOutcomeView::NotSerialized(reason@),
            SaveOutcome::NotCreated(failure) => SaveOutcomeView::NotCreated(*failure),
            SaveOutcome::NotWritten(failure) => SaveOutcomeView::NotWritten(*failure),
        }
    }
}

/// The error that a failed save of the file at `path` is reported as, if it
/// failed. Each is an error of the environment.
pub open spec fn save_error(path: Seq<char>, outcome: SaveOutcomeView) -> Option<CliErrorView> {
    match outcome {
        SaveOutcomeView::Saved => None,
        SaveOutcomeView::NotSerialized(reason) => Some(
            CliErrorView::EnvironmentError("Cannot format node list into yaml: "@ + reason),
        ),
        SaveOutcomeView::NotCreated(failure) => Some(
            CliErrorView::EnvironmentError(
                "Failed to create or overwrite '"@ + path + "': "@ + failure.text(),
            ),
        ),
        SaveOutcomeView::NotWritten(failure) => Some(
            CliErrorView::EnvironmentError(
                "Failed to write to file '"@ + path + "': "@ + failure.text(),
            ),
        ),
    }
}

/// Tells the error that a save of the file at `path` is reported as, if it
/// failed.
pub fn check_saved(path: &str, outcome: SaveOutcome) -> (error: Option<CliError>)
    ensures
        match error {
            Some(error) => save_error(path@, outcome@) == Some(error@),
            None => save_error(path@, outcome@) is None,
        },
{
    match outcome {
        SaveOutcome::Saved => None,
        SaveOutcome::NotSerialized(reason) => Some(
            CliError::EnvironmentError(
                String::from_str("Cannot format node list into yaml: ").concat(reason.as_str()),
            ),
        ),
        SaveOutcome::NotCreated(failure) => Some(
            CliError::EnvironmentError(
                String::from_str("Failed to create or overwrite '").concat(path).concat(
                    "': ",
                ).concat(failure.as_str()),
            ),
        ),
        SaveOutcome::NotWritten(failure) => Some(
            CliError::EnvironmentError(
                String::from_str("Failed to write to file '").concat(path).concat("': ").concat(
                    failure.as_str(),
                ),
            ),
        ),
    }
}

/// What the caller reports to a workflow.
#[derive(Debug)]
pub enum Event {
    /// The workflow is to begin.
    Started,
    /// The credential that was obtained, or why none was.
    Credential(Result<String, String>),
    /// What was found at the path of the registry file.
    RegistryLoaded(FileContent),
    /// The keys that the key files hold, in the order of the files, or why
    /// one could not be read.
    KeysRead(Result<Vec<String>, String>),
    /// What came back for the request.
    Replied(RemoteReply),
    /// How writing the registry file went.
    RegistrySaved(SaveOutcome),
}

/// An `Event` over character sequences.
pub enum EventView {
    Started,
    Credential(Result<Seq<char>, Seq<char>>),
    RegistryLoaded(FileContentView),
    KeysRead(Result<Seq<Seq<char>>, Seq<char>>),
    Replied(RemoteReplyView),
    RegistrySaved(SaveOutcomeView),
}

impl View for Event {
    type V = EventView;

    open spec fn view(&self) -> EventView {
        match self {
            Event::Started => EventView::Started,
            Event::Credential(credential) => EventView::Credential(
                match credential {
                    Ok(token) => Ok(token@),
                    Err(reason) => Err(reason@),
                },
            ),
            Event::RegistryLoaded(content) => EventView::RegistryLoaded(content@),
            Event::KeysRead(keys) => EventView::KeysRead(
                match keys {
                    Ok(keys) => Ok(views_of(keys@)),
                    Err(reason) => Err(reason@),
                },
            ),
            Event::Replied(reply) => EventView::Replied(reply@),
            Event::RegistrySaved(outcome) => EventView::RegistrySaved(outcome@),
        }
    }
}

/// What a workflow asks of its caller. The first five name outside work,
/// each answered by one event; the others end the workflow.
#[derive(Debug)]
pub enum Effect {
    /// Obtain the credential, with the private key of this file or the
    /// default one. Answered by `Event::Credential`.
    Authorize { key_file: Option<String> },
    /// Read the registry file at this path. Answered by
    /// `Event::RegistryLoaded`.
    LoadRegistry { path: String },
    /// Read the key that each of these files holds. Answered by
    /// `Event::KeysRead`.
    ReadKeys { key_files: Vec<String> },
    /// Send this request. Answered by `Event::Replied`.
    Send { request: RemoteRequest },
    /// Write these records to the file at this path, in place of what it
    /// holds. Answered by `Event::RegistrySaved`.
    SaveRegistry { path: String, registry: LocalRegistryFile },
    /// The workflow has succeeded; this is what to tell the user.
    Finish { message: String },
    /// The workflow has succeeded; this is the record to show the user.
    Report { record: RegistryNode },
    /// The workflow has failed with this error.
    Fail { error: CliError },
    /// The workflow had ended before; nothing is asked.
    Nothing,
}

/// An `Effect` over character sequences.
pub enum EffectView {
    Authorize { key_file: Option<Seq<char>> },
    LoadRegistry { path: Seq<char> },
    ReadKeys { key_files: Seq<Seq<char>> },
    Send { request: RemoteRequestView },
    SaveRegistry { path: Seq<char>, registry: Seq<NodeView> },
    Finish { message: Seq<char> },
    Report { record: NodeView },
    Fail { error: CliErrorView },
    Nothing,
}

impl View for Effect {
    type V = EffectView;

    open spec fn view(&self) -> EffectView {
        match self {
            Effect::Authorize { key_file } => EffectView::Authorize {
                key_file: optional_view(*key_file),
            },
            Effect::LoadRegistry { path } => EffectView::LoadRegistry { path: path@ },
            Effect::ReadKeys { key_files } => EffectView::ReadKeys {
                key_files: views_of(key_files@),
            },
            Effect::Send { request } => EffectView::Send { request: request@ },
            Effect::SaveRegistry { path, registry } => EffectView::SaveRegistry {
                path: path@,
                registry: registry@,
            },
            Effect::Finish { message } => EffectView::Finish { message: message@ },
            Effect::Report { record } => EffectView::Report { record: record@ },
            Effect::Fail { error } => EffectView::Fail { error: error@ },
            Effect::Nothing => EffectView::Nothing,
        }
    }
}

impl EffectView {
    /// Whether the effect changes anything outside: a write to the registry
    /// file, or a request that adds or updates a record.
    pub open spec fn is_mutation(self) -> bool {
        match self {
            EffectView::SaveRegistry { .. } => true,
            EffectView::Send { request } => request.operation == crate::client::Operation::AddNode
                || request.operation == crate::client::Operation::UpdateNode,
            _ => false,
        }
    }

    /// Whether the effect ends the workflow.
    pub open spec fn is_final(self) -> bool {
        self is Finish || self is Report || self is Fail || self is Nothing
    }
}

} // verus!

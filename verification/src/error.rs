//! The errors of the registry workflows.

use vstd::prelude::*;

verus! {

/// Why a `key=value` token is not a metadata entry.
#[derive(Debug, PartialEq, Eq)]
pub enum MetadataError {
    /// Nothing stands before the first `=`, or the token is empty.
    EmptyKey,
    /// The token holds no `=`; the whole token is taken as the key.
    MissingValue(String),
    /// Nothing follows the first `=`.
    EmptyValue(String),
}

/// A `MetadataError` over character sequences.
pub enum MetadataErrorView {
    EmptyKey,
    MissingValue(Seq<char>),
    EmptyValue(Seq<char>),
}

impl View for MetadataError {
    type V = MetadataErrorView;

    open spec fn view(&self) -> MetadataErrorView {
        match self {
            MetadataError::EmptyKey => MetadataErrorView::EmptyKey,
            MetadataError::MissingValue(key) => MetadataErrorView::MissingValue(key@),
            MetadataError::EmptyValue(key) => MetadataErrorView::EmptyValue(key@),
        }
    }
}

impl MetadataErrorView {
    /// What a user is shown for this error.
    pub open spec fn text(self) -> Seq<char> {
        match self {
            MetadataErrorView::EmptyKey => "Empty '--metadata' argument detected"@,
            MetadataErrorView::MissingValue(key) => "Missing value for metadata key '"@ + key
                + "'"@,
            MetadataErrorView::EmptyValue(key) => "Empty value detected for metadata key '"@ + key
                + "'"@,
        }
    }
}

impl MetadataError {
    /// Renders the error for a user.
    pub fn to_string(&self) -> (rendered: String)
        ensures
            rendered@ == self@.text(),
    {
        match self {
            MetadataError::EmptyKey => String::from_str("Empty '--metadata' argument detected"),
            MetadataError::MissingValue(key) => String::from_str(
                "Missing value for metadata key '",
            ).concat(key.as_str()).concat("'"),
            MetadataError::EmptyValue(key) => String::from_str(
                "Empty value detected for metadata key '",
            ).concat(key.as_str()).concat("'"),
        }
    }

    /// Copies the error.
    pub fn clone(&self) -> (copy: Self)
        ensures
            copy@ == self@,
    {
        match self {
            MetadataError::EmptyKey => MetadataError::EmptyKey,
            MetadataError::MissingValue(key) => MetadataError::MissingValue(key.clone()),
            MetadataError::EmptyValue(key) => MetadataError::EmptyValue(key.clone()),
        }
    }
}

/// Which rule of a well-formed node record is broken.
#[derive(Debug, Clone, Copy, PartialEq, Eq, Structural)]
pub enum InvalidNodeError {
    /// The identity is empty.
    EmptyIdentity,
    /// The record lists no endpoint.
    MissingEndpoints,
    /// The record lists no key.
    MissingKeys,
    /// A metadata entry has an empty key or an empty value.
    EmptyMetadata,
}

impl InvalidNodeError {
    /// What a user is shown for this error.
    pub open spec fn text(self) -> Seq<char> {
        match self {
            InvalidNodeError::EmptyIdentity => "Identity must be specified"@,
            InvalidNodeError::MissingEndpoints => "One or more endpoints must be specified"@,
            InvalidNodeError::MissingKeys => "One or more key files must be specified"@,
            InvalidNodeError::EmptyMetadata => "Metadata keys and values must not be empty"@,
        }
    }

    /// Renders the error for a user.
    pub fn to_string(&self) -> (rendered: String)
        ensures
            rendered@ == self.text(),
    {
        match self {
            InvalidNodeError::EmptyIdentity => String::from_str("Identity must be specified"),
            InvalidNodeError::MissingEndpoints => String::from_str(
                "One or more endpoints must be specified",
            ),
            InvalidNodeError::MissingKeys => String::from_str(
                "One or more key files must be specified",
            ),
            InvalidNodeError::EmptyMetadata => String::from_str(
                "Metadata keys and values must not be empty",
            ),
        }
    }
}

/// How an operation on a file failed.
#[derive(Debug, Clone, Copy, PartialEq, Eq, Structural)]
pub enum IoFailure {
    /// There is no such file.
    NotFound,
    /// The file may not be used in this way.
    PermissionDenied,
    /// The file does not hold what it should.
    InvalidData,
    /// Anything else.
    Unknown,
}

impl IoFailure {
    /// What a user is shown for this failure.
    pub open spec fn text(self) -> Seq<char> {
        match self {
            IoFailure::NotFound => "File not found"@,
            IoFailure::PermissionDenied => "Permission denied"@,
            IoFailure::InvalidData => "Invalid data"@,
            IoFailure::Unknown => "Unknown error"@,
        }
    }

    /// What a user is shown for this failure.
    pub fn as_str(&self) -> (text: &'static str)
        ensures
            text@ == self.text(),
    {
        match self {
            IoFailure::NotFound => "File not found",
            IoFailure::PermissionDenied => "Permission denied",
            IoFailure::InvalidData => "Invalid data",
            IoFailure::Unknown => "Unknown error",
        }
    }
}

/// An error that ends a workflow.
#[derive(Debug, PartialEq, Eq)]
pub enum CliError {
    /// The workflow was started without its arguments.
    RequiresArgs,
    /// A metadata token is malformed.
    InvalidMetadata(MetadataError),
    /// The assembled fields do not make a well-formed node record.
    ValidationError(InvalidNodeError),
    /// The registry file at this path is present but is not a sequence of
    /// node records.
    MalformedRegistryFile(String),
    /// The environment failed an operation; the message says which and how.
    EnvironmentError(String),
    /// The registry file already holds a record of this identity, and
    /// overwriting was not asked for. An error of the environment too.
    DuplicateIdentity(String),
    /// The remote registry refused a request or could not be reached.
    RemoteError(String),
    /// The remote registry already holds a record of the identity to add.
    Conflict(String),
    /// The remote registry holds no record of this identity.
    NotFoundError(String),
    /// The workflow was handed an answer to a question it had not asked.
    UnexpectedEvent,
}

/// A `CliError` over character sequences.
pub enum CliErrorView {
    RequiresArgs,
    InvalidMetadata(MetadataErrorView),
    ValidationError(InvalidNodeError),
    MalformedRegistryFile(Seq<char>),
    EnvironmentError(Seq<char>),
    DuplicateIdentity(Seq<char>),
    RemoteError(Seq<char>),
    Conflict(Seq<char>),
    NotFoundError(Seq<char>),
    UnexpectedEvent,
}

impl View for CliError {
    type V = CliErrorView;

    open spec fn view(&self) -> CliErrorView {
        match self {
            CliError::RequiresArgs => CliErrorView::RequiresArgs,
            CliError::InvalidMetadata(error) => CliErrorView::InvalidMetadata(error@),
            CliError::ValidationError(error) => CliErrorView::ValidationError(*error),
            CliError::MalformedRegistryFile(path) => CliErrorView::MalformedRegistryFile(path@),
            CliError::EnvironmentError(message) => CliErrorView::EnvironmentError(message@),
            CliError::DuplicateIdentity(identity) => CliErrorView::DuplicateIdentity(identity@),
            CliError::RemoteError(message) => CliErrorView::RemoteError(message@),
            CliError::Conflict(message) => CliErrorView::Conflict(message@),
            CliError::NotFoundError(identity) => CliErrorView::NotFoundError(identity@),
            CliError::UnexpectedEvent => CliErrorView::UnexpectedEvent,
        }
    }
}

impl CliErrorView {
    /// Whether the error reports on the environment: a failed operation of
    /// the file system, or an identity that the registry file already holds.
    pub open spec fn is_environment_error(self) -> bool {
        self is EnvironmentError || self is DuplicateIdentity
    }

    /// What a user is shown for this error.
    pub open spec fn text(self) -> Seq<char> {
        match self {
            CliErrorView::RequiresArgs => "action requires arguments"@,
            CliErrorView::InvalidMetadata(error) => error.text(),
            CliErrorView::ValidationError(error) => error.text(),
            CliErrorView::MalformedRegistryFile(path) => "Failed to read registry file '"@ + path
                + "': Not a valid YAML sequence of nodes"@,
            CliErrorView::EnvironmentError(message) => message,
            CliErrorView::DuplicateIdentity(identity) => "Node '"@ + identity
                + "' already exists; must use '--force' to overwrite an existing node"@,
            CliErrorView::RemoteError(message) => message,
            CliErrorView::Conflict(message) => message,
            CliErrorView::NotFoundError(identity) => "Unable to retrieve node from remote"@,
            CliErrorView::UnexpectedEvent => "workflow received an answer it had not asked for"@,
        }
    }
}

impl CliError {
    /// Whether the error reports on the environment.
    pub fn is_environment_error(&self) -> (answer: bool)
        ensures
            answer == self@.is_environment_error(),
    {
        match self {
            CliError::EnvironmentError(_) => true,
            CliError::DuplicateIdentity(_) => true,
            _ => false,
        }
    }

    /// Renders the error for a user.
    pub fn to_string(&self) -> (rendered: String)
        ensures
            rendered@ == self@.text(),
    {
        match self {
            CliError::RequiresArgs => String::from_str("action requires arguments"),
            CliError::InvalidMetadata(error) => error.to_string(),
            CliError::ValidationError(error) => error.to_string(),
            CliError::MalformedRegistryFile(path) => String::from_str(
                "Failed to read registry file '",
            ).concat(path.as_str()).concat("': Not a valid YAML sequence of nodes"),
            CliError::EnvironmentError(message) => message.clone(),
            CliError::DuplicateIdentity(identity) => String::from_str("Node '").concat(
                identity.as_str(),
            ).concat("' already exists; must use '--force' to overwrite an existing node"),
            CliError::RemoteError(message) => message.clone(),
            CliError::Conflict(message) => message.clone(),
            CliError::NotFoundError(_) => String::from_str("Unable to retrieve node from remote"),
            CliError::UnexpectedEvent => String::from_str(
                "workflow received an answer it had not asked for",
            ),
        }
    }

    /// Copies the error.
    pub fn clone(&self) -> (copy: Self)
        ensures
            copy@ == self@,
    {
        match self {
            CliError::RequiresArgs => CliError::RequiresArgs,
            CliError::InvalidMetadata(error) => CliError::InvalidMetadata(error.clone()),
            CliError::ValidationError(error) => CliError::ValidationError(*error),
            CliError::MalformedRegistryFile(path) => CliError::MalformedRegistryFile(path.clone()),
            CliError::EnvironmentError(message) => CliError::EnvironmentError(message.clone()),
            CliError::DuplicateIdentity(identity) => CliError::DuplicateIdentity(identity.clone()),
            CliError::RemoteError(message) => CliError::RemoteError(message.clone()),
            CliError::Conflict(message) => CliError::Conflict(message.clone()),
            CliError::NotFoundError(identity) => CliError::NotFoundError(identity.clone()),
            CliError::UnexpectedEvent => CliError::UnexpectedEvent,
        }
    }
}

} // verus!

//! The remote registry protocol: the requests that a client makes of the
//! registry service, and what each reply means. Sending is left to the
//! caller; this module fixes what is sent and how the answer is read.

use vstd::prelude::*;
use crate::error::{CliError, CliErrorView};
use crate::node::{
    LocalNodeStatus, LocalNodeStatusView, NodeResponse, NodeResponseView, NodeView, RegistryNode,
};

verus! {

/// The address of the registry service when none is configured.
pub const DEFAULT_SPLINTER_REST_API_URL: &'static str = "http://127.0.0.1:8080";

/// The status with which the service answers that it holds no such record.
pub const STATUS_NOT_FOUND: u16 = 404;

/// The status with which the service answers that it already holds a record
/// of the identity.
pub const STATUS_CONFLICT: u16 = 409;

/// The four operations of the remote registry.
#[derive(Debug, Clone, Copy, PartialEq, Eq, Structural)]
pub enum Operation {
    /// Ask the node for its own identity, endpoints and display name.
    GetNodeStatus,
    /// Fetch the record of an identity.
    GetNode,
    /// Create a record.
    AddNode,
    /// Replace the record of an identity.
    UpdateNode,
}

/// The verb of a request.
#[derive(Debug, Clone, Copy, PartialEq, Eq, Structural)]
pub enum HttpMethod {
    Get,
    Post,
    Put,
}

/// A request, ready to be sent.
#[derive(Debug)]
pub struct RemoteRequest {
    /// The operation that the request performs.
    pub operation: Operation,
    pub method: HttpMethod,
    pub url: String,
    /// The credential to send along, where authentication is configured.
    pub authorization: Option<String>,
    /// The record to send, for the operations that send one.
    pub body: Option<RegistryNode>,
}

/// A `RemoteRequest` over character sequences.
pub struct RemoteRequestView {
    pub operation: Operation,
    pub method: HttpMethod,
    pub url: Seq<char>,
    pub authorization: Option<Seq<char>>,
    pub body: Option<NodeView>,
}

impl View for RemoteRequest {
    type V = RemoteRequestView;

    open spec fn view(&self) -> RemoteRequestView {
        RemoteRequestView {
            operation: self.operation,
            method: self.method,
            url: self.url@,
            authorization: match self.authorization {
                Some(credential) => Some(credential@),
                None => None,
            },
            body: match self.body {
                Some(node) => Some(node@),
                None => None,
            },
        }
    }
}

/// What the body of a response was read as.
#[derive(Debug)]
pub enum ReplyBody {
    /// The body was not read.
    Unread,
    /// The body is not of the form that was asked for.
    Invalid,
    /// The body is a structured error of the service, with this message.
    ServerError(String),
    /// The body is a node record.
    Node(NodeResponse),
    /// The body is the status of the node.
    Status(LocalNodeStatus),
}

/// A `ReplyBody` over character sequences.
pub enum ReplyBodyView {
    Unread,
    Invalid,
    ServerError(Seq<char>),
    Node(NodeResponseView),
    Status(LocalNodeStatusView),
}

impl View for ReplyBody {
    type V = ReplyBodyView;

    open spec fn view(&self) -> ReplyBodyView {
        match self {
            ReplyBody::Unread => ReplyBodyView::Unread,
            ReplyBody::Invalid => ReplyBodyView::Invalid,
            ReplyBody::ServerError(message) => ReplyBodyView::ServerError(message@),
            ReplyBody::Node(node) => ReplyBodyView::Node(node@),
            ReplyBody::Status(status) => ReplyBodyView::Status(status@),
        }
    }
}

/// What came back for a request.
#[derive(Debug)]
pub enum RemoteReply {
    /// The request could not be sent or no response came; the reason is
    /// attached.
    Unreachable(String),
    /// The service responded.
    Response {
        /// The status code.
        status: u16,
        /// The status as it is shown: the code and its reason phrase.
        status_text: String,
        body: ReplyBody,
    },
}

/// A `RemoteReply` over character sequences.
pub enum RemoteReplyView {
    Unreachable(Seq<char>),
    Response { status: u16, status_text: Seq<char>, body: ReplyBodyView },
}

impl View for RemoteReply {
    type V = RemoteReplyView;

    open spec fn view(&self) -> RemoteReplyView {
        match self {
            RemoteReply::Unreachable(reason) => RemoteReplyView::Unreachable(reason@),
            RemoteReply::Response { status, status_text, body } => RemoteReplyView::Response {
                status: *status,
                status_text: status_text@,
                body: body@,
            },
        }
    }
}

/// How a status code is shown in messages: the text that
/// `reqwest::StatusCode` displays for it.
pub uninterp spec fn status_display(code: u16) -> Seq<char>;

/// Shows a status code, by `reqwest::StatusCode::from_u16` and the
/// `Display` of the status that it gives.
///
/// Not proved, but taken from that crate: `from_u16` accepts the numbers
/// from 100 to 999 and no others, and what is displayed for a status, its
/// number and the reason phrase that belongs to it, depends on the number
/// alone.
#[verifier::external_body]
fn display_status(code: u16) -> (text: Option<String>)
    ensures
        text is Some <==> 100 <= code < 1000,
        text matches Some(shown) ==> shown@ == status_display(code),
{
    match reqwest::StatusCode::from_u16(code) {
        Ok(status) => Some(status.to_string()),
        Err(_) => None,
    }
}

/// The reply that a response with this status code and this body makes. A
/// number that is no status code makes no response: the service counts as
/// not reached.
pub open spec fn response_reply(status: u16, body: ReplyBodyView) -> RemoteReplyView {
    if 100 <= status < 1000 {
        RemoteReplyView::Response { status, status_text: status_display(status), body }
    } else {
        RemoteReplyView::Unreachable("invalid status code"@)
    }
}

impl RemoteReply {
    /// Makes the reply for a response with this status code and this body.
    pub fn response(status: u16, body: ReplyBody) -> (reply: RemoteReply)
        ensures
            reply@ == response_reply(status, body@),
    {
        match display_status(status) {
            Some(status_text) => RemoteReply::Response { status, status_text, body },
            None => RemoteReply::Unreachable(String::from_str("invalid status code")),
        }
    }
}

/// The form in which the body of a response is to be read.
#[derive(Debug, Clone, Copy, PartialEq, Eq, Structural)]
pub enum BodyKind {
    /// The body is of no interest.
    Nothing,
    /// A node record.
    Node,
    /// The status of the node.
    Status,
    /// A structured error of the service.
    ServerError,
}

/// What a request has achieved.
#[derive(Debug)]
pub enum RemoteAnswer {
    /// The registry took the record.
    Accepted,
    /// The record of the identity, or that the registry holds none.
    Node(Option<NodeResponse>),
    /// The status of the node.
    Status(LocalNodeStatus),
}

/// A `RemoteAnswer` over character sequences.
pub enum RemoteAnswerView {
    Accepted,
    Node(Option<NodeResponseView>),
    Status(LocalNodeStatusView),
}

impl View for RemoteAnswer {
    type V = RemoteAnswerView;

    open spec fn view(&self) -> RemoteAnswerView {
        match self {
            RemoteAnswer::Accepted => RemoteAnswerView::Accepted,
            RemoteAnswer::Node(node) => RemoteAnswerView::Node(
                match node {
                    Some(node) => Some(node@),
                    None => None,
                },
            ),
            RemoteAnswer::Status(status) => RemoteAnswerView::Status(status@),
        }
    }
}

/// A status code of the success class.
pub open spec fn is_success(status: u16) -> bool {
    200 <= status < 300
}

/// Whether the status code is of the success class.
pub fn status_is_success(status: u16) -> (success: bool)
    ensures
        success == is_success(status),
{
    200 <= status && status < 300
}

/// How the failure of an operation is introduced. An update is reported in
/// the words of an addition.
pub open spec fn failure_prefix(operation: Operation) -> Seq<char> {
    match operation {
        Operation::GetNodeStatus => "Failed to fetch node status: "@,
        Operation::GetNode => "Failed to fetch node: "@,
        Operation::AddNode => "Failed to add node to registry: "@,
        Operation::UpdateNode => "Failed to add node to registry: "@,
    }
}

/// How the request of an operation is named in messages.
pub open spec fn request_name(operation: Operation) -> Seq<char> {
    match operation {
        Operation::GetNodeStatus => "Node status fetch"@,
        Operation::GetNode => "Registry get node"@,
        Operation::AddNode => "Registry add node"@,
        Operation::UpdateNode => "Registry add node"@,
    }
}

/// What is said of a successful response whose body cannot be used.
pub open spec fn invalid_response_text() -> Seq<char> {
    "Request was successful, but received an invalid response"@
}

/// What is said of a failed request whose error body cannot be used: the
/// status as it came, and that the body was not valid.
pub open spec fn invalid_error_text(operation: Operation, status_text: Seq<char>) -> Seq<char> {
    request_name(operation) + " request failed with status code '"@ + status_text
        + "', but error response was not valid"@
}

/// The form in which to read the body of a response with this status to a
/// request of this operation.
pub open spec fn expected_body(operation: Operation, status: u16) -> BodyKind {
    if is_success(status) {
        match operation {
            Operation::GetNodeStatus => BodyKind::Status,
            Operation::GetNode => BodyKind::Node,
            Operation::AddNode => BodyKind::Nothing,
            Operation::UpdateNode => BodyKind::Nothing,
        }
    } else if operation == Operation::GetNode && status == STATUS_NOT_FOUND {
        BodyKind::Nothing
    } else {
        BodyKind::ServerError
    }
}

/// What is said of a request that the service refused: the message of its
/// structured error or, where the body is no such error, the status as it
/// came and that the body was not valid.
pub open spec fn refusal_text(
    operation: Operation,
    status_text: Seq<char>,
    body: ReplyBodyView,
) -> Seq<char> {
    match body {
        ReplyBodyView::ServerError(message) => failure_prefix(operation) + message,
        _ => invalid_error_text(operation, status_text),
    }
}

/// What a reply to a request of this operation means.
///
/// A request that could not be sent is a remote error. A successful
/// response accepts an addition or an update, and carries the record or the
/// status that was asked for; where it does not carry it, that is a remote
/// error. To a request for a record, the answer that there is none is no
/// error. Any other response is a refusal: a conflict where an addition met
/// an identity that the registry holds, else a remote error, in either case
/// with the text of the refusal.
pub open spec fn interpreted(operation: Operation, reply: RemoteReplyView) -> Result<
    RemoteAnswerView,
    CliErrorView,
> {
    match reply {
        RemoteReplyView::Unreachable(reason) => Err(
            CliErrorView::RemoteError(failure_prefix(operation) + reason),
        ),
        RemoteReplyView::Response { status, status_text, body } => if is_success(status) {
            match operation {
                Operation::AddNode => Ok(RemoteAnswerView::Accepted),
                Operation::UpdateNode => Ok(RemoteAnswerView::Accepted),
                Operation::GetNode => match body {
                    ReplyBodyView::Node(node) => Ok(RemoteAnswerView::Node(Some(node))),
                    _ => Err(CliErrorView::RemoteError(invalid_response_text())),
                },
                Operation::GetNodeStatus => match body {
                    ReplyBodyView::Status(node_status) => Ok(RemoteAnswerView::Status(node_status)),
                    _ => Err(CliErrorView::RemoteError(invalid_response_text())),
                },
            }
        } else if operation == Operation::GetNode && status == STATUS_NOT_FOUND {
            Ok(RemoteAnswerView::Node(None))
        } else {
            let message = refusal_text(operation, status_text, body);
            if operation == Operation::AddNode && status == STATUS_CONFLICT {
                Err(CliErrorView::Conflict(message))
            } else {
                Err(CliErrorView::RemoteError(message))
            }
        },
    }
}

/// A response without success is never read as success, whatever its body,
/// but for the answer that a record asked for does not exist.
pub proof fn lemma_failure_is_never_success(operation: Operation, reply: RemoteReplyView)
    requires
        reply matches RemoteReplyView::Response { status, .. } && !is_success(status),
    ensures
        interpreted(operation, reply) is Ok ==> operation == Operation::GetNode
            && reply->status == STATUS_NOT_FOUND && interpreted(operation, reply) == Ok::<
            _,
            CliErrorView,
        >(RemoteAnswerView::Node(None)),
{
}

fn failure_prefix_of(operation: Operation) -> (prefix: &'static str)
    ensures
        prefix@ == failure_prefix(operation),
{
    match operation {
        Operation::GetNodeStatus => "Failed to fetch node status: ",
        Operation::GetNode => "Failed to fetch node: ",
        Operation::AddNode => "Failed to add node to registry: ",
        Operation::UpdateNode => "Failed to add node to registry: ",
    }
}

fn request_name_of(operation: Operation) -> (name: &'static str)
    ensures
        name@ == request_name(operation),
{
    match operation {
        Operation::GetNodeStatus => "Node status fetch",
        Operation::GetNode => "Registry get node",
        Operation::AddNode => "Registry add node",
        Operation::UpdateNode => "Registry add node",
    }
}

fn invalid_response() -> (error: CliError)
    ensures
        error@ == CliErrorView::RemoteError(invalid_response_text()),
{
    CliError::RemoteError(
        String::from_str("Request was successful, but received an invalid response"),
    )
}

/// Tells in which form to read the body of a response.
pub fn body_kind(operation: Operation, status: u16) -> (kind: BodyKind)
    ensures
        kind == expected_body(operation, status),
{
    if status_is_success(status) {
        match operation {
            Operation::GetNodeStatus => BodyKind::Status,
            Operation::GetNode => BodyKind::Node,
            Operation::AddNode => BodyKind::Nothing,
            Operation::UpdateNode => BodyKind::Nothing,
        }
    } else if operation == Operation::GetNode && status == STATUS_NOT_FOUND {
        BodyKind::Nothing
    } else {
        BodyKind::ServerError
    }
}

/// Reads the reply to a request of this operation.
pub fn interpret(operation: Operation, reply: RemoteReply) -> (answer: Result<
    RemoteAnswer,
    CliError,
>)
    ensures
        match answer {
            Ok(answer) => interpreted(operation, reply@) == Ok::<_, CliErrorView>(answer@),
            Err(error) => interpreted(operation, reply@) == Err::<RemoteAnswerView, _>(error@),
        },
{
    match reply {
        RemoteReply::Unreachable(reason) => Err(
            CliError::RemoteError(
                String::from_str(failure_prefix_of(operation)).concat(reason.as_str()),
            ),
        ),
        RemoteReply::Response { status, status_text, body } => {
            if status_is_success(status) {
                match operation {
                    Operation::AddNode => Ok(RemoteAnswer::Accepted),
                    Operation::UpdateNode => Ok(RemoteAnswer::Accepted),
                    Operation::GetNode => match body {
                        ReplyBody::Node(node) => Ok(RemoteAnswer::Node(Some(node))),
                        _ => Err(invalid_response()),
                    },
                    Operation::GetNodeStatus => match body {
                        ReplyBody::Status(node_status) => Ok(RemoteAnswer::Status(node_status)),
                        _ => Err(invalid_response()),
                    },
                }
            } else if operation == Operation::GetNode && status == STATUS_NOT_FOUND {
                Ok(RemoteAnswer::Node(None))
            } else {
                let text = match body {
                    ReplyBody::ServerError(message) => String::from_str(
                        failure_prefix_of(operation),
                    ).concat(message.as_str()),
                    _ => String::from_str(request_name_of(operation)).concat(
                        " request failed with status code '",
                    ).concat(status_text.as_str()).concat("', but error response was not valid"),
                };
                if operation == Operation::AddNode && status == STATUS_CONFLICT {
                    Err(CliError::Conflict(text))
                } else {
                    Err(CliError::RemoteError(text))
                }
            }
        },
    }
}

/// The address to use: the one given, else the one of the environment,
/// else the default.
pub open spec fn resolved_url(given: Option<Seq<char>>, environment: Option<Seq<char>>) -> Seq<
    char,
> {
    match given {
        Some(url) => url,
        None => match environment {
            Some(url) => url,
            None => DEFAULT_SPLINTER_REST_API_URL@,
        },
    }
}

/// A client of the registry service: where the service is, and the
/// credential to present, if authentication is configured.
#[derive(Debug)]
pub struct SplinterRestClient {
    pub url: String,
    pub auth: Option<String>,
}

/// A `SplinterRestClient` over character sequences.
pub struct SplinterRestClientView {
    pub url: Seq<char>,
    pub auth: Option<Seq<char>>,
}

impl View for SplinterRestClient {
    type V = SplinterRestClientView;

    open spec fn view(&self) -> SplinterRestClientView {
        SplinterRestClientView {
            url: self.url@,
            auth: match self.auth {
                Some(credential) => Some(credential@),
                None => None,
            },
        }
    }
}

/// Copies a string that may be missing.
pub fn clone_optional(value: &Option<String>) -> (copy: Option<String>)
    ensures
        copy is Some == value is Some,
        copy matches Some(text) ==> text@ == value->0@,
{
    match value {
        Some(text) => Some(text.clone()),
        None => None,
    }
}

/// Makes the client for the address given on the command line, or else in
/// the environment, or else the default one.
pub fn new_client(
    url: Option<&String>,
    environment_url: Option<&String>,
    auth: Option<String>,
) -> (client: SplinterRestClient)
    ensures
        client@.url == resolved_url(
            match url {
                Some(url) => Some(url@),
                None => None,
            },
            match environment_url {
                Some(url) => Some(url@),
                None => None,
            },
        ),
        client@.auth == match auth {
            Some(credential) => Some(credential@),
            None => None,
        },
{
    let url = match url {
        Some(url) => url.clone(),
        None => match environment_url {
            Some(url) => url.clone(),
            None => String::from_str(DEFAULT_SPLINTER_REST_API_URL),
        },
    };
    SplinterRestClient { url, auth }
}

impl SplinterRestClientView {
    /// The request for the status of the node.
    pub open spec fn get_node_status(self) -> RemoteRequestView {
        RemoteRequestView {
            operation: Operation::GetNodeStatus,
            method: HttpMethod::Get,
            url: self.url + "/status"@,
            authorization: self.auth,
            body: None,
        }
    }

    /// The request that fetches the record of `identity`.
    pub open spec fn get_node(self, identity: Seq<char>) -> RemoteRequestView {
        RemoteRequestView {
            operation: Operation::GetNode,
            method: HttpMethod::Get,
            url: self.url + "/registry/nodes/"@ + identity,
            authorization: self.auth,
            body: None,
        }
    }

    /// The request that adds `node` to the registry.
    pub open spec fn add_node(self, node: NodeView) -> RemoteRequestView {
        RemoteRequestView {
            operation: Operation::AddNode,
            method: HttpMethod::Post,
            url: self.url + "/registry/nodes"@,
            authorization: self.auth,
            body: Some(node),
        }
    }

    /// The request that replaces the record of the identity of `node`.
    pub open spec fn update_node(self, node: NodeView) -> RemoteRequestView {
        RemoteRequestView {
            operation: Operation::UpdateNode,
            method: HttpMethod::Put,
            url: self.url + "/registry/nodes/"@ + node.identity,
            authorization: self.auth,
            body: Some(node),
        }
    }
}

impl SplinterRestClient {
    /// Asks the node for its status.
    pub fn get_node_status(&self) -> (request: RemoteRequest)
        ensures
            request@ == self@.get_node_status(),
    {
        RemoteRequest {
            operation: Operation::GetNodeStatus,
            method: HttpMethod::Get,
            url: self.url.clone().concat("/status"),
            authorization: clone_optional(&self.auth),
            body: None,
        }
    }

    /// Retrieves the node with the given identity from the registry.
    pub fn get_node(&self, identity: &str) -> (request: RemoteRequest)
        ensures
            request@ == self@.get_node(identity@),
    {
        RemoteRequest {
            operation: Operation::GetNode,
            method: HttpMethod::Get,
            url: self.url.clone().concat("/registry/nodes/").concat(identity),
            authorization: clone_optional(&self.auth),
            body: None,
        }
    }

    /// Adds a new node to the registry.
    pub fn add_node(&self, node: &RegistryNode) -> (request: RemoteRequest)
        ensures
            request@ == self@.add_node(node@),
    {
        RemoteRequest {
            operation: Operation::AddNode,
            method: HttpMethod::Post,
            url: self.url.clone().concat("/registry/nodes"),
            authorization: clone_optional(&self.auth),
            body: Some(node.clone()),
        }
    }

    /// Updates the node with the same identity in the registry.
    pub fn update_node(&self, node: &RegistryNode) -> (request: RemoteRequest)
        ensures
            request@ == self@.update_node(node@),
    {
        RemoteRequest {
            operation: Operation::UpdateNode,
            method: HttpMethod::Put,
            url: self.url.clone().concat("/registry/nodes/").concat(node.identity().as_str()),
            authorization: clone_optional(&self.auth),
            body: Some(node.clone()),
        }
    }
}

} // verus!

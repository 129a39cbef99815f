//! The REST resource for user profiles: its route, the protocol versions it
//! serves, its method, and what its handlers answer. Looking a profile up is
//! left to the caller: a handler names the lookup, and answers once it is
//! told what the store returned.

use vstd::prelude::*;

verus! {

/// The first protocol version that serves profiles.
pub const BIOME_PROFILE_PROTOCOL_MIN: u32 = 1;

/// The current protocol version.
pub const BIOME_PROTOCOL_VERSION: u32 = 2;

/// The route of the profile resource.
pub const PROFILE_ROUTE: &'static str = "/biome/profile/{id}";

/// The verb of a request.
#[derive(Debug, Clone, Copy, PartialEq, Eq, Structural)]
pub enum Method {
    Get,
    Post,
    Put,
    Patch,
    Delete,
    Head,
}

/// Admits the requests whose protocol version lies between two bounds,
/// both included.
#[derive(Debug, Clone, Copy, PartialEq, Eq, Structural)]
pub struct ProtocolVersionRangeGuard {
    pub min: u32,
    pub max: u32,
}

impl ProtocolVersionRangeGuard {
    /// The guard for the versions from `min` to `max`.
    pub fn new(min: u32, max: u32) -> (guard: Self)
        ensures
            guard == (ProtocolVersionRangeGuard { min, max }),
    {
        ProtocolVersionRangeGuard { min, max }
    }

    /// Whether a request of this protocol version is admitted.
    pub fn admits(&self, version: u32) -> (admitted: bool)
        ensures
            admitted == (self.min <= version <= self.max),
    {
        self.min <= version && version <= self.max
    }
}

/// What a client needs to be allowed to use a method.
#[derive(Debug, Clone, Copy, PartialEq, Eq, Structural)]
pub enum Permission {
    /// Allowed to everyone.
    AllowUnauthenticated,
    /// Allowed to every client that has authenticated.
    AllowAuthenticated,
    /// Allowed to the clients that hold the permission that the service
    /// knows under this identifier.
    Check(PermissionId),
}

/// The permissions that the service checks for.
#[derive(Debug, Clone, Copy, PartialEq, Eq, Structural)]
pub enum PermissionId {
    /// To view the users: `biome.user.read`.
    BiomeUserRead,
    /// To change the users: `biome.user.write`.
    BiomeUserWrite,
}

impl PermissionId {
    /// The identifier that the service knows the permission under.
    pub open spec fn text(self) -> Seq<char> {
        match self {
            PermissionId::BiomeUserRead => "biome.user.read"@,
            PermissionId::BiomeUserWrite => "biome.user.write"@,
        }
    }

    /// The identifier that the service knows the permission under.
    pub fn as_str(&self) -> (id: &'static str)
        ensures
            id@ == self.text(),
    {
        match self {
            PermissionId::BiomeUserRead => "biome.user.read",
            PermissionId::BiomeUserWrite => "biome.user.write",
        }
    }
}

/// What answers a request.
#[derive(Debug, Clone, Copy, PartialEq, Eq, Structural)]
pub enum HandlerFunction {
    /// Answers with all profiles.
    ListProfiles,
    /// Answers with the profile of the user that the route names.
    FetchProfile,
}

/// A method of a resource.
#[derive(Debug, Clone, Copy, PartialEq, Eq, Structural)]
pub struct ResourceMethod {
    pub method: Method,
    /// What the client must be allowed; nothing is checked where
    /// authorization is not configured.
    pub permission: Option<Permission>,
    pub handler: HandlerFunction,
}

/// A REST resource: a route, the guards that every request must pass, and
/// the methods that it answers.
#[derive(Debug)]
pub struct Resource {
    route: String,
    request_guards: Vec<ProtocolVersionRangeGuard>,
    methods: Vec<ResourceMethod>,
}

/// A `Resource` over character sequences.
pub struct ResourceView {
    pub route: Seq<char>,
    pub request_guards: Seq<ProtocolVersionRangeGuard>,
    pub methods: Seq<ResourceMethod>,
}

impl View for Resource {
    type V = ResourceView;

    closed spec fn view(&self) -> ResourceView {
        ResourceView {
            route: self.route@,
            request_guards: self.request_guards@,
            methods: self.methods@,
        }
    }
}

impl Resource {
    /// A resource at `route`, without guards or methods.
    pub fn build(route: &str) -> (resource: Self)
        ensures
            resource@ == (ResourceView {
                route: route@,
                request_guards: Seq::empty(),
                methods: Seq::empty(),
            }),
    {
        Resource { route: String::from_str(route), request_guards: Vec::new(), methods: Vec::new() }
    }

    /// Adds a guard after those already there.
    pub fn add_request_guard(self, guard: ProtocolVersionRangeGuard) -> (resource: Self)
        ensures
            resource@ == (ResourceView {
                request_guards: self@.request_guards.push(guard),
                ..self@
            }),
    {
        let mut resource = self;
        resource.request_guards.push(guard);
        resource
    }

    /// Adds a method after those already there.
    pub fn add_method(
        self,
        method: Method,
        permission: Option<Permission>,
        handler: HandlerFunction,
    ) -> (resource: Self)
        ensures
            resource@ == (ResourceView {
                methods: self@.methods.push(ResourceMethod { method, permission, handler }),
                ..self@
            }),
    {
        let mut resource = self;
        resource.methods.push(ResourceMethod { method, permission, handler });
        resource
    }

    /// The route.
    pub fn route(&self) -> (route: &String)
        ensures
            route@ == self@.route,
    {
        &self.route
    }

    /// The guards, in the order in which they were added.
    pub fn request_guards(&self) -> (guards: &Vec<ProtocolVersionRangeGuard>)
        ensures
            guards@ == self@.request_guards,
    {
        &self.request_guards
    }

    /// The methods, in the order in which they were added.
    pub fn methods(&self) -> (methods: &Vec<ResourceMethod>)
        ensures
            methods@ == self@.methods,
    {
        &self.methods
    }
}

/// The profile resource with one method, `GET`, answered by `handler`. With
/// authorization the method asks for the permission to view users.
pub open spec fn profile_resource(authorization: bool, handler: HandlerFunction) -> ResourceView {
    ResourceView {
        route: PROFILE_ROUTE@,
        request_guards: seq![
            ProtocolVersionRangeGuard {
                min: BIOME_PROFILE_PROTOCOL_MIN,
                max: BIOME_PROTOCOL_VERSION,
            },
        ],
        methods: seq![
            ResourceMethod {
                method: Method::Get,
                permission: if authorization {
                    Some(Permission::Check(PermissionId::BiomeUserRead))
                } else {
                    None
                },
                handler: handler,
            },
        ],
    }
}

fn read_permission(authorization: bool) -> (permission: Option<Permission>)
    ensures
        permission == if authorization {
            Some(Permission::Check(PermissionId::BiomeUserRead))
        } else {
            None::<Permission>
        },
{
    if authorization {
        Some(Permission::Check(PermissionId::BiomeUserRead))
    } else {
        None
    }
}

/// Defines a REST endpoint to list profiles from the database
pub fn make_profile_list_route(authorization: bool) -> (resource: Resource)
    ensures
        resource@ == profile_resource(authorization, HandlerFunction::ListProfiles),
{
    let resource = Resource::build(PROFILE_ROUTE).add_request_guard(
        ProtocolVersionRangeGuard::new(BIOME_PROFILE_PROTOCOL_MIN, BIOME_PROTOCOL_VERSION),
    );
    let resource = resource.add_method(
        Method::Get,
        read_permission(authorization),
        HandlerFunction::ListProfiles,
    );
    assert(resource@.request_guards =~= profile_resource(
        authorization,
        HandlerFunction::ListProfiles,
    ).request_guards);
    assert(resource@.methods =~= profile_resource(
        authorization,
        HandlerFunction::ListProfiles,
    ).methods);
    resource
}

/// Defines a REST endpoint to fetch the profile of one user
pub fn make_profile_routes(authorization: bool) -> (resource: Resource)
    ensures
        resource@ == profile_resource(authorization, HandlerFunction::FetchProfile),
{
    let resource = Resource::build(PROFILE_ROUTE).add_request_guard(
        ProtocolVersionRangeGuard::new(BIOME_PROFILE_PROTOCOL_MIN, BIOME_PROTOCOL_VERSION),
    );
    let resource = resource.add_method(
        Method::Get,
        read_permission(authorization),
        add_fetch_profile_method(),
    );
    assert(resource@.request_guards =~= profile_resource(
        authorization,
        HandlerFunction::FetchProfile,
    ).request_guards);
    assert(resource@.methods =~= profile_resource(
        authorization,
        HandlerFunction::FetchProfile,
    ).methods);
    resource
}

/// The handler that answers with the profile of one user.
pub fn add_fetch_profile_method() -> (handler: HandlerFunction)
    ensures
        handler == HandlerFunction::FetchProfile,
{
    HandlerFunction::FetchProfile
}

/// The profile of a user.
#[derive(Debug, PartialEq, Eq)]
pub struct Profile {
    pub user_id: String,
    pub subject: String,
    pub name: Option<String>,
    pub given_name: Option<String>,
    pub family_name: Option<String>,
    pub email: Option<String>,
    pub picture: Option<String>,
}

/// A `Profile` over character sequences.
pub struct ProfileView {
    pub user_id: Seq<char>,
    pub subject: Seq<char>,
    pub name: Option<Seq<char>>,
    pub given_name: Option<Seq<char>>,
    pub family_name: Option<Seq<char>>,
    pub email: Option<Seq<char>>,
    pub picture: Option<Seq<char>>,
}

impl View for Profile {
    type V = ProfileView;

    open spec fn view(&self) -> ProfileView {
        ProfileView {
            user_id: self.user_id@,
            subject: self.subject@,
            name: crate::workflow::optional_view(self.name),
            given_name: crate::workflow::optional_view(self.given_name),
            family_name: crate::workflow::optional_view(self.family_name),
            email: crate::workflow::optional_view(self.email),
            picture: crate::workflow::optional_view(self.picture),
        }
    }
}

/// Why the store of profiles could not answer.
#[derive(Debug, Clone, Copy, PartialEq, Eq, Structural)]
pub enum UserProfileStoreError {
    /// The store failed in a way that cannot be mended from outside.
    InternalError,
    /// The operation would break a rule of the stored data.
    ConstraintViolation,
    /// The store could not be reached for now.
    ResourceTemporarilyUnavailable,
    /// An argument does not name anything that the store holds.
    InvalidArgument,
    /// The store is not in a state in which it can perform the operation.
    InvalidState,
}

/// What a handler asks of the store.
#[derive(Debug, PartialEq, Eq)]
pub enum StoreQuery {
    /// All profiles.
    ListProfiles,
    /// The profile of this user.
    GetProfile { user_id: String },
}

/// A `StoreQuery` over character sequences.
pub enum StoreQueryView {
    ListProfiles,
    GetProfile { user_id: Seq<char> },
}

impl View for StoreQuery {
    type V = StoreQueryView;

    open spec fn view(&self) -> StoreQueryView {
        match self {
            StoreQuery::ListProfiles => StoreQueryView::ListProfiles,
            StoreQuery::GetProfile { user_id } => StoreQueryView::GetProfile { user_id: user_id@ },
        }
    }
}

/// What the store returned.
#[derive(Debug, PartialEq, Eq)]
pub enum StoreAnswer {
    Profiles(Vec<Profile>),
    Profile(Profile),
    Failed(UserProfileStoreError),
}

/// A `StoreAnswer` over character sequences.
pub enum StoreAnswerView {
    Profiles(Seq<ProfileView>),
    Profile(ProfileView),
    Failed(UserProfileStoreError),
}

impl View for StoreAnswer {
    type V = StoreAnswerView;

    open spec fn view(&self) -> StoreAnswerView {
        match self {
            StoreAnswer::Profiles(profiles) => StoreAnswerView::Profiles(
                profiles@.map_values(|profile: Profile| profile@),
            ),
            StoreAnswer::Profile(profile) => StoreAnswerView::Profile(profile@),
            StoreAnswer::Failed(error) => StoreAnswerView::Failed(*error),
        }
    }
}

/// The body of a response that reports an error.
#[derive(Debug, PartialEq, Eq)]
pub struct ErrorResponse {
    pub status_code: String,
    pub message: String,
}

/// An `ErrorResponse` over character sequences.
pub struct ErrorResponseView {
    pub status_code: Seq<char>,
    pub message: Seq<char>,
}

impl View for ErrorResponse {
    type V = ErrorResponseView;

    open spec fn view(&self) -> ErrorResponseView {
        ErrorResponseView { status_code: self.status_code@, message: self.message@ }
    }
}

impl ErrorResponse {
    /// The body that says that the server failed.
    pub fn internal_error() -> (body: Self)
        ensures
            body@ == (ErrorResponseView {
                status_code: "500"@,
                message: "The server encountered an error"@,
            }),
    {
        ErrorResponse {
            status_code: String::from_str("500"),
            message: String::from_str("The server encountered an error"),
        }
    }

    /// The body that says that the request was wrong.
    pub fn bad_request(message: &str) -> (body: Self)
        ensures
            body@ == (ErrorResponseView { status_code: "400"@, message: message@ }),
    {
        ErrorResponse { status_code: String::from_str("400"), message: String::from_str(message) }
    }

    /// The body that says that what was asked for does not exist.
    pub fn not_found(message: &str) -> (body: Self)
        ensures
            body@ == (ErrorResponseView { status_code: "404"@, message: message@ }),
    {
        ErrorResponse { status_code: String::from_str("404"), message: String::from_str(message) }
    }
}

/// The body of a response.
#[derive(Debug, PartialEq, Eq)]
pub enum ResponseBody {
    Profiles(Vec<Profile>),
    Profile(Profile),
    Error(ErrorResponse),
}

/// A `ResponseBody` over character sequences.
pub enum ResponseBodyView {
    Profiles(Seq<ProfileView>),
    Profile(ProfileView),
    Error(ErrorResponseView),
}

impl View for ResponseBody {
    type V = ResponseBodyView;

    open spec fn view(&self) -> ResponseBodyView {
        match self {
            ResponseBody::Profiles(profiles) => ResponseBodyView::Profiles(
                profiles@.map_values(|profile: Profile| profile@),
            ),
            ResponseBody::Profile(profile) => ResponseBodyView::Profile(profile@),
            ResponseBody::Error(error) => ResponseBodyView::Error(error@),
        }
    }
}

/// A response: a status code and a body.
#[derive(Debug, PartialEq, Eq)]
pub struct HttpResponse {
    pub status: u16,
    pub body: ResponseBody,
}

/// An `HttpResponse` over character sequences.
pub struct HttpResponseView {
    pub status: u16,
    pub body: ResponseBodyView,
}

impl View for HttpResponse {
    type V = HttpResponseView;

    open spec fn view(&self) -> HttpResponseView {
        HttpResponseView { status: self.status, body: self.body@ }
    }
}

/// The response that says that the server failed.
pub open spec fn internal_error_response() -> HttpResponseView {
    HttpResponseView {
        status: 500,
        body: ResponseBodyView::Error(
            ErrorResponseView { status_code: "500"@, message: "The server encountered an error"@ },
        ),
    }
}

/// What a handler does with a request: the lookup to make, or, where the
/// request cannot be served, the response that refuses it. The handler for
/// one profile needs the user that the route names.
pub open spec fn handler_query(handler: HandlerFunction, user_id: Option<Seq<char>>) -> Result<
    StoreQueryView,
    HttpResponseView,
> {
    match handler {
        HandlerFunction::ListProfiles => Ok(StoreQueryView::ListProfiles),
        HandlerFunction::FetchProfile => match user_id {
            Some(user_id) => Ok(StoreQueryView::GetProfile { user_id }),
            None => Err(
                HttpResponseView {
                    status: 400,
                    body: ResponseBodyView::Error(
                        ErrorResponseView {
                            status_code: "400"@,
                            message: "Failed to process request: no user id"@,
                        },
                    ),
                },
            ),
        },
    }
}

/// The response to a lookup. What was found is sent back with success.
/// Where the store does not know the user, the response says so, naming
/// the user; any other failure of the store is a failure of the server, and
/// so is an answer that does not fit the lookup.
pub open spec fn handler_response(
    query: StoreQueryView,
    answer: StoreAnswerView,
) -> HttpResponseView {
    match (query, answer) {
        (StoreQueryView::ListProfiles, StoreAnswerView::Profiles(profiles)) => HttpResponseView {
            status: 200,
            body: ResponseBodyView::Profiles(profiles),
        },
        (
            StoreQueryView::GetProfile { user_id },
            StoreAnswerView::Profile(profile),
        ) => HttpResponseView { status: 200, body: ResponseBodyView::Profile(profile) },
        (
            StoreQueryView::GetProfile { user_id },
            StoreAnswerView::Failed(UserProfileStoreError::InvalidArgument),
        ) => HttpResponseView {
            status: 404,
            body: ResponseBodyView::Error(
                ErrorResponseView {
                    status_code: "404"@,
                    message: "User ID not found: "@ + user_id,
                },
            ),
        },
        _ => internal_error_response(),
    }
}

fn internal_error() -> (response: HttpResponse)
    ensures
        response@ == internal_error_response(),
{
    HttpResponse { status: 500, body: ResponseBody::Error(ErrorResponse::internal_error()) }
}

impl HandlerFunction {
    /// Tells what to look up for a request, given the user that its route
    /// names, or how to refuse the request.
    pub fn query(&self, user_id: Option<&str>) -> (asked: Result<StoreQuery, HttpResponse>)
        ensures
            match asked {
                Ok(query) => handler_query(
                    *self,
                    match user_id {
                        Some(user_id) => Some(user_id@),
                        None => None,
                    },
                ) == Ok::<_, HttpResponseView>(query@),
                Err(response) => handler_query(
                    *self,
                    match user_id {
                        Some(user_id) => Some(user_id@),
                        None => None,
                    },
                ) == Err::<StoreQueryView, _>(response@),
            },
    {
        match self {
            HandlerFunction::ListProfiles => Ok(StoreQuery::ListProfiles),
            HandlerFunction::FetchProfile => match user_id {
                Some(user_id) => Ok(StoreQuery::GetProfile { user_id: String::from_str(user_id) }),
                None => Err(
                    HttpResponse {
                        status: 400,
                        body: ResponseBody::Error(
                            ErrorResponse::bad_request("Failed to process request: no user id"),
                        ),
                    },
                ),
            },
        }
    }

    /// Makes the response to a lookup from what the store returned.
    pub fn respond(query: StoreQuery, answer: StoreAnswer) -> (response: HttpResponse)
        ensures
            response@ == handler_response(query@, answer@),
    {
        match (query, answer) {
            (StoreQuery::ListProfiles, StoreAnswer::Profiles(profiles)) => HttpResponse {
                status: 200,
                body: ResponseBody::Profiles(profiles),
            },
            (StoreQuery::GetProfile { user_id }, StoreAnswer::Profile(profile)) => HttpResponse {
                status: 200,
                body: ResponseBody::Profile(profile),
            },
            (
                StoreQuery::GetProfile { user_id },
                StoreAnswer::Failed(UserProfileStoreError::InvalidArgument),
            ) => {
                let message = String::from_str("User ID not found: ").concat(user_id.as_str());
                HttpResponse {
                    status: 404,
                    body: ResponseBody::Error(ErrorResponse::not_found(message.as_str())),
                }
            },
            _ => internal_error(),
        }
    }
}

} // verus!

use splinter_registry::profile::{
    add_fetch_profile_method, make_profile_list_route, make_profile_routes, ErrorResponse,
    HandlerFunction, HttpResponse, Method, Permission, PermissionId, Profile,
    ProtocolVersionRangeGuard, Resource, ResourceMethod, ResponseBody, StoreAnswer, StoreQuery,
    UserProfileStoreError, BIOME_PROFILE_PROTOCOL_MIN, BIOME_PROTOCOL_VERSION,
};

fn profile(user_id: &str) -> Profile {
    Profile {
        user_id: user_id.to_string(),
        subject: "subject".to_string(),
        name: Some("Name".to_string()),
        given_name: None,
        family_name: None,
        email: Some("name@example.com".to_string()),
        picture: None,
    }
}

fn internal_error() -> HttpResponse {
    HttpResponse {
        status: 500,
        body: ResponseBody::Error(ErrorResponse {
            status_code: "500".to_string(),
            message: "The server encountered an error".to_string(),
        }),
    }
}

fn check_resource(resource: &Resource, permission: Option<Permission>, handler: HandlerFunction) {
    assert_eq!(resource.route(), "/biome/profile/{id}");
    assert_eq!(
        resource.request_guards(),
        &vec![ProtocolVersionRangeGuard {
            min: BIOME_PROFILE_PROTOCOL_MIN,
            max: BIOME_PROTOCOL_VERSION
        }]
    );
    assert_eq!(
        resource.methods(),
        &vec![ResourceMethod { method: Method::Get, permission, handler }]
    );
}

#[test]
fn profile_list_route_with_authorization() {
    check_resource(
        &make_profile_list_route(true),
        Some(Permission::Check(PermissionId::BiomeUserRead)),
        HandlerFunction::ListProfiles,
    );
}

#[test]
fn profile_list_route_without_authorization() {
    check_resource(&make_profile_list_route(false), None, HandlerFunction::ListProfiles);
}

#[test]
fn profile_routes_with_authorization() {
    check_resource(
        &make_profile_routes(true),
        Some(Permission::Check(PermissionId::BiomeUserRead)),
        HandlerFunction::FetchProfile,
    );
}

#[test]
fn profile_routes_without_authorization() {
    check_resource(&make_profile_routes(false), None, HandlerFunction::FetchProfile);
    assert_eq!(add_fetch_profile_method(), HandlerFunction::FetchProfile);
}

#[test]
fn permission_identifiers() {
    assert_eq!(PermissionId::BiomeUserRead.as_str(), "biome.user.read");
    assert_eq!(PermissionId::BiomeUserWrite.as_str(), "biome.user.write");
}

#[test]
fn version_guard_admits_its_range() {
    let guard = ProtocolVersionRangeGuard::new(1, 2);
    assert!(!guard.admits(0));
    assert!(guard.admits(1));
    assert!(guard.admits(2));
    assert!(!guard.admits(3));
}

#[test]
fn resource_builds_in_order() {
    let resource = Resource::build("/r")
        .add_request_guard(ProtocolVersionRangeGuard::new(1, 1))
        .add_request_guard(ProtocolVersionRangeGuard::new(2, 3))
        .add_method(Method::Get, None, HandlerFunction::ListProfiles)
        .add_method(
            Method::Put,
            Some(Permission::AllowAuthenticated),
            HandlerFunction::FetchProfile,
        );
    assert_eq!(resource.route(), "/r");
    assert_eq!(resource.request_guards().len(), 2);
    assert_eq!(resource.request_guards()[1], ProtocolVersionRangeGuard { min: 2, max: 3 });
    assert_eq!(resource.methods().len(), 2);
    assert_eq!(resource.methods()[0].method, Method::Get);
    assert_eq!(resource.methods()[1].permission, Some(Permission::AllowAuthenticated));
}

#[test]
fn fetch_profile_without_user_id_is_a_bad_request() {
    let refused = HandlerFunction::FetchProfile.query(None).unwrap_err();
    assert_eq!(
        refused,
        HttpResponse {
            status: 400,
            body: ResponseBody::Error(ErrorResponse {
                status_code: "400".to_string(),
                message: "Failed to process request: no user id".to_string(),
            }),
        }
    );
}

#[test]
fn fetch_profile_asks_for_the_user() {
    assert_eq!(
        HandlerFunction::FetchProfile.query(Some("user-1")),
        Ok(StoreQuery::GetProfile { user_id: "user-1".to_string() })
    );
}

#[test]
fn list_profiles_asks_for_all() {
    assert_eq!(HandlerFunction::ListProfiles.query(None), Ok(StoreQuery::ListProfiles));
    assert_eq!(HandlerFunction::ListProfiles.query(Some("x")), Ok(StoreQuery::ListProfiles));
}

#[test]
fn found_profile_is_sent_back() {
    let response = HandlerFunction::respond(
        StoreQuery::GetProfile { user_id: "user-1".to_string() },
        StoreAnswer::Profile(profile("user-1")),
    );
    assert_eq!(
        response,
        HttpResponse { status: 200, body: ResponseBody::Profile(profile("user-1")) }
    );
}

#[test]
fn unknown_user_is_not_found() {
    let response = HandlerFunction::respond(
        StoreQuery::GetProfile { user_id: "user-9".to_string() },
        StoreAnswer::Failed(UserProfileStoreError::InvalidArgument),
    );
    assert_eq!(
        response,
        HttpResponse {
            status: 404,
            body: ResponseBody::Error(ErrorResponse {
                status_code: "404".to_string(),
                message: "User ID not found: user-9".to_string(),
            }),
        }
    );
}

#[test]
fn other_store_failures_are_internal_errors() {
    for error in [
        UserProfileStoreError::InternalError,
        UserProfileStoreError::ConstraintViolation,
        UserProfileStoreError::ResourceTemporarilyUnavailable,
        UserProfileStoreError::InvalidState,
    ] {
        let response = HandlerFunction::respond(
            StoreQuery::GetProfile { user_id: "user-1".to_string() },
            StoreAnswer::Failed(error),
        );
        assert_eq!(response, internal_error());
    }
}

#[test]
fn listed_profiles_are_sent_back() {
    let response = HandlerFunction::respond(
        StoreQuery::ListProfiles,
        StoreAnswer::Profiles(vec![profile("a"), profile("b")]),
    );
    assert_eq!(
        response,
        HttpResponse { status: 200, body: ResponseBody::Profiles(vec![profile("a"), profile("b")]) }
    );
}

#[test]
fn failed_listing_is_an_internal_error() {
    for error in [UserProfileStoreError::InvalidArgument, UserProfileStoreError::InternalError] {
        let response =
            HandlerFunction::respond(StoreQuery::ListProfiles, StoreAnswer::Failed(error));
        assert_eq!(response, internal_error());
    }
}

#[test]
fn answer_that_does_not_fit_is_an_internal_error() {
    let response =
        HandlerFunction::respond(StoreQuery::ListProfiles, StoreAnswer::Profile(profile("a")));
    assert_eq!(response, internal_error());
    let response = HandlerFunction::respond(
        StoreQuery::GetProfile { user_id: "a".to_string() },
        StoreAnswer::Profiles(Vec::new()),
    );
    assert_eq!(response, internal_error());
}

#[test]
fn error_response_bodies() {
    assert_eq!(
        ErrorResponse::internal_error(),
        ErrorResponse {
            status_code: "500".to_string(),
            message: "The server encountered an error".to_string()
        }
    );
    assert_eq!(
        ErrorResponse::bad_request("bad"),
        ErrorResponse { status_code: "400".to_string(), message: "bad".to_string() }
    );
    assert_eq!(
        ErrorResponse::not_found("gone"),
        ErrorResponse { status_code: "404".to_string(), message: "gone".to_string() }
    );
}

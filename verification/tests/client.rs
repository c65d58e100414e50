use taiga::client::{
    check_empty_response, check_response, map_error, parse_pagination, transport_error, HttpMethod,
    LoginRequest, PaginationMode, PatchField, RefreshRequest, ResponseHeaders, TaigaClient,
    TaigaClientBuilder, TaigaError, TransportFailure,
};
use taiga::ids::ProjectId;
use taiga::json::Json;

fn no_headers() -> ResponseHeaders {
    ResponseHeaders {
        retry_after: None,
        paginated: None,
        paginated_by: None,
        pagination_count: None,
        pagination_current: None,
        pagination_next: None,
        pagination_prev: None,
    }
}

fn client(url: &str, token: Option<&str>) -> TaigaClient {
    let builder = TaigaClient::builder(url).unwrap();
    match token {
        Some(t) => builder.bearer_token(t.to_owned()).build(),
        None => builder.build(),
    }
}

#[test]
fn normalizes_url_and_authenticates_resource_requests() {
    let client = client("http://127.0.0.1:9/api", Some("token"));
    let request = client.projects().list(&Vec::new(), PaginationMode::All).unwrap();
    assert_eq!(request.method, HttpMethod::Get);
    assert_eq!(request.url, "http://127.0.0.1:9/api/v1/projects");
    assert_eq!(request.bearer.as_deref(), Some("token"));
    assert!(request.disable_pagination);
    assert_eq!(client.api_url(), "http://127.0.0.1:9/api/v1/");
}

#[test]
fn normalizes_every_shape_of_api_url() {
    for (given, expected) in [
        ("https://tree.taiga.io", "https://tree.taiga.io/api/v1/"),
        ("https://tree.taiga.io/", "https://tree.taiga.io/api/v1/"),
        ("https://tree.taiga.io/api/", "https://tree.taiga.io/api/v1/"),
        ("https://tree.taiga.io/api/v1", "https://tree.taiga.io/api/v1/"),
        ("https://host/taiga//", "https://host/taiga/api/v1/"),
    ] {
        assert_eq!(client(given, None).api_url(), expected);
    }
    for bad in ["ftp://host", "https://user:pw@host", "https://host/?q=1", "https://host/#x", "not a url"] {
        assert!(matches!(TaigaClientBuilder::new(bad), Err(TaigaError::InvalidUrl(_))));
    }
    let builder = TaigaClientBuilder::new("https://host").unwrap();
    assert_eq!(builder.timeout_seconds(), 30);
}

#[test]
fn login_omits_bearer_and_returns_rotated_tokens() {
    let client = client("http://127.0.0.1:9", Some("token"));
    let request = client
        .auth()
        .login(&LoginRequest { username: "ada".into(), password: "secret".into() })
        .unwrap();
    assert_eq!(request.method, HttpMethod::Post);
    assert_eq!(request.url, "http://127.0.0.1:9/api/v1/auth");
    assert!(request.bearer.is_none());
    let body = request.body.unwrap();
    assert_eq!(body.get("type").and_then(|v| match v { Json::Str(s) => Some(s.clone()), _ => None }), Some("normal".to_owned()));
    assert_eq!(body.get("username").and_then(|v| match v { Json::Str(s) => Some(s.clone()), _ => None }), Some("ada".to_owned()));
    assert_eq!(body.get("password").and_then(|v| match v { Json::Str(s) => Some(s.clone()), _ => None }), Some("secret".to_owned()));
    let refresh = client.auth().refresh(&RefreshRequest { refresh: "old".into() }).unwrap();
    assert_eq!(refresh.url, "http://127.0.0.1:9/api/v1/auth/refresh");
    assert!(refresh.bearer.is_none());
}

#[test]
fn parses_pagination_and_maps_conflict() {
    let client = client("http://127.0.0.1:9", Some("token"));
    let request = client.projects().list(&Vec::new(), PaginationMode::Page(2)).unwrap();
    assert_eq!(request.query, vec![("page".to_owned(), "2".to_owned())]);
    assert!(!request.disable_pagination);
    let headers = ResponseHeaders {
        paginated: Some("true".into()),
        pagination_count: Some("3".into()),
        ..no_headers()
    };
    let pagination = check_response(200, "[]", &headers, true).unwrap().unwrap();
    assert_eq!(pagination.count, Some(3));
    assert_eq!(pagination.paginated, Some(true));
    let patch = client.tasks().patch(8, Json::Null).unwrap();
    assert_eq!(patch.method, HttpMethod::Patch);
    assert_eq!(patch.url, "http://127.0.0.1:9/api/v1/tasks/8");
    assert!(matches!(
        check_response(409, r#"{"_error_message":"stale version"}"#, &no_headers(), false),
        Err(TaigaError::Conflict { message }) if message == "stale version"
    ));
}

#[test]
fn maps_every_error_status() {
    assert!(matches!(map_error(401, "x", None), TaigaError::Unauthorized { message } if message == "x"));
    assert!(matches!(map_error(403, "x", None), TaigaError::Forbidden { .. }));
    assert!(matches!(map_error(404, "x", None), TaigaError::NotFound { .. }));
    assert!(matches!(map_error(429, "x", Some("7".into())), TaigaError::RateLimited { retry_after: Some(r), .. } if r == "7"));
    assert!(matches!(map_error(418, "x", None), TaigaError::ClientResponse { status: 418, .. }));
    assert!(matches!(map_error(503, "x", None), TaigaError::ServerResponse { status: 503, .. }));
    assert!(matches!(map_error(302, "x", None), TaigaError::UnexpectedStatus { status: 302, .. }));
    assert_eq!(
        map_error(500, r#"{"_error_message":"boom"}"#, None).message(),
        "Taiga server error 500 Internal Server Error: boom"
    );
    assert_eq!(map_error(401, "plain", None).message(), "authentication failed: plain");
    assert!(check_empty_response(204, "").is_ok());
    assert!(check_empty_response(404, "").is_err());
    assert!(check_response(200, "[]", &no_headers(), false).unwrap().is_none());
}

#[test]
fn reads_pagination_headers_leniently() {
    let headers = ResponseHeaders {
        paginated: Some("false".into()),
        paginated_by: Some("30".into()),
        pagination_count: Some("many".into()),
        pagination_current: Some("2".into()),
        pagination_next: Some("https://n".into()),
        ..no_headers()
    };
    let p = parse_pagination(&headers).unwrap();
    assert_eq!(p.paginated, Some(false));
    assert_eq!(p.page_size, Some(30));
    assert_eq!(p.count, None);
    assert_eq!(p.current, Some(2));
    assert_eq!(p.next.as_deref(), Some("https://n"));
    assert!(parse_pagination(&no_headers()).is_none());
}

#[test]
fn requests_need_a_token_and_a_positive_page() {
    let anonymous = client("http://127.0.0.1:9", None);
    assert!(matches!(anonymous.projects().get(1), Err(TaigaError::Unauthorized { .. })));
    let client = client("http://127.0.0.1:9", Some("t"));
    assert!(matches!(
        client.projects().list(&Vec::new(), PaginationMode::Page(0)),
        Err(TaigaError::InvalidUrl(_))
    ));
    let by_ref = client.user_stories().by_ref(ProjectId(3), 12).unwrap();
    assert_eq!(by_ref.url, "http://127.0.0.1:9/api/v1/userstories/by_ref");
    assert_eq!(
        by_ref.query,
        vec![("project".to_owned(), "3".to_owned()), ("ref".to_owned(), "12".to_owned())]
    );
    let delete = client.issues().delete(5).unwrap();
    assert_eq!(delete.method, HttpMethod::Delete);
    assert_eq!(delete.url, "http://127.0.0.1:9/api/v1/issues/5");
}

#[test]
fn transport_error_includes_connection_category() {
    let failure = TransportFailure {
        timeout: false,
        connect: true,
        request: false,
        decode: false,
        detail: "refused".into(),
    };
    let message = transport_error(failure).message();
    assert!(message.contains("connection, DNS, proxy, or TLS handshake failed"));
    assert_eq!(
        message,
        "HTTP transport failure: connection, DNS, proxy, or TLS handshake failed: refused"
    );
}

#[test]
fn patch_fields_become_json_values() {
    assert!(PatchField::<Json>::Unset.into_value().is_none());
    assert!(matches!(PatchField::<Json>::Null.into_value(), Some(Json::Null)));
    assert!(matches!(PatchField::Value(Json::Bool(true)).into_value(), Some(Json::Bool(true))));
}

use tuck::credential::{CredentialError, IdentityLabel, InMemoryCredentialStore};
use tuck::injection::{
    base64_encode, inject_body_field, inject_credential, inject_into_request, InjectionTarget, OutboundRequest,
};

fn setup_store() -> InMemoryCredentialStore {
    let mut store = InMemoryCredentialStore::new();
    store.insert("env:API_KEY", b"sk-test-12345");
    store.insert("env:BEARER_TOKEN", b"eyJhbGciOiJIUzI1NiJ9.test");
    store.insert("env:DB_PASSWORD", b"super_secret_pw");
    store.insert("file:/tmp/secret", b"file-based-secret");
    store
}

#[test]
fn test_base64_encode() {
    assert_eq!(base64_encode(b""), "");
    assert_eq!(base64_encode(b"f"), "Zg==");
    assert_eq!(base64_encode(b"fo"), "Zm8=");
    assert_eq!(base64_encode(b"foo"), "Zm9v");
    assert_eq!(base64_encode(b"admin:password"), "YWRtaW46cGFzc3dvcmQ=");
}

#[test]
fn inject_http_header_from_store() {
    let store = setup_store();
    let label = IdentityLabel::parse("env:API_KEY").unwrap();
    let target = InjectionTarget::header("X-API-Key");
    let credential = store.get(&label).unwrap();
    let mut request = OutboundRequest::new();
    let result = inject_credential(&label, &target, &credential, &mut request);
    assert!(result.success);
    assert_eq!(result.credential_len, 13);
    assert_eq!(result.label, label);
    assert_eq!(result.target, target);
    assert!(result.error.is_none());
    assert_eq!(request.get_header("X-API-Key").unwrap(), "sk-test-12345");
}

#[test]
fn inject_bearer_and_query() {
    let store = setup_store();
    let label = IdentityLabel::parse("env:BEARER_TOKEN").unwrap();
    let credential = store.get(&label).unwrap();
    let mut request = OutboundRequest::new();
    let result = inject_credential(&label, &InjectionTarget::BearerToken, &credential, &mut request);
    assert!(result.success);
    assert_eq!(request.get_header("authorization").unwrap(), "Bearer eyJhbGciOiJIUzI1NiJ9.test");

    let label = IdentityLabel::parse("env:API_KEY").unwrap();
    let credential = store.get(&label).unwrap();
    let mut request = OutboundRequest::new();
    inject_credential(&label, &InjectionTarget::query_param("api_key"), &credential, &mut request);
    assert_eq!(request.query_params.get("api_key").unwrap(), "sk-test-12345");
}

#[test]
fn inject_basic_auth_encodes_user_and_password() {
    let store = setup_store();
    let label = IdentityLabel::parse("env:DB_PASSWORD").unwrap();
    let credential = store.get(&label).unwrap();
    let target = InjectionTarget::BasicAuth { username: "admin".to_string() };
    let mut request = OutboundRequest::new();
    let result = inject_credential(&label, &target, &credential, &mut request);
    assert!(result.success);
    let auth = request.get_header("Authorization").unwrap();
    assert_eq!(auth, &format!("Basic {}", base64_encode(b"admin:super_secret_pw")));
}

#[test]
fn inject_missing_credential_is_not_found() {
    let store = setup_store();
    let label = IdentityLabel::parse("env:MISSING").unwrap();
    assert!(matches!(store.get(&label), Err(CredentialError::NotFound(_))));
}

#[test]
fn non_utf8_credential_fails_and_leaves_request() {
    let mut request = OutboundRequest::new().with_header("A", "b");
    let r = inject_into_request(&[0xFF, 0x00], &InjectionTarget::header("X-Key"), &mut request);
    match r {
        Err(m) => assert!(m.starts_with("invalid UTF-8 in credential: ")),
        Ok(()) => panic!("expected an error"),
    }
    assert_eq!(request.headers.len(), 1);
    assert!(request.get_header("X-Key").is_none());
}

#[test]
fn injection_result_never_holds_secret() {
    let store = setup_store();
    let label = IdentityLabel::parse("env:API_KEY").unwrap();
    let credential = store.get(&label).unwrap();
    let mut request = OutboundRequest::new();
    let result = inject_credential(&label, &InjectionTarget::header("X-Key"), &credential, &mut request);
    let result_debug = format!("{:?}", result);
    assert!(!result_debug.contains("sk-test-12345"));
    assert_eq!(request.get_header("X-Key").unwrap(), "sk-test-12345");
}

#[test]
fn header_replaced_not_duplicated() {
    let mut request = OutboundRequest::new().with_header("X-Key", "old");
    inject_into_request(b"new", &InjectionTarget::header("X-Key"), &mut request).unwrap();
    assert_eq!(request.headers.len(), 1);
    assert_eq!(request.get_header("x-key").unwrap(), "new");
}

#[test]
fn test_inject_body_field() {
    let store = setup_store();
    let label = IdentityLabel::parse("env:DB_PASSWORD").unwrap();
    let credential = store.get(&label).unwrap();
    let target = InjectionTarget::body_field("database.password");
    let mut request = OutboundRequest::new().with_body(br#"{"database":{"host":"localhost"}}"#.to_vec());
    let result = inject_credential(&label, &target, &credential, &mut request);
    assert!(result.success);
    let body = request.body.unwrap();
    let json: serde_json::Value = serde_json::from_slice(&body).unwrap();
    assert_eq!(json["database"]["password"], "super_secret_pw");
    assert_eq!(json["database"]["host"], "localhost");
}

#[test]
fn test_inject_body_field_new_body() {
    let store = setup_store();
    let label = IdentityLabel::parse("env:API_KEY").unwrap();
    let credential = store.get(&label).unwrap();
    let target = InjectionTarget::body_field("auth.api_key");
    let mut request = OutboundRequest::new();
    let result = inject_credential(&label, &target, &credential, &mut request);
    assert!(result.success);
    let body = request.body.unwrap();
    assert_eq!(body, br#"{"auth":{"api_key":"sk-test-12345"}}"#.to_vec());
}

#[test]
fn body_field_exact_bytes_and_edge_cases() {
    // Existing fields are kept (serde_json writes object keys in order).
    let out = inject_body_field(b"s", "b.c", &Some(br#"{"z":1,"b":{"a":[true,null,2.5]}}"#.to_vec())).unwrap();
    assert_eq!(out, br#"{"b":{"a":[true,null,2.5],"c":"s"},"z":1}"#.to_vec());
    // A null on the way becomes an object.
    let out = inject_body_field(b"s", "a.b", &Some(b"null".to_vec())).unwrap();
    assert_eq!(out, br#"{"a":{"b":"s"}}"#.to_vec());
    // A field replaced, a single-part path.
    let out = inject_body_field(b"new", "k", &Some(br#"{"k":"old"}"#.to_vec())).unwrap();
    assert_eq!(out, br#"{"k":"new"}"#.to_vec());
    // A value on the way that cannot hold a field.
    let err = inject_body_field(b"s", "a.b", &Some(br#"{"a":5}"#.to_vec())).unwrap_err();
    assert_eq!(err, "cannot set field a.b in the JSON body");
    // Not JSON.
    let err = inject_body_field(b"s", "a", &Some(b"{oops".to_vec())).unwrap_err();
    assert!(err.starts_with("invalid JSON body: "), "{err}");
    // Not UTF-8: the request is left as it was.
    let mut request = OutboundRequest::new().with_body(b"{}".to_vec());
    let r = inject_into_request(&[0xff, 0xfe], &InjectionTarget::body_field("a"), &mut request);
    assert!(r.unwrap_err().starts_with("invalid UTF-8 in credential: "));
    assert_eq!(request.body, Some(b"{}".to_vec()));
}

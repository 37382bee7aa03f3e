use tower_azuread_oidc::{
    authorize, authorize_location, begin_callback, metadata_url, prepare_verification, route,
    select_key, start_validation, AzureADOIDCLayer, CallbackError, FailureKind, Form, Jwk,
    ProviderMetadata, Redirect, Route,
};
use tower_azuread_oidc::callback::{form_from_pairs, read_callback_form};

const TOKEN_WITH_KID: &str = "eyJhbGciOiJSUzI1NiIsImtpZCI6ImsxIn0.e30.c2ln";
const TOKEN_WITHOUT_KID: &str = "eyJhbGciOiJSUzI1NiIsInR5cCI6IkpXVCJ9.e30.c2ln";

fn key(kid: &str, n: &str) -> Jwk {
    Jwk { kid: kid.to_owned(), n: n.to_owned(), e: "AQAB".to_owned() }
}

fn pairs(items: &[(&str, &str)]) -> Vec<(String, String)> {
    items.iter().map(|(k, v)| (k.to_string(), v.to_string())).collect()
}

#[test]
fn login_path_redirects() {
    assert_eq!(route("GET", "/auth/azure"), Route::Authorize);
}

#[test]
fn callback_path_is_handled() {
    assert_eq!(route("POST", "/auth/azure/callback"), Route::Callback);
}

#[test]
fn other_path_passes_through() {
    assert_eq!(route("GET", "/other/path"), Route::PassThrough);
}

#[test]
fn wrong_method_passes_through() {
    assert_eq!(route("POST", "/auth/azure"), Route::PassThrough);
    assert_eq!(route("GET", "/auth/azure/callback"), Route::PassThrough);
    assert_eq!(route("get", "/auth/azure"), Route::PassThrough);
    assert_eq!(route("GET", "/auth/azure/"), Route::PassThrough);
}

#[test]
fn redirect_scenario() {
    let r: Redirect = authorize("t1", "c1", "http://localhost/cb").unwrap();
    assert_eq!(r.status, 302);
    assert!(r
        .location
        .starts_with("https://login.microsoftonline.com/t1/oauth2/v2.0/authorize?"));
    assert!(r.location.contains("client_id=c1"));
    assert!(r.location.contains("redirect_url=http%3A%2F%2Flocalhost%2Fcb"));
    assert!(r.location.contains("response_type=id_token"));
    assert!(r.location.contains("response_mode=form_post"));
    assert!(r.location.contains("scope=openid+profile"));
    assert_eq!(r.nonce.len(), 36);
    assert!(r.location.ends_with(&format!("&nonce={}", r.nonce)));
}

#[test]
fn nonces_differ() {
    let a = authorize("t1", "c1", "http://localhost/cb").unwrap();
    let b = authorize("t1", "c1", "http://localhost/cb").unwrap();
    assert!(!a.nonce.is_empty());
    assert_ne!(a.nonce, b.nonce);
}

#[test]
fn location_exact() {
    let l = authorize_location("t1", "c1", "http://localhost/cb", "n1").unwrap();
    assert_eq!(
        l,
        "https://login.microsoftonline.com/t1/oauth2/v2.0/authorize?client_id=c1\
         &response_type=id_token&redirect_url=http%3A%2F%2Flocalhost%2Fcb\
         &response_mode=form_post&scope=openid+profile&nonce=n1"
    );
}

#[test]
fn location_encodes_tenant_and_client() {
    let l = authorize_location("a/b c", "x&y=z", "cb", "n").unwrap();
    assert!(l.starts_with("https://login.microsoftonline.com/a%2Fb%20c/oauth2/v2.0/authorize?"));
    assert!(l.contains("client_id=x%26y%3Dz&"));
}

#[test]
fn provider_error_form() {
    match read_callback_form(b"error=access_denied&error_description=User+declined") {
        Form::ProviderError(e) => {
            assert_eq!(e.error, "access_denied");
            assert_eq!(e.error_description, "User declined");
        }
        other => panic!("unexpected {:?}", other),
    }
}

#[test]
fn provider_error_ends_callback() {
    let e = begin_callback(b"error=access_denied&error_description=User+declined", "t1")
        .unwrap_err();
    assert_eq!(e.error, "access_denied");
    assert_eq!(e.error_description, "User declined");
}

#[test]
fn token_form() {
    match read_callback_form(b"id_token=abc.def.ghi&state=1") {
        Form::IdToken(t) => assert_eq!(t, "abc.def.ghi"),
        other => panic!("unexpected {:?}", other),
    }
}

#[test]
fn token_wins_over_error() {
    let f = form_from_pairs(&pairs(&[
        ("error", "e"),
        ("error_description", "d"),
        ("id_token", "tok"),
    ]));
    assert!(matches!(f, Form::IdToken(ref t) if t == "tok"));
}

#[test]
fn repeated_field_counts_as_absent() {
    let f = form_from_pairs(&pairs(&[("id_token", "one"), ("id_token", "two")]));
    assert!(matches!(f, Form::Malformed));
    let f = form_from_pairs(&pairs(&[
        ("id_token", "one"),
        ("id_token", "two"),
        ("error", "e"),
        ("error_description", "d"),
    ]));
    assert!(matches!(f, Form::ProviderError(ref e) if e.error == "e" && e.error_description == "d"));
}

#[test]
fn error_without_description_is_malformed() {
    assert!(matches!(form_from_pairs(&pairs(&[("error", "e")])), Form::Malformed));
    assert!(matches!(form_from_pairs(&pairs(&[])), Form::Malformed));
}

#[test]
fn malformed_body_fails() {
    assert!(matches!(read_callback_form(b"foo=bar"), Form::Malformed));
    let e = begin_callback(b"foo=bar", "t1").unwrap_err();
    assert_eq!(e.error, "malformed_callback_body");
}

#[test]
fn unreadable_token_fails() {
    let e = begin_callback(b"id_token=not-a-token", "t1").unwrap_err();
    assert_eq!(e.error, "malformed_token");
}

#[test]
fn token_without_key_id_fails() {
    let body = format!("id_token={}", TOKEN_WITHOUT_KID);
    let e = begin_callback(body.as_bytes(), "t1").unwrap_err();
    assert_eq!(e.error, "malformed_token");
}

#[test]
fn token_with_key_id_is_pending() {
    let body = format!("id_token={}", TOKEN_WITH_KID);
    let p = begin_callback(body.as_bytes(), "t1").unwrap();
    assert_eq!(p.id_token, TOKEN_WITH_KID);
    assert_eq!(p.key_id, "k1");
    assert_eq!(p.algorithm, jsonwebtoken::Algorithm::RS256);
    assert_eq!(
        p.metadata_url,
        "https://login.microsoftonline.com/t1/v2.0/.well-known/openid-configuration"
    );
}

#[test]
fn start_validation_passes_provider_error_on() {
    let form = Form::ProviderError(CallbackError {
        error: "access_denied".to_owned(),
        error_description: "no".to_owned(),
    });
    let e = start_validation(form, "t1").unwrap_err();
    assert_eq!(e.error, "access_denied");
    assert_eq!(e.error_description, "no");
}

#[test]
fn metadata_url_exact() {
    assert_eq!(
        metadata_url("tenant"),
        "https://login.microsoftonline.com/tenant/v2.0/.well-known/openid-configuration"
    );
}

#[test]
fn select_key_takes_first_match() {
    let keys = vec![key("a", "1"), key("b", "2"), key("b", "3")];
    assert_eq!(select_key(&keys, "b"), Some(1));
    assert_eq!(select_key(&keys, "a"), Some(0));
    assert_eq!(select_key(&keys, "c"), None);
    assert_eq!(select_key(&[].to_vec(), "a"), None);
}

#[test]
fn verification_policy() {
    let body = format!("id_token={}", TOKEN_WITH_KID);
    let p = begin_callback(body.as_bytes(), "t1").unwrap();
    let metadata = ProviderMetadata {
        issuer: "https://issuer/t1/v2.0".to_owned(),
        jwks_uri: "https://keys".to_owned(),
    };
    let keys = vec![key("k0", "m0"), key("k1", "m1")];
    let (i, policy) = prepare_verification(&p, "c1", metadata, &keys).unwrap();
    assert_eq!(i, 1);
    assert_eq!(keys[i].n, "m1");
    assert_eq!(policy.algorithm, jsonwebtoken::Algorithm::RS256);
    assert_eq!(policy.audience, "c1");
    assert_eq!(policy.issuer, "https://issuer/t1/v2.0");
    assert!(policy.validate_exp);
    assert!(policy.validate_nbf);
}

#[test]
fn unknown_key_fails() {
    let body = format!("id_token={}", TOKEN_WITH_KID);
    let p = begin_callback(body.as_bytes(), "t1").unwrap();
    let metadata = ProviderMetadata { issuer: "i".to_owned(), jwks_uri: "j".to_owned() };
    let keys = vec![key("k0", "m0"), key("k2", "m2")];
    let e = prepare_verification(&p, "c1", metadata, &keys).unwrap_err();
    assert_eq!(e.error, "unknown_signing_key");
}

#[test]
fn failure_codes() {
    assert_eq!(FailureKind::MetadataFetchError.code(), "metadata_fetch_error");
    assert_eq!(FailureKind::KeySetFetchError.code(), "key_set_fetch_error");
    let e = CallbackError::failure(FailureKind::MalformedToken, "why".to_owned());
    assert_eq!(e.error, "malformed_token");
    assert_eq!(e.error_description, "why");
    let e = CallbackError::verification_failure(true, "d".to_owned());
    assert_eq!(e.error, "claims_decode_error");
    let e = CallbackError::verification_failure(false, "d".to_owned());
    assert_eq!(e.error, "claim_validation_error");
}

#[test]
fn layer_keeps_configuration() {
    let layer = AzureADOIDCLayer::<()>::new("t1".to_owned(), "c1".to_owned(), "cb".to_owned());
    let svc = layer.layer(7u8);
    assert_eq!(*svc.inner(), 7);
    assert_eq!(svc.tenant_id(), "t1");
    assert_eq!(svc.client_id(), "c1");
    assert_eq!(svc.callback_url(), "cb");
}

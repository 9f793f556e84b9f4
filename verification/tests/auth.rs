use std::cell::{Cell, RefCell};
use std::rc::Rc;

use mcp_sdk::auth::{
    bearer_token, AuthContext, AuthProvider, AuthenticationResult, Authenticator, Authorizer,
    BearerTokenAuthenticator, BearerTokenProvider, NoAuthAuthenticator, ScopeBasedAuthorizer,
    SimpleTokenVerifier, TokenVerifier,
};
use mcp_sdk::string_map::StringMap;

const AUTHORIZATION: &str = "authorization";

struct RecordingVerifier {
    result: AuthenticationResult,
    calls: Cell<usize>,
    last_token: RefCell<String>,
}

impl RecordingVerifier {
    fn new(result: AuthenticationResult) -> Rc<Self> {
        Rc::new(Self { result, calls: Cell::new(0), last_token: RefCell::new(String::new()) })
    }
}

struct Shared(Rc<RecordingVerifier>);

impl TokenVerifier for Shared {
    fn verify_token(&self, token: &str) -> AuthenticationResult {
        self.0.calls.set(self.0.calls.get() + 1);
        *self.0.last_token.borrow_mut() = token.to_string();
        self.0.result.clone()
    }
}

fn nobody() -> AuthenticationResult {
    AuthenticationResult { authenticated: false, context: None, error_description: None }
}

fn with_header(value: &str) -> StringMap<String> {
    let mut headers = StringMap::new();
    headers.insert(AUTHORIZATION.to_string(), value.to_string());
    headers
}

#[test]
fn bearer_provider_skips_empty_token() {
    let mut headers: StringMap<String> = StringMap::new();
    BearerTokenProvider::new(String::new()).apply(&mut headers);
    assert!(headers.is_empty());
}

#[test]
fn bearer_provider_sets_authorization_header() {
    let mut headers: StringMap<String> = StringMap::new();
    let mut provider = BearerTokenProvider::new("abc123".to_string());
    provider.apply(&mut headers);
    assert_eq!(headers.get(AUTHORIZATION).unwrap(), "Bearer abc123");
    provider.set_token("new-token".to_string());
    assert_eq!(provider.token(), "new-token");
    provider.apply(&mut headers);
    assert_eq!(headers.get(AUTHORIZATION).unwrap(), "Bearer new-token");
    provider.set_token("bad\r\ntoken".to_string());
    let mut fresh: StringMap<String> = StringMap::new();
    provider.apply(&mut fresh);
    assert!(fresh.is_empty());
}

#[test]
fn no_line_break_gets_into_a_header() {
    for token in ["a\nb", "a\rb", "\n", "\r"] {
        let mut headers = with_header("Basic kept");
        BearerTokenProvider::new(token.to_string()).apply(&mut headers);
        assert_eq!(headers.get(AUTHORIZATION).unwrap(), "Basic kept");
    }
}

#[test]
fn a_provided_token_is_read() {
    for token in ["abc123", "two words", "x ", "Bearer y"] {
        let mut headers: StringMap<String> = StringMap::new();
        BearerTokenProvider::new(token.to_string()).apply(&mut headers);
        assert_eq!(bearer_token(&headers).unwrap(), token);
    }
    // Blanks in front of a token do not belong to it.
    let mut headers: StringMap<String> = StringMap::new();
    BearerTokenProvider::new(" z".to_string()).apply(&mut headers);
    assert_eq!(bearer_token(&headers).unwrap(), "z");
}

#[test]
fn no_auth_always_authenticated_with_context() {
    let result = NoAuthAuthenticator.authenticate(&StringMap::new());
    assert!(result.authenticated);
    assert!(result.context.is_some());
}

#[test]
fn bearer_authenticator_failures() {
    let none: Option<Shared> = None;
    let missing = BearerTokenAuthenticator::new(none).authenticate(&StringMap::new());
    assert!(!missing.authenticated);
    assert_eq!(missing.error_description.as_deref(), Some("Token verifier not configured"));

    let verifier = RecordingVerifier::new(nobody());
    let auth = BearerTokenAuthenticator::new(Some(Shared(verifier.clone())));
    let r = auth.authenticate(&StringMap::new());
    assert_eq!(r.error_description.as_deref(), Some("Missing Authorization header"));

    let r = auth.authenticate(&with_header("Basic abc"));
    assert_eq!(
        r.error_description.as_deref(),
        Some("Authorization header must use Bearer scheme")
    );

    let r = auth.authenticate(&with_header("Bearer "));
    assert_eq!(r.error_description.as_deref(), Some("Bearer token is empty"));
    assert_eq!(verifier.calls.get(), 0);
}

#[test]
fn bearer_authenticator_forwards_token_case_insensitively() {
    let ok = AuthenticationResult {
        authenticated: true,
        context: Some(AuthContext {
            client_id: Some("client-1".into()),
            scopes: Some("scope:a scope:b".into()),
        }),
        error_description: None,
    };
    let verifier = RecordingVerifier::new(ok);
    let auth = BearerTokenAuthenticator::new(Some(Shared(verifier.clone())));
    let r = auth.authenticate(&with_header("Bearer live-token"));
    assert!(r.authenticated);
    assert_eq!(verifier.calls.get(), 1);
    assert_eq!(*verifier.last_token.borrow(), "live-token");
    assert_eq!(r.context.unwrap().client_id.as_deref(), Some("client-1"));

    let r = auth.authenticate(&with_header("bEaReR MiXeD"));
    assert!(r.authenticated);
    assert_eq!(*verifier.last_token.borrow(), "MiXeD");
}

#[test]
fn scope_authorizer_rules() {
    assert!(ScopeBasedAuthorizer::new("").is_err());
    assert!(ScopeBasedAuthorizer::new("  \t ").is_err());
    let authorizer = ScopeBasedAuthorizer::new("read write").unwrap();
    assert!(!authorizer.authorize(&nobody()));
    let missing_ctx =
        AuthenticationResult { authenticated: true, context: None, error_description: None };
    assert!(!authorizer.authorize(&missing_ctx));
    let mut ok = AuthenticationResult {
        authenticated: true,
        context: Some(AuthContext { client_id: None, scopes: Some("read write delete".into()) }),
        error_description: None,
    };
    assert!(authorizer.authorize(&ok));
    ok.context.as_mut().unwrap().scopes = Some("read".into());
    assert!(!authorizer.authorize(&ok));
    ok.context.as_mut().unwrap().scopes = Some(String::new());
    assert!(!authorizer.authorize(&ok));
}

#[test]
fn scope_authorizer_updates_required_scopes() {
    let mut authorizer = ScopeBasedAuthorizer::new("read").unwrap();
    authorizer.set_required_scopes("admin manage").unwrap();
    assert_eq!(authorizer.required_scopes(), "admin manage");
    let refused = authorizer.set_required_scopes(" ").unwrap_err();
    assert_eq!(refused.message(), "requiredScopes must not be empty");
    assert_eq!(authorizer.required_scopes(), "admin manage");
}

#[test]
fn simple_token_verifier() {
    let mut verifier = SimpleTokenVerifier::new(StringMap::new());
    verifier.add_token("t1".to_string(), "read write".to_string());
    assert_eq!(verifier.verify_token("").error_description.as_deref(), Some("Token is empty"));
    assert_eq!(verifier.verify_token("nope").error_description.as_deref(), Some("Invalid token"));
    let ok = verifier.verify_token("t1");
    assert!(ok.authenticated);
    let context = ok.context.unwrap();
    assert_eq!(context.scopes.as_deref(), Some("read write"));
    assert_eq!(context.client_id.as_deref(), Some("client-t1"));
    verifier.remove_token("t1");
    assert!(!verifier.verify_token("t1").authenticated);
}

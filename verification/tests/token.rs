use keyper::authorization::{
    authorization_code, AuthorizationRequest, AuthorizationSuccessResponse, ResponseType,
};
use keyper::client::{ClientData, ClientType, MapClientStore};
use keyper::code::{RandomIssuer, TokenIssuer};
use keyper::grant::{Grant, GrantStore, MemoryGrantStore};
use keyper::token::{
    access_token, issue, judge, refuse, AccessTokenError, AccessTokenRequest, GrantType,
    TokenConfig, TokenType, DEFAULT_EXPIRES_IN,
};

/// An issuer that hands out the values it was given, one after the other.
struct ListedTokens {
    tokens: Vec<String>,
}

impl TokenIssuer for ListedTokens {
    fn issue_token(&mut self) -> String {
        self.tokens.remove(0)
    }
}

const NOW: i64 = 1_700_000_000;

fn grant(code: &str) -> Grant {
    Grant {
        code: code.to_string(),
        client_id: "s6BhdRkqt3".to_string(),
        redirect_uri: "https://client.example.com/cb".to_string(),
        scope: Some("read".to_string()),
        owner_id: Some(7),
        created_at: NOW,
        expires_at: NOW + 600,
    }
}

fn store_with(code: &str) -> MemoryGrantStore {
    let mut store = MemoryGrantStore::new();
    store.create(grant(code)).unwrap();
    store
}

fn request(code: &str) -> AccessTokenRequest {
    AccessTokenRequest {
        grant_type: GrantType::AuthorizationCode,
        code: code.to_string(),
        redirect_uri: None,
        client_id: None,
    }
}

#[test]
fn test_access_token() {
    let access_token_request = AccessTokenRequest {
        grant_type: GrantType::AuthorizationCode,
        code: "foobar".to_string(),
        redirect_uri: None,
        client_id: None,
    };
    let mut grant_store = store_with("foobar");

    let response =
        access_token(access_token_request, &mut grant_store, &mut RandomIssuer::new(), &TokenConfig::default(), NOW).unwrap();
    assert_eq!(response.token_type, TokenType::Bearer);
}

#[test]
fn token_test_access_token() {
    let access_token_request = AccessTokenRequest {
        grant_type: GrantType::AuthorizationCode,
        code: "foobar".to_string(),
        redirect_uri: None,
        client_id: None,
    };
    let mut grant_store = store_with("foobar");

    let response =
        access_token(access_token_request, &mut grant_store, &mut RandomIssuer::new(), &TokenConfig::default(), NOW).unwrap();
    assert_eq!(response.token_type, TokenType::Bearer);
}

#[test]
fn successful_exchange_answers_with_a_bearer_token() {
    let mut store = store_with("foobar");
    let response = access_token(request("foobar"), &mut store, &mut RandomIssuer::new(), &TokenConfig::default(), NOW).unwrap();
    assert_eq!(response.token_type, TokenType::Bearer);
    assert_eq!(response.expires_in, 3600);
    assert_eq!(response.refresh_token, None);
    assert_eq!(response.scope, Some("read".to_string()));
    assert_eq!(response.access_token.len(), 32);
    assert!(response.access_token.chars().all(|c| c.is_ascii_alphanumeric()));
    assert_ne!(response.access_token, "foobar");
}

#[test]
fn code_is_good_for_one_exchange() {
    let mut store = store_with("foobar");
    let config = TokenConfig::default();
    assert!(access_token(request("foobar"), &mut store, &mut RandomIssuer::new(), &config, NOW).is_ok());
    for later in [NOW, NOW + 1, NOW + 599, NOW + 10_000] {
        let mut again = request("foobar");
        again.client_id = Some("s6BhdRkqt3".to_string());
        again.redirect_uri = Some("https://client.example.com/cb".to_string());
        let response = access_token(again, &mut store, &mut RandomIssuer::new(), &config, later).unwrap_err();
        assert_eq!(response.error, AccessTokenError::InvalidGrant);
    }
    assert_eq!(store.len(), 0);
}

#[test]
fn failed_exchange_burns_the_code() {
    let mut store = store_with("foobar");
    let config = TokenConfig::default();

    let mut wrong_client = request("foobar");
    wrong_client.client_id = Some("someone-else".to_string());
    let response = access_token(wrong_client, &mut store, &mut RandomIssuer::new(), &config, NOW).unwrap_err();
    assert_eq!(response.error, AccessTokenError::InvalidGrant);
    assert!(!store.contains("foobar"));

    let mut corrected = request("foobar");
    corrected.client_id = Some("s6BhdRkqt3".to_string());
    let response = access_token(corrected, &mut store, &mut RandomIssuer::new(), &config, NOW).unwrap_err();
    assert_eq!(response.error, AccessTokenError::InvalidGrant);
}

#[test]
fn unknown_code_is_an_invalid_grant() {
    let mut store = store_with("foobar");
    let response =
        access_token(request("foobaz"), &mut store, &mut RandomIssuer::new(), &TokenConfig::default(), NOW).unwrap_err();
    assert_eq!(response.error, AccessTokenError::InvalidGrant);
    assert_eq!(response.error_description, None);
    assert_eq!(response.error_uri, None);
    assert!(store.contains("foobar"));
}

#[test]
fn expired_code_is_an_invalid_grant() {
    let config = TokenConfig::default();

    let mut store = store_with("foobar");
    assert!(access_token(request("foobar"), &mut store, &mut RandomIssuer::new(), &config, NOW + 599).is_ok());

    let mut store = store_with("foobar");
    let response = access_token(request("foobar"), &mut store, &mut RandomIssuer::new(), &config, NOW + 600).unwrap_err();
    assert_eq!(response.error, AccessTokenError::InvalidGrant);
    assert!(!store.contains("foobar"));

    let mut store = store_with("foobar");
    let response = access_token(request("foobar"), &mut store, &mut RandomIssuer::new(), &config, NOW + 601).unwrap_err();
    assert_eq!(response.error, AccessTokenError::InvalidGrant);
}

#[test]
fn another_client_cannot_redeem_the_code() {
    let mut store = store_with("foobar");
    let mut other = request("foobar");
    other.client_id = Some("S6BhdRkqt3".to_string());
    let response = access_token(other, &mut store, &mut RandomIssuer::new(), &TokenConfig::default(), NOW).unwrap_err();
    assert_eq!(response.error, AccessTokenError::InvalidGrant);
}

#[test]
fn another_redirect_uri_cannot_redeem_the_code() {
    let mut store = store_with("foobar");
    let mut other = request("foobar");
    other.client_id = Some("s6BhdRkqt3".to_string());
    other.redirect_uri = Some("https://client.example.com/cb/".to_string());
    let response = access_token(other, &mut store, &mut RandomIssuer::new(), &TokenConfig::default(), NOW).unwrap_err();
    assert_eq!(response.error, AccessTokenError::InvalidGrant);
}

#[test]
fn matching_client_and_redirect_uri_redeem_the_code() {
    let mut store = store_with("foobar");
    let mut matching = request("foobar");
    matching.client_id = Some("s6BhdRkqt3".to_string());
    matching.redirect_uri = Some("https://client.example.com/cb".to_string());
    assert!(access_token(matching, &mut store, &mut RandomIssuer::new(), &TokenConfig::default(), NOW).is_ok());
}

#[test]
fn other_grant_types_are_unsupported() {
    for grant_type in [GrantType::Password, GrantType::ClientCredentials, GrantType::RefreshToken] {
        let mut store = store_with("foobar");
        let mut other = request("foobar");
        other.grant_type = grant_type;
        let response = access_token(other, &mut store, &mut RandomIssuer::new(), &TokenConfig::default(), NOW).unwrap_err();
        assert_eq!(response.error, AccessTokenError::UnsupportedGrantType);
        assert!(store.contains("foobar"));
        assert!(access_token(request("foobar"), &mut store, &mut RandomIssuer::new(), &TokenConfig::default(), NOW).is_ok());
    }
}

#[test]
fn configuration_sets_lifetime_and_refresh_token() {
    assert_eq!(DEFAULT_EXPIRES_IN, 3600);
    assert_eq!(
        TokenConfig::default(),
        TokenConfig { expires_in: 3600, issue_refresh_token: false }
    );

    let config = TokenConfig { expires_in: 120, issue_refresh_token: true };
    let mut store = store_with("foobar");
    let response = access_token(request("foobar"), &mut store, &mut RandomIssuer::new(), &config, NOW).unwrap();
    assert_eq!(response.expires_in, 120);
    let refresh_token = response.refresh_token.unwrap();
    assert_eq!(refresh_token.len(), 32);
    assert!(refresh_token.chars().all(|c| c.is_ascii_alphanumeric()));
    assert_ne!(refresh_token, response.access_token);
}

#[test]
fn grant_without_scope_answers_without_scope() {
    let mut store = MemoryGrantStore::new();
    let mut without_scope = grant("foobar");
    without_scope.scope = None;
    store.create(without_scope).unwrap();
    let response = access_token(request("foobar"), &mut store, &mut RandomIssuer::new(), &TokenConfig::default(), NOW).unwrap();
    assert_eq!(response.scope, None);
}

#[test]
fn judgement_of_what_the_store_handed_out() {
    assert_eq!(
        judge(&request("foobar"), None).unwrap_err(),
        AccessTokenError::InvalidGrant
    );
    assert_eq!(judge(&request("foobar"), Some(grant("foobar"))).unwrap().code, "foobar");

    let mut password = request("foobar");
    password.grant_type = GrantType::Password;
    assert_eq!(
        judge(&password, Some(grant("foobar"))).unwrap_err(),
        AccessTokenError::UnsupportedGrantType
    );

    let mut wrong_redirect = request("foobar");
    wrong_redirect.redirect_uri = Some("https://client.example.com".to_string());
    assert_eq!(
        judge(&wrong_redirect, Some(grant("foobar"))).unwrap_err(),
        AccessTokenError::InvalidGrant
    );
}

#[test]
fn refusal_and_issue() {
    let refused = refuse(AccessTokenError::InvalidClient);
    assert_eq!(refused.error, AccessTokenError::InvalidClient);
    assert_eq!(refused.error_description, None);
    assert_eq!(refused.error_uri, None);

    let config = TokenConfig { expires_in: 60, issue_refresh_token: true };
    let response = issue(grant("foobar"), "access".to_string(), Some("refresh".to_string()), &config);
    assert_eq!(response.access_token, "access");
    assert_eq!(response.token_type, TokenType::Bearer);
    assert_eq!(response.expires_in, 60);
    assert_eq!(response.refresh_token, Some("refresh".to_string()));
    assert_eq!(response.scope, Some("read".to_string()));
}

#[test]
fn every_token_error_is_a_bad_request() {
    for error in [
        AccessTokenError::InvalidRequest,
        AccessTokenError::InvalidClient,
        AccessTokenError::InvalidGrant,
        AccessTokenError::UnauthorizedClient,
        AccessTokenError::UnsupportedGrantType,
        AccessTokenError::InvalidScope,
    ] {
        assert_eq!(error.status_code(), 400);
    }
}

#[test]
fn code_from_authorization_to_token_and_no_further() {
    let mut clients = MapClientStore::new();
    clients.insert(
        "s6BhdRkqt3".to_string(),
        ClientData {
            client_type: ClientType::Confidential,
            redirect_uris: vec!["https://client.example.com/cb".to_string()],
            name: "Example Client".to_string(),
        },
    );
    let mut grants = MemoryGrantStore::new();

    let authorization_request = AuthorizationRequest {
        response_type: ResponseType::Code,
        client_id: "s6BhdRkqt3".to_string(),
        redirect_uri: Some("https://client.example.com/cb".to_string()),
        scope: None,
        state: Some("xyz".to_string()),
    };
    let AuthorizationSuccessResponse(authorization, redirect_uri) =
        authorization_code(authorization_request, &clients, &mut RandomIssuer::new(), &mut grants, NOW)
            .unwrap();
    assert_eq!(authorization.state, Some("xyz".to_string()));
    assert_eq!(authorization.code.len(), 24);
    assert_eq!(redirect_uri, "https://client.example.com/cb");

    let config = TokenConfig::default();
    let token = access_token(request(&authorization.code), &mut grants, &mut RandomIssuer::new(), &config, NOW + 5).unwrap();
    assert_eq!(token.token_type, TokenType::Bearer);
    assert_eq!(token.expires_in, 3600);

    let repeated =
        access_token(request(&authorization.code), &mut grants, &mut RandomIssuer::new(), &config, NOW + 6).unwrap_err();
    assert_eq!(repeated.error, AccessTokenError::InvalidGrant);
}

#[test]
fn issuer_decides_the_token_values() {
    let mut issuer = ListedTokens {
        tokens: vec!["first".to_string(), "second".to_string(), "third".to_string()],
    };

    let mut store = store_with("foobar");
    let config = TokenConfig { expires_in: 3600, issue_refresh_token: true };
    let response = access_token(request("foobar"), &mut store, &mut issuer, &config, NOW).unwrap();
    assert_eq!(response.access_token, "first");
    assert_eq!(response.refresh_token, Some("second".to_string()));

    let mut store = store_with("foobar");
    let response =
        access_token(request("foobar"), &mut store, &mut issuer, &TokenConfig::default(), NOW).unwrap();
    assert_eq!(response.access_token, "third");
    assert_eq!(response.refresh_token, None);
}

#[test]
fn no_token_is_minted_for_a_refused_request() {
    let mut issuer = ListedTokens { tokens: vec!["first".to_string()] };
    let mut store = store_with("foobar");
    let config = TokenConfig::default();
    assert!(access_token(request("other"), &mut store, &mut issuer, &config, NOW).is_err());
    let mut password = request("foobar");
    password.grant_type = GrantType::Password;
    assert!(access_token(password, &mut store, &mut issuer, &config, NOW).is_err());
    assert!(access_token(request("foobar"), &mut store, &mut issuer, &config, NOW + 600).is_err());
    assert_eq!(issuer.tokens.len(), 1);
}

#[test]
fn random_issuer_issues_tokens_of_32_alphanumeric_characters() {
    let mut issuer = RandomIssuer::new();
    for _ in 0..100 {
        let token = issuer.issue_token();
        assert_eq!(token.len(), 32);
        assert!(token.chars().all(|c| c.is_ascii_alphanumeric()));
    }
}

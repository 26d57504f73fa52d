//! The token endpoint's decision: whether an authorization code is
//! exchanged for an access token. A code is good for one exchange, whether
//! the exchange succeeds or not.

use crate::authorization::{expiry, granted, AuthorizationRequestView};
use crate::code::{is_token, TokenIssuer};
use crate::grant::{consumed, redeemable, Grant, GrantStore, GrantView};
use vstd::prelude::*;

verus! {

/// The lifetime of an access token, in seconds, unless configured otherwise.
pub const DEFAULT_EXPIRES_IN: i64 = 3600;

/// How the client claims to have been authorized. Only an authorization code
/// is taken.
#[derive(Clone, Copy, Debug, PartialEq, Eq, Structural)]
pub enum GrantType {
    AuthorizationCode,
    Password,
    ClientCredentials,
    RefreshToken,
}

/// One request to the token endpoint.
#[derive(Debug)]
pub struct AccessTokenRequest {
    pub grant_type: GrantType,
    pub code: String,
    pub redirect_uri: Option<String>,
    pub client_id: Option<String>,
}

/// The mathematical value of an [`AccessTokenRequest`].
pub struct AccessTokenRequestView {
    pub grant_type: GrantType,
    pub code: Seq<char>,
    pub redirect_uri: Option<Seq<char>>,
    pub client_id: Option<Seq<char>>,
}

impl View for AccessTokenRequest {
    type V = AccessTokenRequestView;

    open spec fn view(&self) -> AccessTokenRequestView {
        AccessTokenRequestView {
            grant_type: self.grant_type,
            code: self.code@,
            redirect_uri: self.redirect_uri.deep_view(),
            client_id: self.client_id.deep_view(),
        }
    }
}

/// How an access token is to be presented.
#[derive(Clone, Copy, Debug, PartialEq, Eq, Structural)]
pub enum TokenType {
    Bearer,
}

/// The answer to an exchange that succeeded.
#[derive(Debug)]
pub struct AccessTokenResponse {
    pub access_token: String,
    pub token_type: TokenType,
    pub expires_in: i64,
    pub refresh_token: Option<String>,
    pub scope: Option<String>,
}

/// The mathematical value of an [`AccessTokenResponse`].
pub struct AccessTokenResponseView {
    pub access_token: Seq<char>,
    pub token_type: TokenType,
    pub expires_in: i64,
    pub refresh_token: Option<Seq<char>>,
    pub scope: Option<Seq<char>>,
}

impl View for AccessTokenResponse {
    type V = AccessTokenResponseView;

    open spec fn view(&self) -> AccessTokenResponseView {
        AccessTokenResponseView {
            access_token: self.access_token@,
            token_type: self.token_type,
            expires_in: self.expires_in,
            refresh_token: self.refresh_token.deep_view(),
            scope: self.scope.deep_view(),
        }
    }
}

/// Why an exchange was turned down.
#[derive(Clone, Copy, Debug, PartialEq, Eq, Structural)]
pub enum AccessTokenError {
    InvalidRequest,
    InvalidClient,
    InvalidGrant,
    UnauthorizedClient,
    UnsupportedGrantType,
    InvalidScope,
}

/// The answer to an exchange that was turned down.
#[derive(Debug)]
pub struct AccessTokenErrorResponse {
    pub error: AccessTokenError,
    pub error_description: Option<String>,
    pub error_uri: Option<String>,
}

/// The mathematical value of an [`AccessTokenErrorResponse`].
pub struct AccessTokenErrorResponseView {
    pub error: AccessTokenError,
    pub error_description: Option<Seq<char>>,
    pub error_uri: Option<Seq<char>>,
}

impl View for AccessTokenErrorResponse {
    type V = AccessTokenErrorResponseView;

    open spec fn view(&self) -> AccessTokenErrorResponseView {
        AccessTokenErrorResponseView {
            error: self.error,
            error_description: self.error_description.deep_view(),
            error_uri: self.error_uri.deep_view(),
        }
    }
}

/// How access tokens are issued.
#[derive(Clone, Copy, Debug, PartialEq, Eq, Structural)]
pub struct TokenConfig {
    /// The lifetime of an access token, in seconds.
    pub expires_in: i64,
    /// Whether a refresh token goes out with each access token.
    pub issue_refresh_token: bool,
}

impl Default for TokenConfig {
    /// Access tokens that live for an hour, and no refresh tokens.
    fn default() -> (config: TokenConfig)
        ensures
            config == (TokenConfig { expires_in: DEFAULT_EXPIRES_IN, issue_refresh_token: false }),
    {
        TokenConfig { expires_in: DEFAULT_EXPIRES_IN, issue_refresh_token: false }
    }
}

/// `named`, if the request gives it at all, is `bound`, character for
/// character.
pub open spec fn names_no_other(named: Option<Seq<char>>, bound: Seq<char>) -> bool {
    match named {
        None => true,
        Some(text) => text == bound,
    }
}

/// Whether `request` may redeem `grant`, which was found under its code:
/// the grant itself, or `invalid_grant` where the request names another
/// client than the one the code was issued to, or another redirect target
/// than the one bound to the code. What the request leaves out is not held
/// against it.
pub open spec fn redeem(request: AccessTokenRequestView, grant: GrantView) -> Result<
    GrantView,
    AccessTokenError,
> {
    if names_no_other(request.client_id, grant.client_id) && names_no_other(
        request.redirect_uri,
        grant.redirect_uri,
    ) {
        Ok(grant)
    } else {
        Err(AccessTokenError::InvalidGrant)
    }
}

/// What is decided of `request`, `found` being the grant that the store
/// handed out for the request's code: the grant that is redeemed, or the
/// error. Any grant type but an authorization code is
/// `unsupported_grant_type`; a code for which the store has no grant is
/// `invalid_grant`.
pub open spec fn judgement(request: AccessTokenRequestView, found: Option<GrantView>) -> Result<
    GrantView,
    AccessTokenError,
> {
    if request.grant_type != GrantType::AuthorizationCode {
        Err(AccessTokenError::UnsupportedGrantType)
    } else {
        match found {
            None => Err(AccessTokenError::InvalidGrant),
            Some(grant) => redeem(request, grant),
        }
    }
}

/// What is decided of `request` at `now` by a token endpoint whose store
/// holds `grants`.
pub open spec fn exchange(grants: Map<Seq<char>, GrantView>, request: AccessTokenRequestView, now: i64) -> Result<
    GrantView,
    AccessTokenError,
> {
    judgement(request, consumed(grants, request.code, now))
}

/// What the store holds after `request` was decided: a request that presents
/// an authorization code uses the code up, whatever was decided.
pub open spec fn grants_after(grants: Map<Seq<char>, GrantView>, request: AccessTokenRequestView) -> Map<
    Seq<char>,
    GrantView,
> {
    if request.grant_type == GrantType::AuthorizationCode {
        grants.remove(request.code)
    } else {
        grants
    }
}

/// The answer that turns an exchange down with `error`.
pub open spec fn refusal(error: AccessTokenError) -> AccessTokenErrorResponseView {
    AccessTokenErrorResponseView { error, error_description: None, error_uri: None }
}

/// The answer to an exchange that redeems `grant`, with the token values
/// that were minted for it.
pub open spec fn issued(
    grant: GrantView,
    access_token: Seq<char>,
    refresh_token: Option<Seq<char>>,
    config: TokenConfig,
) -> AccessTokenResponseView {
    AccessTokenResponseView {
        access_token,
        token_type: TokenType::Bearer,
        expires_in: config.expires_in,
        refresh_token,
        scope: grant.scope,
    }
}

impl AccessTokenError {
    /// The HTTP status that goes with the error: 400 for each of them.
    pub open spec fn spec_status_code(self) -> u16 {
        400
    }

    /// The HTTP status that goes with the error.
    #[verifier::when_used_as_spec(spec_status_code)]
    pub fn status_code(self) -> (status: u16)
        ensures
            status == self.spec_status_code(),
    {
        400
    }
}

/// Whether `named`, if the request gives it at all, is `bound`.
fn agrees(named: &Option<String>, bound: &String) -> (same: bool)
    ensures
        same == names_no_other(named.deep_view(), bound@),
{
    match named {
        None => true,
        Some(text) => *text == *bound,
    }
}

/// Judges `request` against `found`, the grant that the store handed out for
/// the request's code.
pub fn judge(request: &AccessTokenRequest, found: Option<Grant>) -> (judged: Result<
    Grant,
    AccessTokenError,
>)
    ensures
        match judgement(request@, found.deep_view()) {
            Ok(grant) => judged matches Ok(g) && g@ == grant,
            Err(error) => judged matches Err(e) && e == error,
        },
{
    match request.grant_type {
        GrantType::AuthorizationCode => match found {
            None => Err(AccessTokenError::InvalidGrant),
            Some(grant) => {
                if !agrees(&request.client_id, &grant.client_id) {
                    Err(AccessTokenError::InvalidGrant)
                } else if !agrees(&request.redirect_uri, &grant.redirect_uri) {
                    Err(AccessTokenError::InvalidGrant)
                } else {
                    Ok(grant)
                }
            },
        },
        _ => Err(AccessTokenError::UnsupportedGrantType),
    }
}

/// Turns an exchange down with `error`.
pub fn refuse(error: AccessTokenError) -> (response: AccessTokenErrorResponse)
    ensures
        response@ == refusal(error),
{
    AccessTokenErrorResponse { error, error_description: None, error_uri: None }
}

/// Answers an exchange that redeems `grant` with the token values that were
/// minted for it: a bearer token with the configured lifetime and the scope
/// of the grant.
pub fn issue(grant: Grant, access_token: String, refresh_token: Option<String>, config: &TokenConfig) -> (response:
    AccessTokenResponse)
    ensures
        response@ == issued(grant@, access_token@, refresh_token.deep_view(), *config),
{
    AccessTokenResponse {
        access_token,
        token_type: TokenType::Bearer,
        expires_in: config.expires_in,
        refresh_token,
        scope: grant.scope,
    }
}

/// Decides a token request.
///
/// The request is turned down with `unsupported_grant_type` unless it
/// presents an authorization code; the store is then left as it was.
/// Otherwise the code is used up, and the request is turned down with
/// `invalid_grant` if the store held no unexpired grant under it, or if the
/// request names another client or another redirect target than the grant
/// does. Otherwise the answer is a bearer token that `token_issuer` mints,
/// with the configured lifetime and the scope of the grant, and with a
/// refresh token, minted likewise, exactly when the configuration asks for
/// one.
///
/// The first clauses hold of every store and issuer. What is said of the
/// grants holds of a modelled store, what is said of the tokens' shape holds
/// of a well-formed issuer.
pub fn access_token<G: GrantStore, I: TokenIssuer>(
    access_token_request: AccessTokenRequest,
    grant_store: &mut G,
    token_issuer: &mut I,
    config: &TokenConfig,
    now: i64,
) -> (response: Result<AccessTokenResponse, AccessTokenErrorResponse>)
    ensures
        response matches Ok(success) ==> {
            &&& access_token_request.grant_type == GrantType::AuthorizationCode
            &&& success.token_type == TokenType::Bearer
            &&& success.expires_in == config.expires_in
            &&& success.refresh_token is Some <==> config.issue_refresh_token
        },
        I::well_formed() ==> (response matches Ok(success) ==> {
            &&& is_token(success.access_token@)
            &&& success.refresh_token matches Some(token) ==> is_token(token@)
        }),
        response matches Err(failure) ==> {
            &&& failure@ == refusal(failure.error)
            &&& failure.error == if access_token_request.grant_type == GrantType::AuthorizationCode {
                AccessTokenError::InvalidGrant
            } else {
                AccessTokenError::UnsupportedGrantType
            }
        },
        access_token_request.grant_type != GrantType::AuthorizationCode ==> response is Err,
        G::modelled() ==> {
            &&& final(grant_store).grants() == grants_after(
                old(grant_store).grants(),
                access_token_request@,
            )
            &&& match exchange(old(grant_store).grants(), access_token_request@, now) {
                Err(error) => response matches Err(failure) && failure.error == error,
                Ok(grant) => response matches Ok(success) && success.scope.deep_view()
                    == grant.scope,
            }
        },
{
    let found = match access_token_request.grant_type {
        GrantType::AuthorizationCode => grant_store.consume(access_token_request.code.as_str(), now),
        _ => None,
    };
    match judge(&access_token_request, found) {
        Err(error) => Err(refuse(error)),
        Ok(grant) => {
            let access_token = token_issuer.issue_token();
            let refresh_token = if config.issue_refresh_token {
                Some(token_issuer.issue_token())
            } else {
                None
            };
            Ok(issue(grant, access_token, refresh_token, config))
        },
    }
}

/// An authorization code is good for one exchange. Once a request has
/// presented a code, be it turned down or not, every later request that
/// presents the same code is turned down with `invalid_grant`, whatever else
/// it says and whenever it comes.
pub proof fn lemma_single_use(
    grants: Map<Seq<char>, GrantView>,
    first: AccessTokenRequestView,
    first_at: i64,
    second: AccessTokenRequestView,
    second_at: i64,
)
    requires
        first.grant_type == GrantType::AuthorizationCode,
        second.grant_type == GrantType::AuthorizationCode,
        second.code == first.code,
    ensures
        exchange(grants_after(grants, first), second, second_at) == Err::<GrantView, AccessTokenError>(
            AccessTokenError::InvalidGrant,
        ),
{
}

/// The first exchange of a code succeeds: a request that presents the code
/// of an unexpired grant, and names neither another client nor another
/// redirect target than the grant does, redeems that grant.
pub proof fn lemma_first_exchange_succeeds(
    grants: Map<Seq<char>, GrantView>,
    request: AccessTokenRequestView,
    now: i64,
)
    requires
        request.grant_type == GrantType::AuthorizationCode,
        redeemable(grants, request.code, now),
        names_no_other(request.client_id, grants[request.code].client_id),
        names_no_other(request.redirect_uri, grants[request.code].redirect_uri),
    ensures
        exchange(grants, request, now) == Ok::<GrantView, AccessTokenError>(grants[request.code]),
{
}

/// Only an authorization code is taken: a request with any other grant type
/// is turned down with `unsupported_grant_type`, whatever the store holds,
/// and leaves the store as it was.
pub proof fn lemma_grant_type_enforced(
    grants: Map<Seq<char>, GrantView>,
    request: AccessTokenRequestView,
    now: i64,
)
    requires
        request.grant_type != GrantType::AuthorizationCode,
    ensures
        exchange(grants, request, now) == Err::<GrantView, AccessTokenError>(
            AccessTokenError::UnsupportedGrantType,
        ),
        grants_after(grants, request) == grants,
{
}

/// A code cannot be redeemed by another client than the one it was issued
/// to, nor with another redirect target than the one bound to it.
pub proof fn lemma_code_is_bound(
    grants: Map<Seq<char>, GrantView>,
    request: AccessTokenRequestView,
    now: i64,
)
    requires
        request.grant_type == GrantType::AuthorizationCode,
        redeemable(grants, request.code, now),
        !names_no_other(request.client_id, grants[request.code].client_id) || !names_no_other(
            request.redirect_uri,
            grants[request.code].redirect_uri,
        ),
    ensures
        exchange(grants, request, now) == Err::<GrantView, AccessTokenError>(
            AccessTokenError::InvalidGrant,
        ),
{
}

/// A code that was just issued can be exchanged. After a request was granted
/// at `issued_at` with the code `code` and the redirect target
/// `redirect_uri`, a token request that presents the code before it expires,
/// and names neither another client nor another redirect target, redeems the
/// grant that was recorded.
pub proof fn lemma_issued_code_redeems(
    grants: Map<Seq<char>, GrantView>,
    granted_request: AuthorizationRequestView,
    redirect_uri: Seq<char>,
    code: Seq<char>,
    issued_at: i64,
    request: AccessTokenRequestView,
    now: i64,
)
    requires
        request.grant_type == GrantType::AuthorizationCode,
        request.code == code,
        now < expiry(issued_at),
        names_no_other(request.client_id, granted_request.client_id),
        names_no_other(request.redirect_uri, redirect_uri),
    ensures
        exchange(
            grants.insert(code, granted(granted_request, redirect_uri, code, issued_at)),
            request,
            now,
        ) == Ok::<GrantView, AccessTokenError>(
            granted(granted_request, redirect_uri, code, issued_at),
        ),
{
}

} // verus!

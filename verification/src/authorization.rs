//! The authorization endpoint's decision: whether an authorization request
//! earns a one-time authorization code, and to which redirect target.

use crate::client::{Client, ClientStore, ClientView};
use crate::code::{is_authorization_code, CodeIssuer};
use crate::grant::{grants_with, Grant, GrantStore, GrantView, StoreError};
use crate::text::{clone_optional, contains_text};
use vstd::prelude::*;
use vstd::string::StringExecFns;

verus! {

/// How long an authorization code is good for, in seconds.
pub const AUTHORIZATION_CODE_TTL: i64 = 600;

/// What the client asks the authorization endpoint for.
#[derive(Clone, Copy, Debug, PartialEq, Eq, Structural)]
pub enum ResponseType {
    Code,
    Token,
}

/// One request to the authorization endpoint.
#[derive(Clone, Debug)]
pub struct AuthorizationRequest {
    pub response_type: ResponseType,
    pub client_id: String,
    pub redirect_uri: Option<String>,
    pub scope: Option<String>,
    pub state: Option<String>,
}

/// The mathematical value of an [`AuthorizationRequest`].
pub struct AuthorizationRequestView {
    pub response_type: ResponseType,
    pub client_id: Seq<char>,
    pub redirect_uri: Option<Seq<char>>,
    pub scope: Option<Seq<char>>,
    pub state: Option<Seq<char>>,
}

impl View for AuthorizationRequest {
    type V = AuthorizationRequestView;

    open spec fn view(&self) -> AuthorizationRequestView {
        AuthorizationRequestView {
            response_type: self.response_type,
            client_id: self.client_id@,
            redirect_uri: self.redirect_uri.deep_view(),
            scope: self.scope.deep_view(),
            state: self.state.deep_view(),
        }
    }
}

/// The answer to a request that was granted.
#[derive(Debug)]
pub struct AuthorizationResponse {
    pub code: String,
    pub state: Option<String>,
}

/// The mathematical value of an [`AuthorizationResponse`].
pub struct AuthorizationResponseView {
    pub code: Seq<char>,
    pub state: Option<Seq<char>>,
}

impl View for AuthorizationResponse {
    type V = AuthorizationResponseView;

    open spec fn view(&self) -> AuthorizationResponseView {
        AuthorizationResponseView { code: self.code@, state: self.state.deep_view() }
    }
}

/// Why a request was turned down.
#[derive(Clone, Copy, Debug, PartialEq, Eq, Structural)]
pub enum AuthorizationError {
    InvalidRequest,
    UnauthorizedClient,
    AccessDenied,
    UnsupportedResponseType,
    InvalidScope,
    ServerError,
    TemporarilyUnavailable,
}

/// The answer to a request that was turned down.
#[derive(Debug)]
pub struct AuthorizationErrorResponse {
    pub error: AuthorizationError,
    pub error_description: Option<String>,
    pub error_uri: Option<String>,
    pub state: Option<String>,
}

/// The mathematical value of an [`AuthorizationErrorResponse`].
pub struct AuthorizationErrorResponseView {
    pub error: AuthorizationError,
    pub error_description: Option<Seq<char>>,
    pub error_uri: Option<Seq<char>>,
    pub state: Option<Seq<char>>,
}

impl View for AuthorizationErrorResponse {
    type V = AuthorizationErrorResponseView;

    open spec fn view(&self) -> AuthorizationErrorResponseView {
        AuthorizationErrorResponseView {
            error: self.error,
            error_description: self.error_description.deep_view(),
            error_uri: self.error_uri.deep_view(),
            state: self.state.deep_view(),
        }
    }
}

/// A granted request: the answer, and the redirect target to send it to.
#[derive(Debug)]
pub struct AuthorizationSuccessResponse(pub AuthorizationResponse, pub String);

impl View for AuthorizationSuccessResponse {
    type V = (AuthorizationResponseView, Seq<char>);

    open spec fn view(&self) -> (AuthorizationResponseView, Seq<char>) {
        (self.0@, self.1@)
    }
}

/// The redirect target for a request that names `requested`, made by a client
/// that has registered `registered`.
///
/// A request that names no target gets the client's first registered one, and
/// is refused if there is none. A target that the request names is taken as it
/// is when the client has registered none; otherwise it has to be, character
/// for character, one of those registered.
pub open spec fn resolve_redirect(requested: Option<Seq<char>>, registered: Seq<Seq<char>>) -> Result<
    Seq<char>,
    AuthorizationError,
> {
    match requested {
        None => if registered.len() == 0 {
            Err(AuthorizationError::InvalidRequest)
        } else {
            Ok(registered[0])
        },
        Some(uri) => if registered.len() == 0 || registered.contains(uri) {
            Ok(uri)
        } else {
            Err(AuthorizationError::InvalidRequest)
        },
    }
}

/// What is decided of `request` before any code is minted, `client` being
/// what the registry holds under the request's client identifier: the
/// redirect target, or the error. The response type is judged first, then the
/// client, then the redirect target.
pub open spec fn resolution(request: AuthorizationRequestView, client: Option<ClientView>) -> Result<
    Seq<char>,
    AuthorizationError,
> {
    if request.response_type != ResponseType::Code {
        Err(AuthorizationError::UnsupportedResponseType)
    } else {
        match client {
            None => Err(AuthorizationError::UnauthorizedClient),
            Some(c) => resolve_redirect(request.redirect_uri, c.redirect_uris),
        }
    }
}

/// The answer that turns a request down with `error`: no description, no
/// URI, and the request's `state` as it came.
pub open spec fn rejection(error: AuthorizationError, state: Option<Seq<char>>) -> AuthorizationErrorResponseView {
    AuthorizationErrorResponseView { error, error_description: None, error_uri: None, state }
}

/// When a code minted at `now` expires: `AUTHORIZATION_CODE_TTL` seconds
/// later, or at the last instant there is.
pub open spec fn expiry(now: i64) -> i64 {
    if now + AUTHORIZATION_CODE_TTL > i64::MAX {
        i64::MAX
    } else {
        (now + AUTHORIZATION_CODE_TTL) as i64
    }
}

/// The grant that is recorded when `request` is granted at `now` with the
/// redirect target `redirect_uri` and the authorization code `code`.
pub open spec fn granted(
    request: AuthorizationRequestView,
    redirect_uri: Seq<char>,
    code: Seq<char>,
    now: i64,
) -> GrantView {
    GrantView {
        code,
        client_id: request.client_id,
        redirect_uri,
        scope: request.scope,
        owner_id: None,
        created_at: now,
        expires_at: expiry(now),
    }
}

/// The answer to a request whose redirect target was resolved to
/// `redirect_uri` and for which `code` was minted, `created` being what the
/// store said to the grant: the code and the target if the grant was taken,
/// `server_error` if it was not.
pub open spec fn completion(
    state: Option<Seq<char>>,
    redirect_uri: Seq<char>,
    code: Seq<char>,
    created: Result<(), StoreError>,
) -> Result<(AuthorizationResponseView, Seq<char>), AuthorizationErrorResponseView> {
    match created {
        Ok(()) => Ok((AuthorizationResponseView { code, state }, redirect_uri)),
        Err(_) => Err(rejection(AuthorizationError::ServerError, state)),
    }
}

/// Where a granted request is sent back to: the redirect target, then
/// `?code=` and the code, then `&state=` and the state if the request had
/// one. Target and state go in as they are.
pub open spec fn redirect_location(redirect_uri: Seq<char>, response: AuthorizationResponseView) -> Seq<
    char,
> {
    let with_code = redirect_uri + "?code="@ + response.code;
    match response.state {
        Some(state) => with_code + "&state="@ + state,
        None => with_code,
    }
}

impl AuthorizationSuccessResponse {
    /// Where the client is sent back to with its code.
    pub fn location(&self) -> (location: String)
        ensures
            location@ == redirect_location(self.1@, self.0@),
    {
        let mut location = self.1.clone();
        location.append("?code=");
        location.append(self.0.code.as_str());
        match &self.0.state {
            Some(state) => {
                location.append("&state=");
                location.append(state.as_str());
            },
            None => {},
        }
        location
    }
}

impl AuthorizationError {
    /// The HTTP status that goes with the error.
    pub open spec fn spec_status_code(self) -> u16 {
        match self {
            AuthorizationError::InvalidRequest => 400,
            AuthorizationError::UnauthorizedClient => 401,
            AuthorizationError::AccessDenied => 403,
            AuthorizationError::UnsupportedResponseType => 400,
            AuthorizationError::InvalidScope => 400,
            AuthorizationError::ServerError => 500,
            AuthorizationError::TemporarilyUnavailable => 503,
        }
    }

    /// The HTTP status that goes with the error.
    #[verifier::when_used_as_spec(spec_status_code)]
    pub fn status_code(self) -> (status: u16)
        ensures
            status == self.spec_status_code(),
    {
        match self {
            AuthorizationError::InvalidRequest => 400,
            AuthorizationError::UnauthorizedClient => 401,
            AuthorizationError::AccessDenied => 403,
            AuthorizationError::UnsupportedResponseType => 400,
            AuthorizationError::InvalidScope => 400,
            AuthorizationError::ServerError => 500,
            AuthorizationError::TemporarilyUnavailable => 503,
        }
    }
}

/// Resolves the redirect target of a request that names `requested`, for a
/// client that has registered `registered`.
pub fn resolve_redirect_uri(requested: Option<String>, registered: &Vec<String>) -> (resolved: Result<
    String,
    AuthorizationError,
>)
    ensures
        match resolve_redirect(requested.deep_view(), registered.deep_view()) {
            Ok(uri) => resolved matches Ok(r) && r@ == uri,
            Err(error) => resolved == Err::<String, AuthorizationError>(error),
        },
{
    match requested {
        None => {
            if registered.len() == 0 {
                Err(AuthorizationError::InvalidRequest)
            } else {
                Ok(registered[0].clone())
            }
        },
        Some(uri) => {
            if registered.len() == 0 || contains_text(registered, &uri) {
                Ok(uri)
            } else {
                Err(AuthorizationError::InvalidRequest)
            }
        },
    }
}

/// Judges `auth_request` against `client`, which is what the registry holds
/// under the request's client identifier, before any code is minted.
pub fn resolve_request(auth_request: &AuthorizationRequest, client: Option<Client>) -> (resolved: Result<
    String,
    AuthorizationError,
>)
    ensures
        match resolution(auth_request@, client.deep_view()) {
            Ok(uri) => resolved matches Ok(r) && r@ == uri,
            Err(error) => resolved == Err::<String, AuthorizationError>(error),
        },
{
    match auth_request.response_type {
        ResponseType::Code => match client {
            None => Err(AuthorizationError::UnauthorizedClient),
            Some(c) => resolve_redirect_uri(clone_optional(&auth_request.redirect_uri), &c.redirect_uris),
        },
        ResponseType::Token => Err(AuthorizationError::UnsupportedResponseType),
    }
}

/// Turns a request down with `error`, echoing its `state`.
pub fn reject(error: AuthorizationError, state: Option<String>) -> (response: AuthorizationErrorResponse)
    ensures
        response@ == rejection(error, state.deep_view()),
{
    AuthorizationErrorResponse { error, error_description: None, error_uri: None, state }
}

/// Answers a request whose redirect target was resolved to `redirect_uri`
/// and for which `code` was minted, `created` being what the store said to
/// the grant.
pub fn complete(
    state: Option<String>,
    redirect_uri: String,
    code: String,
    created: Result<(), StoreError>,
) -> (response: Result<AuthorizationSuccessResponse, AuthorizationErrorResponse>)
    ensures
        match completion(state.deep_view(), redirect_uri@, code@, created) {
            Ok(success) => response matches Ok(r) && r@ == success,
            Err(failure) => response matches Err(e) && e@ == failure,
        },
{
    match created {
        Ok(()) => Ok(AuthorizationSuccessResponse(AuthorizationResponse { code, state }, redirect_uri)),
        Err(_) => Err(reject(AuthorizationError::ServerError, state)),
    }
}

/// When a code minted at `now` expires.
pub fn expiry_of(now: i64) -> (expires_at: i64)
    ensures
        expires_at == expiry(now),
{
    if now > i64::MAX - AUTHORIZATION_CODE_TTL {
        i64::MAX
    } else {
        now + AUTHORIZATION_CODE_TTL
    }
}

/// The errors that the decision of a request can end in.
pub open spec fn is_decision_error(error: AuthorizationError) -> bool {
    ||| error == AuthorizationError::UnsupportedResponseType
    ||| error == AuthorizationError::UnauthorizedClient
    ||| error == AuthorizationError::InvalidRequest
    ||| error == AuthorizationError::ServerError
}

/// Records the grant for a request whose redirect target was resolved to
/// `redirect_uri`, under the authorization code `code`, and answers the
/// request: with the code and the target if the store took the grant, with
/// `server_error` if it did not.
///
/// A modelled store takes the grant exactly when `code` is not yet in it, and
/// is left as it was when it does not.
pub fn record_grant<G: GrantStore>(
    auth_request: AuthorizationRequest,
    redirect_uri: String,
    code: String,
    grant_store: &mut G,
    now: i64,
) -> (response: Result<AuthorizationSuccessResponse, AuthorizationErrorResponse>)
    ensures
        response matches Ok(success) ==> success@ == (
            AuthorizationResponseView { code: code@, state: auth_request@.state },
            redirect_uri@,
        ),
        response matches Err(failure) ==> failure@ == rejection(
            AuthorizationError::ServerError,
            auth_request@.state,
        ),
        G::modelled() ==> {
            &&& response is Ok <==> !old(grant_store).grants().contains_key(code@)
            &&& final(grant_store).grants() == grants_with(
                old(grant_store).grants(),
                granted(auth_request@, redirect_uri@, code@, now),
            )
        },
{
    let grant = Grant {
        code: code.clone(),
        client_id: auth_request.client_id,
        redirect_uri: redirect_uri.clone(),
        scope: auth_request.scope,
        owner_id: None,
        created_at: now,
        expires_at: expiry_of(now),
    };
    let created = grant_store.create(grant);
    complete(auth_request.state, redirect_uri, code, created)
}

/// Decides an authorization request.
///
/// The request is turned down with `unsupported_response_type` unless it
/// asks for a code, with `unauthorized_client` if `client_store` does not know
/// its client, and with `invalid_request` if its redirect target cannot be
/// resolved (see [`resolve_redirect`]); the store of grants is then left as it
/// was. Otherwise `code_issuer` mints a fresh authorization code and a grant
/// that expires `AUTHORIZATION_CODE_TTL` seconds after `now` is recorded
/// under it. If the store takes the grant, the answer carries the code and
/// the resolved redirect target; if it does not, the answer is `server_error`
/// and nothing was recorded. A modelled store refuses the grant only if the
/// code that was minted is already in it. Every answer echoes the request's
/// `state`.
///
/// The first clauses hold of every registry, issuer and store. What is said
/// of the registry's clients holds of a modelled registry, what is said of
/// the code's shape holds of a well-formed issuer, what is said of the grants
/// holds of a modelled store.
pub fn authorization_code<C: ClientStore, I: CodeIssuer, G: GrantStore>(
    auth_request: AuthorizationRequest,
    client_store: &C,
    code_issuer: &mut I,
    grant_store: &mut G,
    now: i64,
) -> (response: Result<AuthorizationSuccessResponse, AuthorizationErrorResponse>)
    ensures
        response matches Ok(success) ==> {
            &&& auth_request.response_type == ResponseType::Code
            &&& success.0.state.deep_view() == auth_request@.state
            &&& auth_request@.redirect_uri matches Some(uri) ==> success.1@ == uri
        },
        response matches Err(failure) ==> {
            &&& failure@ == rejection(failure.error, auth_request@.state)
            &&& is_decision_error(failure.error)
        },
        auth_request.response_type != ResponseType::Code ==> (response matches Err(failure)
            && failure.error == AuthorizationError::UnsupportedResponseType),
        C::modelled() ==> match resolution(
            auth_request@,
            client_store.registered(auth_request.client_id@),
        ) {
            Err(error) => response matches Err(failure) && failure.error == error,
            Ok(uri) => match response {
                Ok(success) => success.1@ == uri,
                Err(failure) => failure.error == AuthorizationError::ServerError,
            },
        },
        I::well_formed() ==> (response matches Ok(success) ==> is_authorization_code(
            success.0.code@,
        )),
        G::modelled() ==> match response {
            Ok(success) => {
                &&& !old(grant_store).grants().contains_key(success.0.code@)
                &&& final(grant_store).grants() == old(grant_store).grants().insert(
                    success.0.code@,
                    granted(auth_request@, success.1@, success.0.code@, now),
                )
            },
            Err(_) => final(grant_store).grants() == old(grant_store).grants(),
        },
        C::modelled() && G::modelled() && response is Err && resolution(
            auth_request@,
            client_store.registered(auth_request.client_id@),
        ) is Ok ==> exists|code: Seq<char>|
            {
                &&& #[trigger] old(grant_store).grants().contains_key(code)
                &&& I::well_formed() ==> is_authorization_code(code)
            },
{
    let client = match auth_request.response_type {
        ResponseType::Code => client_store.read_client(auth_request.client_id.as_str()),
        ResponseType::Token => None,
    };
    match resolve_request(&auth_request, client) {
        Err(error) => Err(reject(error, auth_request.state)),
        Ok(redirect_uri) => {
            let code = code_issuer.issue_code();
            let ghost minted = code@;
            let response = record_grant(auth_request, redirect_uri, code, grant_store, now);
            assert(G::modelled() && response is Err ==> old(grant_store).grants().contains_key(
                minted,
            ));
            response
        },
    }
}

/// Redirect binding. A client that has registered redirect targets is sent
/// to none but those: a request for a code that names a target resolves to
/// that target if it is, character for character, one of those registered,
/// and is turned down with `invalid_request` if it is not. Of a client that
/// has registered the one target `u1`, a request that names `u1` resolves to
/// it, and one that names anything else is turned down.
pub proof fn lemma_redirect_binding(
    request: AuthorizationRequestView,
    client: ClientView,
    supplied: Seq<char>,
)
    requires
        request.response_type == ResponseType::Code,
        request.redirect_uri == Some(supplied),
        client.redirect_uris.len() > 0,
    ensures
        resolution(request, Some(client)) == if client.redirect_uris.contains(supplied) {
            Ok::<Seq<char>, AuthorizationError>(supplied)
        } else {
            Err::<Seq<char>, AuthorizationError>(AuthorizationError::InvalidRequest)
        },
        client.redirect_uris.len() == 1 ==> (client.redirect_uris.contains(supplied) <==> supplied
            == client.redirect_uris[0]),
{
}

/// Default redirect. A request for a code that names no redirect target
/// resolves to the first target that its client has registered.
pub proof fn lemma_default_redirect(request: AuthorizationRequestView, client: ClientView)
    requires
        request.response_type == ResponseType::Code,
        request.redirect_uri is None,
        client.redirect_uris.len() > 0,
    ensures
        resolution(request, Some(client)) == Ok::<Seq<char>, AuthorizationError>(
            client.redirect_uris[0],
        ),
{
}

/// A client without registered redirect targets. A request for a code that
/// names no target is turned down with `invalid_request`; one that names a
/// target resolves to it, whatever it is.
pub proof fn lemma_no_registered_redirect(request: AuthorizationRequestView, client: ClientView)
    requires
        request.response_type == ResponseType::Code,
        client.redirect_uris.len() == 0,
    ensures
        resolution(request, Some(client)) == match request.redirect_uri {
            None => Err::<Seq<char>, AuthorizationError>(AuthorizationError::InvalidRequest),
            Some(uri) => Ok::<Seq<char>, AuthorizationError>(uri),
        },
{
}

/// Only a code can be asked for: a request with any other response type is
/// turned down with `unsupported_response_type`, whoever its client is.
pub proof fn lemma_response_type_enforced(
    request: AuthorizationRequestView,
    client: Option<ClientView>,
)
    requires
        request.response_type != ResponseType::Code,
    ensures
        resolution(request, client) == Err::<Seq<char>, AuthorizationError>(
            AuthorizationError::UnsupportedResponseType,
        ),
{
}

/// A request for a code by a client that the registry does not know is
/// turned down with `unauthorized_client`.
pub proof fn lemma_unknown_client(request: AuthorizationRequestView)
    requires
        request.response_type == ResponseType::Code,
    ensures
        resolution(request, None) == Err::<Seq<char>, AuthorizationError>(
            AuthorizationError::UnauthorizedClient,
        ),
{
}

/// State echo. Every answer carries the `state` of its request as it came,
/// be the request granted or turned down, and be there a `state` or none.
pub proof fn lemma_state_echoed(
    state: Option<Seq<char>>,
    error: AuthorizationError,
    redirect_uri: Seq<char>,
    code: Seq<char>,
    created: Result<(), StoreError>,
)
    ensures
        rejection(error, state).state == state,
        match completion(state, redirect_uri, code, created) {
            Ok(success) => success.0.state == state,
            Err(failure) => failure.state == state,
        },
{
}

} // verus!

//! The control plane of the server: data shapes and request construction.
//!
//! The client sends nothing. For each remote operation it says which HTTP
//! request is to be sent: the method, the absolute URL of the endpoint, the
//! bearer credential and the body. On the way back it says which status
//! codes count as success. Sending, and the JSON encoding of bodies, are the
//! caller's.
use vstd::prelude::*;

pub mod models;

pub use models::sys::init::StartInitResponse;
pub use models::sys::seal_status::SealStatusResponse;

use crate::text::copy_text;
use crate::vault::models::sys::generate_root::PostGenerateRootAttemptRequest;
use crate::vault::models::sys::generate_root::PostGenerateRootAttemptRequestView;
use crate::vault::models::sys::generate_root::PostGenerateRootUpdateRequest;
use crate::vault::models::sys::generate_root::PostGenerateRootUpdateRequestView;
use crate::vault::models::sys::init::GetInitResponse;
use crate::vault::models::sys::init::PostInitRequest;
use crate::vault::models::sys::init::PostInitRequestView;
use crate::vault::models::sys::unseal::PostUnsealRequest;
use crate::vault::models::sys::unseal::PostUnsealRequestView;
use crate::vault::models::sys::unseal::PostUnsealResponse;

verus! {

/// What [`VaultClient::read_init_status`] is answered with.
pub type ReadInitStatusResponse = GetInitResponse;

/// What [`VaultClient::start_init`] sends.
pub type StartInitRequest = PostInitRequest;

/// What [`VaultClient::submit_unseal_key`] sends.
pub type UnsealRequest = PostUnsealRequest;

/// What [`VaultClient::submit_unseal_key`] is answered with.
pub type UnsealResponse = PostUnsealResponse;

/// Endpoint of the init status and of the initialization.
pub const INIT_PATH: &'static str = "v1/sys/init";

/// Endpoint of the seal status.
pub const SEAL_STATUS_PATH: &'static str = "v1/sys/seal-status";

/// Endpoint of the submission of a key share to the unseal.
pub const UNSEAL_PATH: &'static str = "v1/sys/unseal";

/// Endpoint of the root generation attempt.
pub const GENERATE_ROOT_ATTEMPT_PATH: &'static str = "v1/sys/generate-root/attempt";

/// Endpoint of the submission of a key share to the root generation attempt.
pub const GENERATE_ROOT_UPDATE_PATH: &'static str = "v1/sys/generate-root/update";

/// Endpoint of the revocation of the token that authenticates the call.
pub const REVOKE_SELF_PATH: &'static str = "v1/auth/token/revoke-self";

/// The HTTP methods that the client uses.
#[derive(Debug, Clone, Copy, PartialEq, Eq, Structural)]
pub enum Method {
    Get,
    Post,
    Delete,
}

/// The body of a request, to be sent as JSON.
#[derive(Debug, Clone, PartialEq, Eq)]
pub enum Body {
    /// No body.
    Empty,
    Init(PostInitRequest),
    Unseal(PostUnsealRequest),
    GenerateRootAttempt(PostGenerateRootAttemptRequest),
    GenerateRootUpdate(PostGenerateRootUpdateRequest),
}

/// Mathematical content of a [`Body`].
pub enum BodyView {
    Empty,
    Init(PostInitRequestView),
    Unseal(PostUnsealRequestView),
    GenerateRootAttempt(PostGenerateRootAttemptRequestView),
    GenerateRootUpdate(PostGenerateRootUpdateRequestView),
}

impl View for Body {
    type V = BodyView;

    open spec fn view(&self) -> BodyView {
        match self {
            Body::Empty => BodyView::Empty,
            Body::Init(request) => BodyView::Init(request@),
            Body::Unseal(request) => BodyView::Unseal(request@),
            Body::GenerateRootAttempt(request) => BodyView::GenerateRootAttempt(request@),
            Body::GenerateRootUpdate(request) => BodyView::GenerateRootUpdate(request@),
        }
    }
}

/// An HTTP request to send.
#[derive(Debug, Clone, PartialEq, Eq)]
pub struct Request {
    pub method: Method,
    /// The absolute URL of the endpoint.
    pub url: String,
    /// The bearer credential, if the call carries one.
    pub token: Option<String>,
    pub body: Body,
}

/// Mathematical content of a [`Request`].
pub struct RequestView {
    pub method: Method,
    pub url: Seq<char>,
    pub token: Option<Seq<char>>,
    pub body: BodyView,
}

impl View for Request {
    type V = RequestView;

    open spec fn view(&self) -> RequestView {
        RequestView {
            method: self.method,
            url: self.url@,
            token: self.token.deep_view(),
            body: self.body@,
        }
    }
}

/// Why a call failed before or after it was sent.
#[derive(Debug, Clone, Copy, PartialEq, Eq, Structural)]
pub enum ClientError {
    /// The address of the server and the path of the endpoint do not make a
    /// URL.
    InvalidEndpoint,
    /// The server answered with a status code outside the success range.
    Status(u16),
}

/// Mathematical content of the outcome of a request construction.
pub open spec fn request_outcome_view(outcome: Result<Request, ClientError>) -> Result<
    RequestView,
    ClientError,
> {
    match outcome {
        Ok(request) => Ok(request@),
        Err(error) => Err(error),
    }
}

/// The URL that the `url` crate resolves `path` to against the base URL
/// `base`; nothing where `base` is no absolute URL or `path` does not
/// resolve against it.
pub uninterp spec fn joined_url(base: Seq<char>, path: Seq<char>) -> Option<Seq<char>>;

/// The error of the `url` crate's parser.
#[verifier::external_type_specification]
#[verifier::external_body]
pub struct ExParseError(url::ParseError);

/// `Url::join` of the `url` crate, on a base that `Url::parse` reads from
/// its text: the result, as text, is [`joined_url`] of the two arguments, and
/// an error is returned exactly where that is nothing.
#[verifier::external_body]
fn join_url(base: &str, path: &str) -> (joined: Result<String, url::ParseError>)
    ensures
        joined is Ok <==> joined_url(base@, path@) is Some,
        joined matches Ok(text) ==> joined_url(base@, path@) == Some(text@),
{
    let joined = url::Url::parse(base)?.join(path)?;
    Ok(joined.into())
}

/// A client of one server.
#[derive(Debug, Clone, PartialEq, Eq)]
pub struct VaultClient {
    /// The address of the server, an absolute URL. A path in it that does
    /// not end in a slash loses its last segment when an endpoint is joined
    /// to it.
    pub addr: String,
    token: Option<String>,
}

/// Mathematical content of a [`VaultClient`].
pub struct VaultClientView {
    pub addr: Seq<char>,
    pub token: Option<Seq<char>>,
}

impl View for VaultClient {
    type V = VaultClientView;

    closed spec fn view(&self) -> VaultClientView {
        VaultClientView { addr: self.addr@, token: self.token.deep_view() }
    }
}

impl VaultClientView {
    /// The request for `method` with `body` at `endpoint`, with the client's
    /// credential; the error of an invalid endpoint where there is none.
    pub open spec fn request(self, method: Method, endpoint: Option<Seq<char>>, body: BodyView)
        -> Result<RequestView, ClientError> {
        match endpoint {
            Some(url) => Ok(RequestView { method, url, token: self.token, body }),
            None => Err(ClientError::InvalidEndpoint),
        }
    }

    /// The request for `method` with `body` at the endpoint `path` of the
    /// server.
    pub open spec fn call(self, method: Method, path: Seq<char>, body: BodyView) -> Result<
        RequestView,
        ClientError,
    > {
        self.request(method, joined_url(self.addr, path), body)
    }
}

/// Whether a status code reports success: the codes from 200 to 299.
pub open spec fn success(status: u16) -> bool {
    200 <= status < 300
}

impl VaultClient {
    /// A client of the server at `addr`, without a credential.
    pub fn new(addr: String) -> (client: VaultClient)
        ensures
            client@ == (VaultClientView { addr: addr@, token: None }),
    {
        VaultClient { addr, token: None }
    }

    /// The credential of the client.
    pub fn token(&self) -> (token: Option<String>)
        ensures
            token.deep_view() == self@.token,
    {
        copy_text(&self.token)
    }

    /// Gives the client the credential `token` for all further calls.
    pub fn set_token(&mut self, token: String)
        ensures
            final(self)@ == (VaultClientView { addr: old(self)@.addr, token: Some(token@) }),
    {
        self.token = Some(token);
    }

    /// A client of the same server with the credential `token`, for a single
    /// call. This client keeps its own.
    pub fn with_token(&self, token: String) -> (client: VaultClient)
        ensures
            client@ == (VaultClientView { addr: self@.addr, token: Some(token@) }),
    {
        VaultClient { addr: self.addr.clone(), token: Some(token) }
    }

    /// The absolute URL of the endpoint `path` of the server.
    pub fn endpoint(&self, path: &str) -> (url: Option<String>)
        ensures
            url.deep_view() == joined_url(self@.addr, path@),
    {
        match join_url(self.addr.as_str(), path) {
            Ok(url) => Some(url),
            Err(_) => None,
        }
    }

    /// The request for `method` with `body` at `endpoint`.
    pub fn request(&self, method: Method, endpoint: Option<String>, body: Body) -> (outcome: Result<
        Request,
        ClientError,
    >)
        ensures
            request_outcome_view(outcome) == self@.request(method, endpoint.deep_view(), body@),
    {
        match endpoint {
            Some(url) => Ok(Request { method, url, token: copy_text(&self.token), body }),
            None => Err(ClientError::InvalidEndpoint),
        }
    }

    /// The read of the init status: `GET v1/sys/init`.
    pub fn read_init_status(&self) -> (outcome: Result<Request, ClientError>)
        ensures
            request_outcome_view(outcome) == self@.call(Method::Get, INIT_PATH@, BodyView::Empty),
    {
        self.request(Method::Get, self.endpoint(INIT_PATH), Body::Empty)
    }

    /// The initialization: `POST v1/sys/init`.
    pub fn start_init(&self, request: &PostInitRequest) -> (outcome: Result<Request, ClientError>)
        ensures
            request_outcome_view(outcome) == self@.call(
                Method::Post,
                INIT_PATH@,
                BodyView::Init(request@),
            ),
    {
        self.request(Method::Post, self.endpoint(INIT_PATH), Body::Init(request.duplicate()))
    }

    /// The read of the seal status: `GET v1/sys/seal-status`.
    pub fn get_seal_status(&self) -> (outcome: Result<Request, ClientError>)
        ensures
            request_outcome_view(outcome) == self@.call(
                Method::Get,
                SEAL_STATUS_PATH@,
                BodyView::Empty,
            ),
    {
        self.request(Method::Get, self.endpoint(SEAL_STATUS_PATH), Body::Empty)
    }

    /// The submission of a key share to the unseal: `POST v1/sys/unseal`.
    pub fn submit_unseal_key(&self, request: &PostUnsealRequest) -> (outcome: Result<
        Request,
        ClientError,
    >)
        ensures
            request_outcome_view(outcome) == self@.call(
                Method::Post,
                UNSEAL_PATH@,
                BodyView::Unseal(request@),
            ),
    {
        self.request(Method::Post, self.endpoint(UNSEAL_PATH), Body::Unseal(request.duplicate()))
    }

    /// The read of the root generation attempt:
    /// `GET v1/sys/generate-root/attempt`.
    pub fn get_generate_root_attempt(&self) -> (outcome: Result<Request, ClientError>)
        ensures
            request_outcome_view(outcome) == self@.call(
                Method::Get,
                GENERATE_ROOT_ATTEMPT_PATH@,
                BodyView::Empty,
            ),
    {
        self.request(Method::Get, self.endpoint(GENERATE_ROOT_ATTEMPT_PATH), Body::Empty)
    }

    /// The start of a root generation attempt:
    /// `POST v1/sys/generate-root/attempt`.
    pub fn post_generate_root_attempt(&self, request: &PostGenerateRootAttemptRequest) -> (outcome:
        Result<Request, ClientError>)
        ensures
            request_outcome_view(outcome) == self@.call(
                Method::Post,
                GENERATE_ROOT_ATTEMPT_PATH@,
                BodyView::GenerateRootAttempt(request@),
            ),
    {
        self.request(
            Method::Post,
            self.endpoint(GENERATE_ROOT_ATTEMPT_PATH),
            Body::GenerateRootAttempt(request.duplicate()),
        )
    }

    /// The cancellation of the root generation attempt:
    /// `DELETE v1/sys/generate-root/attempt`.
    pub fn delete_generate_root_attempt(&self) -> (outcome: Result<Request, ClientError>)
        ensures
            request_outcome_view(outcome) == self@.call(
                Method::Delete,
                GENERATE_ROOT_ATTEMPT_PATH@,
                BodyView::Empty,
            ),
    {
        self.request(Method::Delete, self.endpoint(GENERATE_ROOT_ATTEMPT_PATH), Body::Empty)
    }

    /// The submission of a key share to the root generation attempt:
    /// `POST v1/sys/generate-root/update`.
    pub fn post_generate_root_update(&self, request: &PostGenerateRootUpdateRequest) -> (outcome:
        Result<Request, ClientError>)
        ensures
            request_outcome_view(outcome) == self@.call(
                Method::Post,
                GENERATE_ROOT_UPDATE_PATH@,
                BodyView::GenerateRootUpdate(request@),
            ),
    {
        self.request(
            Method::Post,
            self.endpoint(GENERATE_ROOT_UPDATE_PATH),
            Body::GenerateRootUpdate(request.duplicate()),
        )
    }

    /// The revocation of the client's own credential:
    /// `POST v1/auth/token/revoke-self`. The call authenticates with the
    /// token that it revokes.
    pub fn post_auth_token_revoke_self(&self) -> (outcome: Result<Request, ClientError>)
        ensures
            request_outcome_view(outcome) == self@.call(
                Method::Post,
                REVOKE_SELF_PATH@,
                BodyView::Empty,
            ),
    {
        self.request(Method::Post, self.endpoint(REVOKE_SELF_PATH), Body::Empty)
    }

    /// Judges the status code of a response. Every code outside the success
    /// range is an error of the call; none is retried.
    pub fn check_status(status: u16) -> (outcome: Result<(), ClientError>)
        ensures
            outcome == if success(status) {
                Ok::<(), ClientError>(())
            } else {
                Err::<(), ClientError>(ClientError::Status(status))
            },
    {
        if 200 <= status && status < 300 {
            Ok(())
        } else {
            Err(ClientError::Status(status))
        }
    }
}

} // verus!

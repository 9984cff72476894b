//! Bodies of `v1/sys/generate-root/attempt` and `v1/sys/generate-root/update`.
use vstd::prelude::*;

use crate::text::copy_text;

verus! {

/// State of the root generation attempt, as read.
///
/// The server holds at most one attempt at a time.
#[derive(Default, Debug, Clone, PartialEq, Eq)]
pub struct GetGenerateRootAttemptResponse {
    pub started: bool,
    pub nonce: String,
    pub progress: i64,
    pub required: i64,
    pub encoded_token: String,
    pub pgp_fingerprint: String,
    pub otp_length: i64,
    pub complete: bool,
}

/// Mathematical content of a [`GetGenerateRootAttemptResponse`].
pub struct GetGenerateRootAttemptResponseView {
    pub started: bool,
    pub nonce: Seq<char>,
    pub progress: i64,
    pub required: i64,
    pub encoded_token: Seq<char>,
    pub pgp_fingerprint: Seq<char>,
    pub otp_length: i64,
    pub complete: bool,
}

impl View for GetGenerateRootAttemptResponse {
    type V = GetGenerateRootAttemptResponseView;

    open spec fn view(&self) -> GetGenerateRootAttemptResponseView {
        GetGenerateRootAttemptResponseView {
            started: self.started,
            nonce: self.nonce@,
            progress: self.progress,
            required: self.required,
            encoded_token: self.encoded_token@,
            pgp_fingerprint: self.pgp_fingerprint@,
            otp_length: self.otp_length,
            complete: self.complete,
        }
    }
}

/// Start of a root generation attempt.
#[derive(Default, Debug, Clone, PartialEq, Eq)]
pub struct PostGenerateRootAttemptRequest {
    /// A base64-encoded PGP public key. With it the server encrypts the raw
    /// bytes of the new token before it returns them.
    pub pgp_key: Option<String>,
}

/// Mathematical content of a [`PostGenerateRootAttemptRequest`].
pub struct PostGenerateRootAttemptRequestView {
    pub pgp_key: Option<Seq<char>>,
}

impl View for PostGenerateRootAttemptRequest {
    type V = PostGenerateRootAttemptRequestView;

    open spec fn view(&self) -> PostGenerateRootAttemptRequestView {
        PostGenerateRootAttemptRequestView { pgp_key: self.pgp_key.deep_view() }
    }
}

impl PostGenerateRootAttemptRequest {
    /// A copy with the same content.
    pub fn duplicate(&self) -> (copy: PostGenerateRootAttemptRequest)
        ensures
            copy@ == self@,
    {
        PostGenerateRootAttemptRequest { pgp_key: copy_text(&self.pgp_key) }
    }
}

/// State of a root generation attempt that was just started: the state as
/// read, and the one-time pad that protects the new token in transit.
#[derive(Default, Debug, Clone, PartialEq, Eq)]
pub struct PostGenerateRootAttemptResponse {
    pub started: bool,
    pub nonce: String,
    pub progress: i64,
    pub required: i64,
    pub encoded_token: String,
    pub pgp_fingerprint: String,
    pub otp: String,
    pub otp_length: i64,
    pub complete: bool,
}

/// Mathematical content of a [`PostGenerateRootAttemptResponse`].
pub struct PostGenerateRootAttemptResponseView {
    pub started: bool,
    pub nonce: Seq<char>,
    pub progress: i64,
    pub required: i64,
    pub encoded_token: Seq<char>,
    pub pgp_fingerprint: Seq<char>,
    pub otp: Seq<char>,
    pub otp_length: i64,
    pub complete: bool,
}

impl View for PostGenerateRootAttemptResponse {
    type V = PostGenerateRootAttemptResponseView;

    open spec fn view(&self) -> PostGenerateRootAttemptResponseView {
        PostGenerateRootAttemptResponseView {
            started: self.started,
            nonce: self.nonce@,
            progress: self.progress,
            required: self.required,
            encoded_token: self.encoded_token@,
            pgp_fingerprint: self.pgp_fingerprint@,
            otp: self.otp@,
            otp_length: self.otp_length,
            complete: self.complete,
        }
    }
}

/// Submission of one key share to a root generation attempt.
#[derive(Default, Debug, Clone, PartialEq, Eq)]
pub struct PostGenerateRootUpdateRequest {
    /// A single key share.
    pub key: String,
    /// The nonce of the attempt, as the server gave it.
    pub nonce: String,
}

/// Mathematical content of a [`PostGenerateRootUpdateRequest`].
pub struct PostGenerateRootUpdateRequestView {
    pub key: Seq<char>,
    pub nonce: Seq<char>,
}

impl View for PostGenerateRootUpdateRequest {
    type V = PostGenerateRootUpdateRequestView;

    open spec fn view(&self) -> PostGenerateRootUpdateRequestView {
        PostGenerateRootUpdateRequestView { key: self.key@, nonce: self.nonce@ }
    }
}

impl PostGenerateRootUpdateRequest {
    /// A copy with the same content.
    pub fn duplicate(&self) -> (copy: PostGenerateRootUpdateRequest)
        ensures
            copy@ == self@,
    {
        PostGenerateRootUpdateRequest { key: self.key.clone(), nonce: self.nonce.clone() }
    }
}

/// State of a root generation attempt after one submission.
#[derive(Default, Debug, Clone, PartialEq, Eq)]
pub struct PostGenerateRootUpdateResponse {
    pub started: bool,
    pub nonce: String,
    pub progress: i64,
    pub required: i64,
    pub pgp_fingerprint: String,
    pub complete: bool,
    pub encoded_token: String,
}

/// Mathematical content of a [`PostGenerateRootUpdateResponse`].
pub struct PostGenerateRootUpdateResponseView {
    pub started: bool,
    pub nonce: Seq<char>,
    pub progress: i64,
    pub required: i64,
    pub pgp_fingerprint: Seq<char>,
    pub complete: bool,
    pub encoded_token: Seq<char>,
}

impl View for PostGenerateRootUpdateResponse {
    type V = PostGenerateRootUpdateResponseView;

    open spec fn view(&self) -> PostGenerateRootUpdateResponseView {
        PostGenerateRootUpdateResponseView {
            started: self.started,
            nonce: self.nonce@,
            progress: self.progress,
            required: self.required,
            pgp_fingerprint: self.pgp_fingerprint@,
            complete: self.complete,
            encoded_token: self.encoded_token@,
        }
    }
}

} // verus!

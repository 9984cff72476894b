//! Bodies of the token endpoints.
use vstd::prelude::*;

verus! {

/// Body of a token revocation that names the token to revoke.
///
/// Self-revocation sends no body: there the token travels as the bearer
/// credential of the call.
#[derive(Default, Debug, Clone, PartialEq, Eq)]
pub struct PostRevokeRequest {
    pub token: String,
}

/// Mathematical content of a [`PostRevokeRequest`].
pub struct PostRevokeRequestView {
    pub token: Seq<char>,
}

impl View for PostRevokeRequest {
    type V = PostRevokeRequestView;

    open spec fn view(&self) -> PostRevokeRequestView {
        PostRevokeRequestView { token: self.token@ }
    }
}

} // verus!

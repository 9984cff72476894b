//! Bodies of `v1/sys/init`.
use vstd::prelude::*;

use crate::text::copy_strings;
use crate::text::copy_text;

verus! {

/// Response of the init status read.
#[derive(Default, Debug, Clone, PartialEq, Eq)]
pub struct GetInitResponse {
    pub initialized: bool,
}

impl View for GetInitResponse {
    type V = GetInitResponse;

    open spec fn view(&self) -> GetInitResponse {
        *self
    }
}

/// Parameters of the initialization call.
///
/// That the threshold does not exceed the share count is checked by the
/// server, not here.
#[derive(Default, Debug, Clone, PartialEq, Eq)]
pub struct PostInitRequest {
    pub pgp_keys: Option<Vec<String>>,
    pub root_token_pgp_key: Option<String>,
    pub secret_shares: u8,
    pub secret_threshold: u8,
    pub stored_shares: Option<u8>,
    pub recovery_shares: Option<u8>,
    pub recovery_threshold: Option<u8>,
    pub recovery_pgp_keys: Option<Vec<String>>,
}

/// Mathematical content of a [`PostInitRequest`].
pub struct PostInitRequestView {
    pub pgp_keys: Option<Seq<Seq<char>>>,
    pub root_token_pgp_key: Option<Seq<char>>,
    pub secret_shares: u8,
    pub secret_threshold: u8,
    pub stored_shares: Option<u8>,
    pub recovery_shares: Option<u8>,
    pub recovery_threshold: Option<u8>,
    pub recovery_pgp_keys: Option<Seq<Seq<char>>>,
}

impl View for PostInitRequest {
    type V = PostInitRequestView;

    open spec fn view(&self) -> PostInitRequestView {
        PostInitRequestView {
            pgp_keys: self.pgp_keys.deep_view(),
            root_token_pgp_key: self.root_token_pgp_key.deep_view(),
            secret_shares: self.secret_shares,
            secret_threshold: self.secret_threshold,
            stored_shares: self.stored_shares,
            recovery_shares: self.recovery_shares,
            recovery_threshold: self.recovery_threshold,
            recovery_pgp_keys: self.recovery_pgp_keys.deep_view(),
        }
    }
}

impl PostInitRequest {
    /// A copy with the same content.
    pub fn duplicate(&self) -> (copy: PostInitRequest)
        ensures
            copy@ == self@,
    {
        PostInitRequest {
            pgp_keys: match &self.pgp_keys {
                Some(keys) => Some(copy_strings(keys)),
                None => None,
            },
            root_token_pgp_key: copy_text(&self.root_token_pgp_key),
            secret_shares: self.secret_shares,
            secret_threshold: self.secret_threshold,
            stored_shares: self.stored_shares,
            recovery_shares: self.recovery_shares,
            recovery_threshold: self.recovery_threshold,
            recovery_pgp_keys: match &self.recovery_pgp_keys {
                Some(keys) => Some(copy_strings(keys)),
                None => None,
            },
        }
    }
}

/// Result of initialization: the key shares, possibly encrypted, their
/// base64 encodings in the same order, and the initial root token.
///
/// This is the secret material of the whole bootstrap. It is created once,
/// persisted at once, and afterwards only read back.
#[derive(Default, Debug, Clone, PartialEq, Eq)]
pub struct PostInitResponse {
    pub keys: Vec<String>,
    pub keys_base64: Vec<String>,
    pub root_token: String,
}

/// Mathematical content of a [`PostInitResponse`].
pub struct PostInitResponseView {
    pub keys: Seq<Seq<char>>,
    pub keys_base64: Seq<Seq<char>>,
    pub root_token: Seq<char>,
}

impl View for PostInitResponse {
    type V = PostInitResponseView;

    open spec fn view(&self) -> PostInitResponseView {
        PostInitResponseView {
            keys: self.keys.deep_view(),
            keys_base64: self.keys_base64.deep_view(),
            root_token: self.root_token@,
        }
    }
}

/// What the start of the initialization is answered with.
pub type StartInitResponse = PostInitResponse;

impl PostInitResponse {
    /// A copy with the same content.
    pub fn duplicate(&self) -> (copy: PostInitResponse)
        ensures
            copy@ == self@,
    {
        PostInitResponse {
            keys: copy_strings(&self.keys),
            keys_base64: copy_strings(&self.keys_base64),
            root_token: self.root_token.clone(),
        }
    }
}

} // verus!

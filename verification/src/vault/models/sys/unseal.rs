//! Bodies of `v1/sys/unseal`.
use vstd::prelude::*;

use crate::text::copy_text;

verus! {

/// Submission of one key share, or a reset of the unseal progress.
#[derive(Default, Debug, Clone, PartialEq, Eq)]
pub struct PostUnsealRequest {
    pub key: Option<String>,
    pub reset: bool,
    pub migrate: bool,
}

/// Mathematical content of a [`PostUnsealRequest`].
pub struct PostUnsealRequestView {
    pub key: Option<Seq<char>>,
    pub reset: bool,
    pub migrate: bool,
}

impl View for PostUnsealRequest {
    type V = PostUnsealRequestView;

    open spec fn view(&self) -> PostUnsealRequestView {
        PostUnsealRequestView {
            key: self.key.deep_view(),
            reset: self.reset,
            migrate: self.migrate,
        }
    }
}

impl PostUnsealRequest {
    /// A copy with the same content.
    pub fn duplicate(&self) -> (copy: PostUnsealRequest)
        ensures
            copy@ == self@,
    {
        PostUnsealRequest { key: copy_text(&self.key), reset: self.reset, migrate: self.migrate }
    }
}

/// Seal state after one submission.
#[derive(Default, Debug, Clone, PartialEq, Eq)]
pub struct PostUnsealResponse {
    pub sealed: bool,
    pub t: i64,
    pub n: i64,
    pub progress: i64,
    pub version: String,
    pub cluster_name: Option<String>,
    pub cluster_id: Option<String>,
}

/// Mathematical content of a [`PostUnsealResponse`].
pub struct PostUnsealResponseView {
    pub sealed: bool,
    pub t: i64,
    pub n: i64,
    pub progress: i64,
    pub version: Seq<char>,
    pub cluster_name: Option<Seq<char>>,
    pub cluster_id: Option<Seq<char>>,
}

impl View for PostUnsealResponse {
    type V = PostUnsealResponseView;

    open spec fn view(&self) -> PostUnsealResponseView {
        PostUnsealResponseView {
            sealed: self.sealed,
            t: self.t,
            n: self.n,
            progress: self.progress,
            version: self.version@,
            cluster_name: self.cluster_name.deep_view(),
            cluster_id: self.cluster_id.deep_view(),
        }
    }
}

} // verus!

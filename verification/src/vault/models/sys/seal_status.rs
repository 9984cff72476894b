//! Body of `v1/sys/seal-status`.
use vstd::prelude::*;

verus! {

/// Snapshot of the server's seal state.
///
/// A snapshot is read anew at every phase entry and never kept across
/// phases.
#[derive(Default, Debug, Clone, PartialEq, Eq)]
pub struct SealStatusResponse {
    pub sealed: bool,
    pub t: i64,
    pub n: i64,
    pub progress: i64,
    pub nonce: String,
    pub version: String,
    pub build_date: String,
    pub migration: bool,
    pub cluster_name: Option<String>,
    pub cluster_id: Option<String>,
    pub recovery_seal: bool,
    pub storage_type: String,
}

/// Mathematical content of a [`SealStatusResponse`].
pub struct SealStatusResponseView {
    pub sealed: bool,
    pub t: i64,
    pub n: i64,
    pub progress: i64,
    pub nonce: Seq<char>,
    pub version: Seq<char>,
    pub build_date: Seq<char>,
    pub migration: bool,
    pub cluster_name: Option<Seq<char>>,
    pub cluster_id: Option<Seq<char>>,
    pub recovery_seal: bool,
    pub storage_type: Seq<char>,
}

impl View for SealStatusResponse {
    type V = SealStatusResponseView;

    open spec fn view(&self) -> SealStatusResponseView {
        SealStatusResponseView {
            sealed: self.sealed,
            t: self.t,
            n: self.n,
            progress: self.progress,
            nonce: self.nonce@,
            version: self.version@,
            build_date: self.build_date@,
            migration: self.migration,
            cluster_name: self.cluster_name.deep_view(),
            cluster_id: self.cluster_id.deep_view(),
            recovery_seal: self.recovery_seal,
            storage_type: self.storage_type@,
        }
    }
}

} // verus!

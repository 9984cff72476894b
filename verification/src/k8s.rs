//! Create-only helpers for a secret in the caller's own namespace, with the
//! document under the key `init.json`.
use vstd::prelude::*;

use crate::save::kube_secret::document_of;
use crate::save::kube_secret::KubeSecret;
use crate::save::kube_secret::KubeSecretView;
use crate::save::kube_secret::SecretManifestView;
use crate::save::Load;
use crate::save::LoadError;
use crate::save::LoadErrorView;
use crate::save::load_outcome_view;
use crate::save::StoreCommand;
use crate::save::StoreCommandView;
use crate::save::StoreReply;
use crate::save::StoreReplyView;
use crate::vault::models::sys::init::StartInitResponse;

verus! {

/// The key that holds the document.
pub const SECRET_KEY: &'static str = "init.json";

fn plain_secret(name: Option<String>) -> (secret: KubeSecret)
    ensures
        secret@ == (KubeSecretView {
            name: name.deep_view(),
            namespace: None,
            labels: None,
            annotations: None,
            key: Some(SECRET_KEY@),
            overwrite: None,
        }),
{
    KubeSecret {
        name,
        namespace: None,
        labels: None,
        annotations: None,
        key: Some(SECRET_KEY.to_owned()),
        overwrite: None,
    }
}

/// The creation of the secret `name` with `init_response` as its document.
/// Nothing is looked up first: where the secret exists, the cluster refuses
/// the creation.
pub fn write_kube_secret(name: &str, init_response: &StartInitResponse) -> (command: StoreCommand)
    ensures
        command@ == (StoreCommandView::CreateSecret {
            namespace: None,
            secret: SecretManifestView {
                name: name@,
                labels: None,
                annotations: None,
                resource_version: None,
                key: SECRET_KEY@,
                data: init_response@,
            },
        }),
{
    let secret = plain_secret(Some(name.to_owned()));
    StoreCommand::CreateSecret { namespace: None, secret: secret.manifest(init_response, None) }
}

/// The get that a read of the secret `name` opens with.
pub fn read_kube_secret(name: &str) -> (command: StoreCommand)
    ensures
        command@ == (StoreCommandView::GetSecret { namespace: None, name: name@ }),
{
    plain_secret(Some(name.to_owned())).load_lookup()
}

/// The document to decode from what the get of [`read_kube_secret`] found:
/// the text under [`SECRET_KEY`].
pub fn read_kube_secret_document(found: StoreReply) -> (outcome: Result<StoreCommand, LoadError>)
    ensures
        load_outcome_view(outcome) == match found@ {
            StoreReplyView::SecretFound(secret) => document_of(secret.data, SECRET_KEY@),
            StoreReplyView::SecretAbsent(cause) => Err(LoadErrorView::Failed(cause)),
            StoreReplyView::Failed(cause) => Err(LoadErrorView::Failed(cause)),
            _ => Err(LoadErrorView::Unexpected),
        },
{
    plain_secret(None).load_init(found)
}

} // verus!

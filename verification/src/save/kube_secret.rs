//! The cluster-secret backend: one key of one secret object holds the JSON
//! document.
use vstd::prelude::*;

use crate::save::Backend;
use crate::save::Load;
use crate::save::LoadError;
use crate::save::LoadErrorView;
use crate::save::Save;
use crate::save::SaveError;
use crate::save::SaveErrorView;
use crate::save::StoreCommand;
use crate::save::StoreCommandView;
use crate::save::StoreReply;
use crate::save::StoreReplyView;
use crate::text::copy_entries;
use crate::text::copy_text;
use crate::text::text_or;
use crate::text::text_or_view;
use crate::vault::models::sys::init::PostInitResponse;
use crate::vault::models::sys::init::PostInitResponseView;

verus! {

/// The name of the secret where none is configured.
pub const DEFAULT_SECRET_NAME: &'static str = "vault-init";

/// The key inside the secret where none is configured.
pub const DEFAULT_SECRET_KEY: &'static str = "init.json";

/// Configuration of the cluster-secret backend.
///
/// Labels and annotations are lists of pairs, each name at most once.
#[derive(Default, Debug, Clone, PartialEq, Eq)]
pub struct KubeSecret {
    /// Name of the secret. Without it, [`DEFAULT_SECRET_NAME`].
    pub name: Option<String>,
    /// Namespace of the secret. Without it, the caller's own.
    pub namespace: Option<String>,
    /// Labels to put on the secret.
    pub labels: Option<Vec<(String, String)>>,
    /// Annotations to put on the secret.
    pub annotations: Option<Vec<(String, String)>>,
    /// The key that holds the document. Without it, [`DEFAULT_SECRET_KEY`].
    pub key: Option<String>,
    /// Whether an existing secret may be replaced. Without it, it may not.
    pub overwrite: Option<bool>,
}

/// Mathematical content of a [`KubeSecret`].
pub struct KubeSecretView {
    pub name: Option<Seq<char>>,
    pub namespace: Option<Seq<char>>,
    pub labels: Option<Seq<(Seq<char>, Seq<char>)>>,
    pub annotations: Option<Seq<(Seq<char>, Seq<char>)>>,
    pub key: Option<Seq<char>>,
    pub overwrite: Option<bool>,
}

impl KubeSecretView {
    /// The name of the secret.
    pub open spec fn secret_name(self) -> Seq<char> {
        text_or_view(self.name, DEFAULT_SECRET_NAME@)
    }

    /// The key that holds the document.
    pub open spec fn secret_key(self) -> Seq<char> {
        text_or_view(self.key, DEFAULT_SECRET_KEY@)
    }

    /// Whether an existing secret may be replaced.
    pub open spec fn overwrites(self) -> bool {
        self.overwrite == Some(true)
    }

    /// The secret to write for `data`, at the given revision.
    pub open spec fn manifest(
        self,
        data: PostInitResponseView,
        resource_version: Option<Seq<char>>,
    ) -> SecretManifestView {
        SecretManifestView {
            name: self.secret_name(),
            labels: self.labels,
            annotations: self.annotations,
            resource_version,
            key: self.secret_key(),
            data,
        }
    }
}

impl View for KubeSecret {
    type V = KubeSecretView;

    open spec fn view(&self) -> KubeSecretView {
        KubeSecretView {
            name: self.name.deep_view(),
            namespace: self.namespace.deep_view(),
            labels: self.labels.deep_view(),
            annotations: self.annotations.deep_view(),
            key: self.key.deep_view(),
            overwrite: self.overwrite,
        }
    }
}

impl DeepView for KubeSecret {
    type V = KubeSecretView;

    open spec fn deep_view(&self) -> KubeSecretView {
        self@
    }
}

/// A secret to create or to put in the place of an existing one: its
/// metadata, and the result to store as a JSON document under `key`.
#[derive(Debug, Clone, PartialEq, Eq)]
pub struct SecretManifest {
    pub name: String,
    pub labels: Option<Vec<(String, String)>>,
    pub annotations: Option<Vec<(String, String)>>,
    /// The revision of the object that this one replaces. A creation has
    /// none.
    pub resource_version: Option<String>,
    pub key: String,
    pub data: PostInitResponse,
}

/// Mathematical content of a [`SecretManifest`].
pub struct SecretManifestView {
    pub name: Seq<char>,
    pub labels: Option<Seq<(Seq<char>, Seq<char>)>>,
    pub annotations: Option<Seq<(Seq<char>, Seq<char>)>>,
    pub resource_version: Option<Seq<char>>,
    pub key: Seq<char>,
    pub data: PostInitResponseView,
}

impl View for SecretManifest {
    type V = SecretManifestView;

    open spec fn view(&self) -> SecretManifestView {
        SecretManifestView {
            name: self.name@,
            labels: self.labels.deep_view(),
            annotations: self.annotations.deep_view(),
            resource_version: self.resource_version.deep_view(),
            key: self.key@,
            data: self.data@,
        }
    }
}

/// What the logic reads of a secret that the cluster returned: its revision
/// and its data, a list of keys with their bytes, each key at most once.
#[derive(Default, Debug, Clone, PartialEq, Eq)]
pub struct SecretObject {
    pub resource_version: Option<String>,
    pub data: Option<Vec<(String, Vec<u8>)>>,
}

/// Mathematical content of a [`SecretObject`].
pub struct SecretObjectView {
    pub resource_version: Option<Seq<char>>,
    pub data: Option<Seq<(Seq<char>, Seq<u8>)>>,
}

impl View for SecretObject {
    type V = SecretObjectView;

    open spec fn view(&self) -> SecretObjectView {
        SecretObjectView {
            resource_version: self.resource_version.deep_view(),
            data: self.data.deep_view(),
        }
    }
}

/// The bytes under `key`: those of the first entry with that key.
pub open spec fn entry_of(entries: Seq<(Seq<char>, Seq<u8>)>, key: Seq<char>) -> Option<Seq<u8>>
    decreases entries.len(),
{
    if entries.len() == 0 {
        None
    } else if entries.first().0 == key {
        Some(entries.first().1)
    } else {
        entry_of(entries.drop_first(), key)
    }
}

proof fn entry_of_skips_other_keys(entries: Seq<(Seq<char>, Seq<u8>)>, key: Seq<char>, n: int)
    requires
        0 <= n <= entries.len(),
        forall|j: int| 0 <= j < n ==> (#[trigger] entries[j]).0 != key,
    ensures
        entry_of(entries, key) == entry_of(entries.skip(n), key),
    decreases n,
{
    if n == 0 {
        assert(entries.skip(0) =~= entries);
    } else {
        let rest = entries.drop_first();
        assert forall|j: int| 0 <= j < n - 1 implies (#[trigger] rest[j]).0 != key by {
            assert(rest[j] == entries[j + 1]);
        }
        entry_of_skips_other_keys(rest, key, n - 1);
        assert(rest.skip(n - 1) =~= entries.skip(n));
        assert(entries.first() == entries[0]);
    }
}

/// Takes the bytes under `key` out of the entries.
pub fn take_entry(entries: Vec<(String, Vec<u8>)>, key: &String) -> (bytes: Option<Vec<u8>>)
    ensures
        bytes.deep_view() == entry_of(entries.deep_view(), key@),
{
    let ghost all = entries.deep_view();
    let mut left = entries;
    let mut i: usize = 0;
    while i < left.len()
        invariant
            i <= left.len(),
            left.deep_view() == all,
            all == entries.deep_view(),
            forall|j: int| 0 <= j < i ==> (#[trigger] all[j]).0 != key@,
        decreases left.len() - i,
    {
        assert(all[i as int] == left[i as int].deep_view());
        if left[i].0 == *key {
            let entry = left.remove(i);
            proof {
                entry_of_skips_other_keys(all, key@, i as int);
                assert(all.skip(i as int).first() == all[i as int]);
            }
            return Some(entry.1);
        }
        i = i + 1;
    }
    proof {
        entry_of_skips_other_keys(all, key@, all.len() as int);
        assert(all.skip(all.len() as int) =~= Seq::empty());
    }
    None
}

/// The error of `String::from_utf8`.
#[verifier::external_type_specification]
#[verifier::external_body]
pub struct ExFromUtf8Error(std::string::FromUtf8Error);

/// `String::from_utf8` of the standard library: it succeeds on exactly the
/// byte sequences that are valid UTF-8, and the string it returns is the
/// text that they encode.
pub assume_specification[ String::from_utf8 ](vec: Vec<u8>) -> (text: Result<
    String,
    std::string::FromUtf8Error,
>)
    ensures
        text is Ok <==> vstd::utf8::valid_utf8(vec@),
        text matches Ok(text) ==> text@ == vstd::utf8::decode_utf8(vec@),
;

impl KubeSecret {
    /// The name of the secret.
    pub fn secret_name(&self) -> (name: String)
        ensures
            name@ == self@.secret_name(),
    {
        text_or(&self.name, DEFAULT_SECRET_NAME)
    }

    /// The key that holds the document.
    pub fn secret_key(&self) -> (key: String)
        ensures
            key@ == self@.secret_key(),
    {
        text_or(&self.key, DEFAULT_SECRET_KEY)
    }

    /// Whether an existing secret may be replaced.
    pub fn overwrites(&self) -> (allowed: bool)
        ensures
            allowed == self@.overwrites(),
    {
        match self.overwrite {
            Some(allowed) => allowed,
            None => false,
        }
    }

    /// The secret to write for `data`, at the given revision.
    pub fn manifest(&self, data: &PostInitResponse, resource_version: Option<String>) -> (secret:
        SecretManifest)
        ensures
            secret@ == self@.manifest(data@, resource_version.deep_view()),
    {
        SecretManifest {
            name: self.secret_name(),
            labels: copy_entries(&self.labels),
            annotations: copy_entries(&self.annotations),
            resource_version,
            key: self.secret_key(),
            data: data.duplicate(),
        }
    }
}

impl Save for KubeSecret {
    /// A save opens with a get of the secret.
    open spec fn save_lookup_model(&self) -> StoreCommandView {
        StoreCommandView::GetSecret { namespace: self@.namespace, name: self@.secret_name() }
    }

    /// - The secret exists, and there is no leave to overwrite: the save is
    ///   refused as already existing, and nothing is written.
    /// - The secret exists, and there is leave to overwrite: it is replaced,
    ///   at the revision that the existing object has.
    /// - The cluster returned no secret: one is created, with the configured
    ///   labels and annotations.
    /// - No client could be had: the save fails with the cause.
    open spec fn save_init_model(&self, data: PostInitResponseView, found: StoreReplyView)
        -> Result<StoreCommandView, SaveErrorView> {
        match found {
            StoreReplyView::SecretFound(existing) => if self@.overwrites() {
                Ok(
                    StoreCommandView::ReplaceSecret {
                        namespace: self@.namespace,
                        secret: self@.manifest(data, existing.resource_version),
                    },
                )
            } else {
                Err(SaveErrorView::AlreadyExists(Backend::KubeSecret))
            },
            StoreReplyView::SecretAbsent(_) => Ok(
                StoreCommandView::CreateSecret {
                    namespace: self@.namespace,
                    secret: self@.manifest(data, None),
                },
            ),
            StoreReplyView::Failed(cause) => Err(SaveErrorView::Failed(cause)),
            _ => Err(SaveErrorView::Unexpected),
        }
    }

    fn save_lookup(&self) -> (command: StoreCommand) {
        StoreCommand::GetSecret { namespace: copy_text(&self.namespace), name: self.secret_name() }
    }

    fn save_init(&self, data: &PostInitResponse, found: StoreReply) -> (outcome: Result<
        StoreCommand,
        SaveError,
    >) {
        match found {
            StoreReply::SecretFound(existing) => {
                if self.overwrites() {
                    Ok(
                        StoreCommand::ReplaceSecret {
                            namespace: copy_text(&self.namespace),
                            secret: self.manifest(data, existing.resource_version),
                        },
                    )
                } else {
                    Err(SaveError::AlreadyExists(Backend::KubeSecret))
                }
            },
            StoreReply::SecretAbsent(_) => Ok(
                StoreCommand::CreateSecret {
                    namespace: copy_text(&self.namespace),
                    secret: self.manifest(data, None),
                },
            ),
            StoreReply::Failed(cause) => Err(SaveError::Failed(cause)),
            _ => Err(SaveError::Unexpected),
        }
    }
}

/// The document to decode from the data of a secret, or the reason why
/// there is none: the secret has no data, the data has no entry under
/// `key`, or the bytes of that entry are not UTF-8.
pub open spec fn document_of(data: Option<Seq<(Seq<char>, Seq<u8>)>>, key: Seq<char>) -> Result<
    StoreCommandView,
    LoadErrorView,
> {
    match data {
        None => Err(LoadErrorView::NoData),
        Some(entries) => match entry_of(entries, key) {
            None => Err(LoadErrorView::MissingKey),
            Some(bytes) => if vstd::utf8::valid_utf8(bytes) {
                Ok(StoreCommandView::DecodeText(vstd::utf8::decode_utf8(bytes)))
            } else {
                Err(LoadErrorView::NotUtf8)
            },
        },
    }
}

impl Load for KubeSecret {
    /// A load opens with a get of the secret.
    open spec fn load_lookup_model(&self) -> StoreCommandView {
        StoreCommandView::GetSecret { namespace: self@.namespace, name: self@.secret_name() }
    }

    /// From a secret that the cluster returned, the text under the
    /// configured key is to be decoded. A get that returned no secret, and a
    /// client that could not be had, fail the load with the cause.
    open spec fn load_init_model(&self, found: StoreReplyView) -> Result<
        StoreCommandView,
        LoadErrorView,
    > {
        match found {
            StoreReplyView::SecretFound(secret) => document_of(secret.data, self@.secret_key()),
            StoreReplyView::SecretAbsent(cause) => Err(LoadErrorView::Failed(cause)),
            StoreReplyView::Failed(cause) => Err(LoadErrorView::Failed(cause)),
            _ => Err(LoadErrorView::Unexpected),
        }
    }

    fn load_lookup(&self) -> (command: StoreCommand) {
        StoreCommand::GetSecret { namespace: copy_text(&self.namespace), name: self.secret_name() }
    }

    fn load_init(&self, found: StoreReply) -> (outcome: Result<StoreCommand, LoadError>) {
        match found {
            StoreReply::SecretFound(secret) => {
                let entries = match secret.data {
                    Some(entries) => entries,
                    None => { return Err(LoadError::NoData); },
                };
                let key = self.secret_key();
                let bytes = match take_entry(entries, &key) {
                    Some(bytes) => bytes,
                    None => { return Err(LoadError::MissingKey); },
                };
                assert(bytes.deep_view() =~= bytes@);
                match String::from_utf8(bytes) {
                    Ok(text) => Ok(StoreCommand::DecodeText(text)),
                    Err(_) => Err(LoadError::NotUtf8),
                }
            },
            StoreReply::SecretAbsent(cause) => Err(LoadError::Failed(cause)),
            StoreReply::Failed(cause) => Err(LoadError::Failed(cause)),
            _ => Err(LoadError::Unexpected),
        }
    }
}

/// An existing secret is replaced only with leave, and then at its own
/// revision.
///
/// Where the cluster returned the secret, a backend without leave to
/// overwrite refuses the save as already existing and asks for no write. One
/// with leave to overwrite asks for a replacement that carries the revision
/// of the object that was returned. Where the cluster returned no secret, a
/// creation is asked for, which carries no revision.
pub proof fn an_existing_secret_is_replaced_only_with_leave(
    secret: KubeSecret,
    data: PostInitResponseView,
    existing: SecretObjectView,
    cause: Seq<char>,
)
    ensures
        !secret.save_lookup_model().writes(),
        !secret@.overwrites() ==> secret.save_init_model(
            data,
            StoreReplyView::SecretFound(existing),
        ) == Err::<StoreCommandView, SaveErrorView>(
            SaveErrorView::AlreadyExists(Backend::KubeSecret),
        ),
        secret@.overwrites() ==> secret.save_init_model(
            data,
            StoreReplyView::SecretFound(existing),
        ) == Ok::<StoreCommandView, SaveErrorView>(
            StoreCommandView::ReplaceSecret {
                namespace: secret@.namespace,
                secret: secret@.manifest(data, existing.resource_version),
            },
        ),
        secret.save_init_model(data, StoreReplyView::SecretAbsent(cause)) == Ok::<
            StoreCommandView,
            SaveErrorView,
        >(
            StoreCommandView::CreateSecret {
                namespace: secret@.namespace,
                secret: secret@.manifest(data, None),
            },
        ),
{
}

} // verus!

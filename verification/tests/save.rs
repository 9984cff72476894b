use vault_init::save::kube_secret::take_entry;
use vault_init::save::kube_secret::SecretManifest;
use vault_init::save::kube_secret::SecretObject;
use vault_init::save::Backend;
use vault_init::save::File;
use vault_init::save::KubeSecret;
use vault_init::save::Load;
use vault_init::save::LoadError;
use vault_init::save::Save;
use vault_init::save::SaveError;
use vault_init::save::StoreCommand;
use vault_init::save::StoreReply;
use vault_init::vault::models::sys::init::PostInitResponse;

fn result() -> PostInitResponse {
    PostInitResponse {
        keys: vec!["k0".to_string(), "k1".to_string()],
        keys_base64: vec!["azA=".to_string(), "azE=".to_string()],
        root_token: "root-0".to_string(),
    }
}

fn file(path: Option<&str>, overwrite: Option<bool>) -> File {
    File { path: path.map(|p| p.to_string()), overwrite }
}

fn labelled_secret(overwrite: Option<bool>) -> KubeSecret {
    KubeSecret {
        name: Some("vault-keys".to_string()),
        namespace: Some("vault".to_string()),
        labels: Some(vec![("app".to_string(), "vault".to_string())]),
        annotations: Some(vec![("owner".to_string(), "ops".to_string())]),
        key: Some("keys.json".to_string()),
        overwrite,
    }
}

fn labelled_manifest(resource_version: Option<&str>) -> SecretManifest {
    SecretManifest {
        name: "vault-keys".to_string(),
        labels: Some(vec![("app".to_string(), "vault".to_string())]),
        annotations: Some(vec![("owner".to_string(), "ops".to_string())]),
        resource_version: resource_version.map(|v| v.to_string()),
        key: "keys.json".to_string(),
        data: result(),
    }
}

fn secret_with(entries: Vec<(&str, Vec<u8>)>) -> StoreReply {
    StoreReply::SecretFound(SecretObject {
        resource_version: Some("41".to_string()),
        data: Some(entries.into_iter().map(|(k, v)| (k.to_string(), v)).collect()),
    })
}

#[test]
fn file_defaults_to_vault_init_json_without_overwrite() {
    let backend = File::default();
    assert_eq!(backend.target(), "vault-init.json");
    assert!(!backend.overwrites());
    assert_eq!(
        backend.save_lookup(),
        StoreCommand::ProbeFile { path: "vault-init.json".to_string() }
    );
    assert_eq!(
        backend.load_lookup(),
        StoreCommand::ReadFile { path: "vault-init.json".to_string() }
    );
}

#[test]
fn file_uses_the_configured_path() {
    let backend = file(Some("/var/lib/vault/init.json"), Some(true));
    assert_eq!(backend.target(), "/var/lib/vault/init.json");
    assert!(backend.overwrites());
    assert!(!file(None, Some(false)).overwrites());
}

#[test]
fn existing_file_without_overwrite_is_left_alone() {
    let found = StoreReply::FilePresent { regular: true };
    assert_eq!(
        file(Some("init.json"), None).save_init(&result(), found.clone()),
        Err(SaveError::AlreadyExists(Backend::File))
    );
    assert_eq!(
        file(Some("init.json"), Some(false)).save_init(&result(), found),
        Err(SaveError::AlreadyExists(Backend::File))
    );
}

#[test]
fn existing_file_with_overwrite_is_replaced_with_the_new_payload() {
    let found = StoreReply::FilePresent { regular: true };
    assert_eq!(
        file(Some("init.json"), Some(true)).save_init(&result(), found),
        Ok(StoreCommand::WriteFile { path: "init.json".to_string(), data: result() })
    );
}

#[test]
fn missing_file_is_created() {
    assert_eq!(
        file(None, None).save_init(&result(), StoreReply::FileAbsent),
        Ok(StoreCommand::WriteFile { path: "vault-init.json".to_string(), data: result() })
    );
}

#[test]
fn something_that_is_no_regular_file_does_not_stop_the_write() {
    let found = StoreReply::FilePresent { regular: false };
    assert_eq!(
        file(Some("dir"), None).save_init(&result(), found),
        Ok(StoreCommand::WriteFile { path: "dir".to_string(), data: result() })
    );
}

#[test]
fn failed_probe_fails_the_file_save() {
    let found = StoreReply::Failed("permission denied".to_string());
    assert_eq!(
        file(None, Some(true)).save_init(&result(), found),
        Err(SaveError::Failed("permission denied".to_string()))
    );
}

#[test]
fn file_save_rejects_a_reply_out_of_turn() {
    assert_eq!(
        file(None, None).save_init(&result(), StoreReply::Written),
        Err(SaveError::Unexpected)
    );
}

#[test]
fn file_load_hands_the_bytes_to_the_decoder() {
    let bytes = b"{\"keys\":[]}".to_vec();
    assert_eq!(
        file(None, None).load_init(StoreReply::FileRead(bytes.clone())),
        Ok(StoreCommand::DecodeBytes(bytes))
    );
}

#[test]
fn file_load_fails_on_a_missing_file() {
    let found = StoreReply::Failed("No such file or directory".to_string());
    assert_eq!(
        file(None, None).load_init(found),
        Err(LoadError::Failed("No such file or directory".to_string()))
    );
    assert_eq!(file(None, None).load_init(StoreReply::FileAbsent), Err(LoadError::Unexpected));
}

#[test]
fn secret_defaults() {
    let backend = KubeSecret::default();
    assert_eq!(backend.secret_name(), "vault-init");
    assert_eq!(backend.secret_key(), "init.json");
    assert!(!backend.overwrites());
    assert_eq!(
        backend.save_lookup(),
        StoreCommand::GetSecret { namespace: None, name: "vault-init".to_string() }
    );
    assert_eq!(
        backend.load_lookup(),
        StoreCommand::GetSecret { namespace: None, name: "vault-init".to_string() }
    );
}

#[test]
fn secret_lookup_uses_name_and_namespace() {
    assert_eq!(
        labelled_secret(None).save_lookup(),
        StoreCommand::GetSecret {
            namespace: Some("vault".to_string()),
            name: "vault-keys".to_string(),
        }
    );
}

#[test]
fn absent_secret_is_created_with_labels_and_annotations() {
    let found = StoreReply::SecretAbsent("404 Not Found".to_string());
    assert_eq!(
        labelled_secret(None).save_init(&result(), found),
        Ok(StoreCommand::CreateSecret {
            namespace: Some("vault".to_string()),
            secret: labelled_manifest(None),
        })
    );
}

#[test]
fn existing_secret_without_overwrite_is_left_alone() {
    let found = secret_with(vec![]);
    assert_eq!(
        labelled_secret(None).save_init(&result(), found.clone()),
        Err(SaveError::AlreadyExists(Backend::KubeSecret))
    );
    assert_eq!(
        labelled_secret(Some(false)).save_init(&result(), found),
        Err(SaveError::AlreadyExists(Backend::KubeSecret))
    );
}

#[test]
fn existing_secret_is_replaced_at_its_revision() {
    let found = secret_with(vec![]);
    assert_eq!(
        labelled_secret(Some(true)).save_init(&result(), found),
        Ok(StoreCommand::ReplaceSecret {
            namespace: Some("vault".to_string()),
            secret: labelled_manifest(Some("41")),
        })
    );
}

#[test]
fn secret_save_fails_without_a_client() {
    let found = StoreReply::Failed("no kubeconfig".to_string());
    assert_eq!(
        labelled_secret(Some(true)).save_init(&result(), found),
        Err(SaveError::Failed("no kubeconfig".to_string()))
    );
    assert_eq!(
        labelled_secret(Some(true)).save_init(&result(), StoreReply::FileAbsent),
        Err(SaveError::Unexpected)
    );
}

#[test]
fn manifest_carries_configuration_and_payload() {
    assert_eq!(
        labelled_secret(None).manifest(&result(), Some("7".to_string())),
        labelled_manifest(Some("7"))
    );
    assert_eq!(
        KubeSecret::default().manifest(&result(), None),
        SecretManifest {
            name: "vault-init".to_string(),
            labels: None,
            annotations: None,
            resource_version: None,
            key: "init.json".to_string(),
            data: result(),
        }
    );
}

#[test]
fn secret_load_decodes_the_text_under_the_key() {
    let document = "{\"keys\":[\"k0\"],\"keys_base64\":[\"azA=\"],\"root_token\":\"r\"}";
    let found = secret_with(vec![
        ("other", b"x".to_vec()),
        ("keys.json", document.as_bytes().to_vec()),
    ]);
    assert_eq!(
        labelled_secret(None).load_init(found),
        Ok(StoreCommand::DecodeText(document.to_string()))
    );
}

#[test]
fn secret_load_reads_utf8_beyond_ascii() {
    let found = secret_with(vec![("keys.json", vec![0xc3, 0xa9, 0xe2, 0x82, 0xac])]);
    assert_eq!(
        labelled_secret(None).load_init(found),
        Ok(StoreCommand::DecodeText("\u{e9}\u{20ac}".to_string()))
    );
}

#[test]
fn secret_load_rejects_bytes_that_are_not_utf8() {
    let found = secret_with(vec![("keys.json", vec![0x7b, 0xff, 0x7d])]);
    assert_eq!(labelled_secret(None).load_init(found), Err(LoadError::NotUtf8));
}

#[test]
fn secret_load_needs_data_and_key() {
    let no_data = StoreReply::SecretFound(SecretObject { resource_version: None, data: None });
    assert_eq!(labelled_secret(None).load_init(no_data), Err(LoadError::NoData));
    let other_key = secret_with(vec![("init.json", b"{}".to_vec())]);
    assert_eq!(labelled_secret(None).load_init(other_key), Err(LoadError::MissingKey));
    let empty = secret_with(vec![]);
    assert_eq!(labelled_secret(None).load_init(empty), Err(LoadError::MissingKey));
}

#[test]
fn secret_load_fails_where_the_secret_is_not_returned() {
    assert_eq!(
        labelled_secret(None).load_init(StoreReply::SecretAbsent("404".to_string())),
        Err(LoadError::Failed("404".to_string()))
    );
    assert_eq!(
        labelled_secret(None).load_init(StoreReply::Failed("no kubeconfig".to_string())),
        Err(LoadError::Failed("no kubeconfig".to_string()))
    );
    assert_eq!(labelled_secret(None).load_init(StoreReply::Written), Err(LoadError::Unexpected));
}

#[test]
fn take_entry_takes_the_first_entry_of_the_key() {
    let entries = vec![
        ("a".to_string(), vec![1u8]),
        ("b".to_string(), vec![2u8, 3u8]),
        ("b".to_string(), vec![4u8]),
    ];
    assert_eq!(take_entry(entries.clone(), &"b".to_string()), Some(vec![2u8, 3u8]));
    assert_eq!(take_entry(entries.clone(), &"a".to_string()), Some(vec![1u8]));
    assert_eq!(take_entry(entries, &"c".to_string()), None);
    assert_eq!(take_entry(Vec::new(), &"a".to_string()), None);
}

#[test]
fn save_error_messages() {
    assert_eq!(
        SaveError::AlreadyExists(Backend::File).message(),
        "File already exists, but not configured to overwrite"
    );
    assert_eq!(
        SaveError::AlreadyExists(Backend::KubeSecret).message(),
        "Kube secret already exists, but not configured to overwrite"
    );
    assert_eq!(SaveError::Failed("disk full".to_string()).message(), "disk full");
    assert_eq!(SaveError::Unexpected.message(), "Unexpected reply while saving init data");
}

#[test]
fn load_error_messages() {
    assert_eq!(LoadError::Failed("gone".to_string()).message(), "gone");
    assert_eq!(LoadError::NoData.message(), "Kubernetes secret contained no data");
    assert_eq!(
        LoadError::MissingKey.message(),
        "Kubernetes secret did not contain expected key"
    );
    assert_eq!(LoadError::NotUtf8.message(), "Kubernetes secret data is not valid UTF-8");
    assert_eq!(LoadError::Unexpected.message(), "Unexpected reply while loading init data");
    assert_eq!(
        LoadError::Unavailable.message(),
        "Failed loading init data from all save methods"
    );
}

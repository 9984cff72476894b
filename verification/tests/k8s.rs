use vault_init::k8s::read_kube_secret;
use vault_init::k8s::read_kube_secret_document;
use vault_init::k8s::write_kube_secret;
use vault_init::save::kube_secret::SecretManifest;
use vault_init::save::kube_secret::SecretObject;
use vault_init::save::LoadError;
use vault_init::save::StoreCommand;
use vault_init::save::StoreReply;
use vault_init::vault::models::sys::init::PostInitResponse;

fn result() -> PostInitResponse {
    PostInitResponse {
        keys: vec!["k0".to_string()],
        keys_base64: vec!["azA=".to_string()],
        root_token: "root-0".to_string(),
    }
}

#[test]
fn write_creates_the_secret_in_the_own_namespace() {
    assert_eq!(
        write_kube_secret("vault-keys", &result()),
        StoreCommand::CreateSecret {
            namespace: None,
            secret: SecretManifest {
                name: "vault-keys".to_string(),
                labels: None,
                annotations: None,
                resource_version: None,
                key: "init.json".to_string(),
                data: result(),
            },
        }
    );
}

#[test]
fn read_gets_the_secret_by_name() {
    assert_eq!(
        read_kube_secret("vault-keys"),
        StoreCommand::GetSecret { namespace: None, name: "vault-keys".to_string() }
    );
}

#[test]
fn read_takes_the_document_under_init_json() {
    let found = StoreReply::SecretFound(SecretObject {
        resource_version: None,
        data: Some(vec![("init.json".to_string(), b"{\"keys\":[]}".to_vec())]),
    });
    assert_eq!(
        read_kube_secret_document(found),
        Ok(StoreCommand::DecodeText("{\"keys\":[]}".to_string()))
    );
}

#[test]
fn read_fails_without_data_or_key() {
    let no_data = StoreReply::SecretFound(SecretObject::default());
    assert_eq!(read_kube_secret_document(no_data), Err(LoadError::NoData));
    let other = StoreReply::SecretFound(SecretObject {
        resource_version: None,
        data: Some(vec![("other".to_string(), vec![])]),
    });
    assert_eq!(read_kube_secret_document(other), Err(LoadError::MissingKey));
    assert_eq!(
        read_kube_secret_document(StoreReply::SecretAbsent("404".to_string())),
        Err(LoadError::Failed("404".to_string()))
    );
}

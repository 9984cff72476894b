use vault_init::config::LoadStage;
use vault_init::config::LoadStep;
use vault_init::config::SaveMethod;
use vault_init::config::SaveStage;
use vault_init::config::SaveStep;
use vault_init::orchestrator::Command;
use vault_init::orchestrator::Errand;
use vault_init::save::Backend;
use vault_init::save::File;
use vault_init::save::StoreCommand;
use vault_init::vault::Body;
use vault_init::vault::ClientError;
use vault_init::vault::Method;
use vault_init::vault::Request;
use vault_init::vault::StartInitRequest;
use vault_init::vault::StartInitResponse;
use vault_init::vault::UnsealRequest;
use vault_init::vault::VaultClient;
use vault_init::vault::models::auth::token::PostRevokeRequest;
use vault_init::vault::models::sys::generate_root::PostGenerateRootAttemptRequest;
use vault_init::vault::models::sys::generate_root::PostGenerateRootUpdateRequest;
use vault_init::vault::models::sys::init::PostInitRequest;
use vault_init::vault::models::sys::init::PostInitResponse;
use vault_init::vault::models::sys::unseal::PostUnsealRequest;

fn client() -> VaultClient {
    VaultClient::new("http://127.0.0.1:8200".to_string())
}

fn request(method: Method, url: &str, token: Option<&str>, body: Body) -> Request {
    Request { method, url: url.to_string(), token: token.map(|t| t.to_string()), body }
}

fn init_request() -> PostInitRequest {
    PostInitRequest {
        pgp_keys: Some(vec!["pk0".to_string(), "pk1".to_string()]),
        root_token_pgp_key: Some("rk".to_string()),
        secret_shares: 2,
        secret_threshold: 2,
        stored_shares: Some(2),
        recovery_shares: Some(3),
        recovery_threshold: Some(2),
        recovery_pgp_keys: Some(vec!["rp0".to_string()]),
    }
}

#[test]
fn new_client_has_no_credential() {
    assert_eq!(client().addr, "http://127.0.0.1:8200");
    assert_eq!(client().token(), None);
}

#[test]
fn init_status_is_a_get_of_the_init_endpoint() {
    assert_eq!(
        client().read_init_status(),
        Ok(request(Method::Get, "http://127.0.0.1:8200/v1/sys/init", None, Body::Empty))
    );
}

#[test]
fn init_is_a_post_of_the_request() {
    assert_eq!(
        client().start_init(&init_request()),
        Ok(request(
            Method::Post,
            "http://127.0.0.1:8200/v1/sys/init",
            None,
            Body::Init(init_request()),
        ))
    );
}

#[test]
fn seal_status_is_a_get() {
    assert_eq!(
        client().get_seal_status(),
        Ok(request(Method::Get, "http://127.0.0.1:8200/v1/sys/seal-status", None, Body::Empty))
    );
}

#[test]
fn unseal_is_a_post_of_the_share() {
    let share = PostUnsealRequest { key: Some("k0".to_string()), reset: false, migrate: false };
    assert_eq!(
        client().submit_unseal_key(&share),
        Ok(request(
            Method::Post,
            "http://127.0.0.1:8200/v1/sys/unseal",
            None,
            Body::Unseal(share.clone()),
        ))
    );
}

#[test]
fn generate_root_endpoints() {
    let url = "http://127.0.0.1:8200/v1/sys/generate-root/attempt";
    assert_eq!(
        client().get_generate_root_attempt(),
        Ok(request(Method::Get, url, None, Body::Empty))
    );
    let start = PostGenerateRootAttemptRequest { pgp_key: Some("pk".to_string()) };
    assert_eq!(
        client().post_generate_root_attempt(&start),
        Ok(request(Method::Post, url, None, Body::GenerateRootAttempt(start.clone())))
    );
    assert_eq!(
        client().delete_generate_root_attempt(),
        Ok(request(Method::Delete, url, None, Body::Empty))
    );
    let update = PostGenerateRootUpdateRequest { key: "k0".to_string(), nonce: "n".to_string() };
    assert_eq!(
        client().post_generate_root_update(&update),
        Ok(request(
            Method::Post,
            "http://127.0.0.1:8200/v1/sys/generate-root/update",
            None,
            Body::GenerateRootUpdate(update.clone()),
        ))
    );
}

#[test]
fn set_token_gives_every_later_call_the_credential() {
    let mut client = client();
    client.set_token("s.abc".to_string());
    assert_eq!(client.token(), Some("s.abc".to_string()));
    assert_eq!(
        client.get_seal_status(),
        Ok(request(
            Method::Get,
            "http://127.0.0.1:8200/v1/sys/seal-status",
            Some("s.abc"),
            Body::Empty,
        ))
    );
}

#[test]
fn with_token_swaps_the_credential_for_one_call() {
    let mut base = client();
    base.set_token("s.current".to_string());
    let swapped = base.with_token("s.outgoing".to_string());
    assert_eq!(swapped.token(), Some("s.outgoing".to_string()));
    assert_eq!(swapped.addr, base.addr);
    assert_eq!(base.token(), Some("s.current".to_string()));
    assert_eq!(
        swapped.post_auth_token_revoke_self(),
        Ok(request(
            Method::Post,
            "http://127.0.0.1:8200/v1/auth/token/revoke-self",
            Some("s.outgoing"),
            Body::Empty,
        ))
    );
}

#[test]
fn endpoint_joins_as_a_relative_reference() {
    let plain = VaultClient::new("https://vault.example.net:8200".to_string());
    assert_eq!(
        plain.endpoint("v1/sys/init"),
        Some("https://vault.example.net:8200/v1/sys/init".to_string())
    );
    let with_slash = VaultClient::new("https://example.net/vault/".to_string());
    assert_eq!(
        with_slash.endpoint("v1/sys/init"),
        Some("https://example.net/vault/v1/sys/init".to_string())
    );
    let without_slash = VaultClient::new("https://example.net/vault".to_string());
    assert_eq!(
        without_slash.endpoint("v1/sys/init"),
        Some("https://example.net/v1/sys/init".to_string())
    );
}

#[test]
fn address_that_is_no_url_gives_no_endpoint() {
    let broken = VaultClient::new("127.0.0.1:8200/vault path".to_string());
    assert_eq!(broken.endpoint("v1/sys/init"), None);
    assert_eq!(VaultClient::new(String::new()).endpoint("v1/sys/init"), None);
    assert_eq!(
        VaultClient::new("not a url".to_string()).read_init_status(),
        Err(ClientError::InvalidEndpoint)
    );
}

#[test]
fn request_is_built_from_the_endpoint_it_is_given() {
    let mut client = client();
    client.set_token("t".to_string());
    assert_eq!(
        client.request(Method::Delete, Some("http://h/x".to_string()), Body::Empty),
        Ok(request(Method::Delete, "http://h/x", Some("t"), Body::Empty))
    );
    assert_eq!(
        client.request(Method::Get, None, Body::Empty),
        Err(ClientError::InvalidEndpoint)
    );
}

#[test]
fn only_codes_from_200_to_299_are_success() {
    assert_eq!(VaultClient::check_status(200), Ok(()));
    assert_eq!(VaultClient::check_status(204), Ok(()));
    assert_eq!(VaultClient::check_status(299), Ok(()));
    assert_eq!(VaultClient::check_status(199), Err(ClientError::Status(199)));
    assert_eq!(VaultClient::check_status(300), Err(ClientError::Status(300)));
    assert_eq!(VaultClient::check_status(400), Err(ClientError::Status(400)));
    assert_eq!(VaultClient::check_status(503), Err(ClientError::Status(503)));
    assert_eq!(VaultClient::check_status(0), Err(ClientError::Status(0)));
}

#[test]
fn commands_to_the_server_become_requests() {
    let mut client = client();
    client.set_token("s.current".to_string());
    assert_eq!(Command::ReadInitStatus.request(&client), Some(client.read_init_status()));
    assert_eq!(
        Command::StartInit(init_request()).request(&client),
        Some(client.start_init(&init_request()))
    );
    assert_eq!(Command::GetSealStatus.request(&client), Some(client.get_seal_status()));
    assert_eq!(
        Command::GetGenerateRootAttempt.request(&client),
        Some(client.get_generate_root_attempt())
    );
    let share = PostUnsealRequest { key: Some("k".to_string()), reset: false, migrate: false };
    assert_eq!(
        Command::SubmitUnsealKey(share.clone()).request(&client),
        Some(client.submit_unseal_key(&share))
    );
}

#[test]
fn revocation_authenticates_with_the_token_it_revokes() {
    let mut client = client();
    client.set_token("s.current".to_string());
    assert_eq!(
        Command::RevokeSelf("s.outgoing".to_string()).request(&client),
        Some(Ok(request(
            Method::Post,
            "http://127.0.0.1:8200/v1/auth/token/revoke-self",
            Some("s.outgoing"),
            Body::Empty,
        )))
    );
}

#[test]
fn persistence_commands_are_no_requests() {
    assert_eq!(Command::LoadInit.request(&client()), None);
    assert_eq!(Command::SaveInit(PostInitResponse::default()).request(&client()), None);
}

#[test]
fn duplicates_have_the_same_content() {
    assert_eq!(init_request().duplicate(), init_request());
    assert_eq!(PostInitRequest::default().duplicate(), PostInitRequest::default());
    let data = PostInitResponse {
        keys: vec!["a".to_string(), "b".to_string()],
        keys_base64: vec!["YQ==".to_string(), "Yg==".to_string()],
        root_token: "r".to_string(),
    };
    assert_eq!(data.duplicate(), data);
}

#[test]
fn short_names_are_the_same_types() {
    let request: StartInitRequest = init_request();
    assert_eq!(request, init_request());
    let response: StartInitResponse = PostInitResponse::default();
    assert_eq!(response.keys.len(), 0);
    let share: UnsealRequest = PostUnsealRequest::default();
    assert_eq!(share.key, None);
    let revoke = PostRevokeRequest { token: "t".to_string() };
    assert_eq!(revoke.token, "t");
}

#[test]
fn errands_say_how_a_command_is_carried_out() {
    let method = SaveMethod { file: Some(File::default()), kube_secret: None };
    let data = PostInitResponse { root_token: "r".to_string(), ..PostInitResponse::default() };
    assert_eq!(
        Command::GetSealStatus.errand(&client(), &method),
        Errand::Call(request(
            Method::Get,
            "http://127.0.0.1:8200/v1/sys/seal-status",
            None,
            Body::Empty,
        ))
    );
    assert_eq!(
        Command::GetSealStatus.errand(&VaultClient::new("nowhere".to_string()), &method),
        Errand::Refused(ClientError::InvalidEndpoint)
    );
    assert_eq!(
        Command::SaveInit(data.clone()).errand(&client(), &method),
        Errand::Save(
            data,
            SaveStep::Next(
                StoreCommand::ProbeFile { path: "vault-init.json".to_string() },
                SaveStage::Lookup(Backend::File),
            ),
        )
    );
    assert_eq!(
        Command::LoadInit.errand(&client(), &method),
        Errand::Load(LoadStep::Next(
            StoreCommand::ReadFile { path: "vault-init.json".to_string() },
            LoadStage::Fetch(Backend::File),
        ))
    );
}

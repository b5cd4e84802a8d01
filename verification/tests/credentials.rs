use talpa::client::CfClient;
use talpa::credentials::{CredentialError, CredentialKey, Credentials};

fn ok(secret: &str) -> Result<String, String> {
    Ok(secret.to_string())
}

fn missing(reason: &str) -> Result<String, String> {
    Err(reason.to_string())
}

fn not_found(key: CredentialKey, reason: &str) -> Result<Credentials, CredentialError> {
    Err(CredentialError::NotFound { key, reason: reason.to_string() })
}

#[test]
fn from_keychain_with_all_four() {
    let creds = Credentials::from_keychain(ok("acc"), ok("zone"), ok("tun"), ok("tok"));
    assert_eq!(
        creds,
        Ok(Credentials {
            account_id: "acc".to_string(),
            zone_id: "zone".to_string(),
            tunnel_id: "tun".to_string(),
            api_token: "tok".to_string(),
        })
    );
}

#[test]
fn from_keychain_names_the_first_missing_key() {
    assert_eq!(
        Credentials::from_keychain(missing("r1"), missing("r2"), missing("r3"), missing("r4")),
        not_found(CredentialKey::AccountId, "r1")
    );
    assert_eq!(
        Credentials::from_keychain(ok("a"), missing("r2"), ok("t"), missing("r4")),
        not_found(CredentialKey::ZoneId, "r2")
    );
    assert_eq!(
        Credentials::from_keychain(ok("a"), ok("z"), missing("r3"), missing("r4")),
        not_found(CredentialKey::TunnelId, "r3")
    );
    assert_eq!(
        Credentials::from_keychain(ok("a"), ok("z"), ok("t"), missing("r4")),
        not_found(CredentialKey::ApiToken, "r4")
    );
}

#[test]
fn from_keychain_takes_secrets_as_they_are() {
    let creds = Credentials::from_keychain(ok(""), ok(" z "), ok("t\n"), ok("k")).unwrap();
    assert_eq!(creds.account_id, "");
    assert_eq!(creds.zone_id, " z ");
    assert_eq!(creds.tunnel_id, "t\n");
    assert_eq!(creds.api_token, "k");
}

#[test]
fn key_names() {
    assert_eq!(CredentialKey::AccountId.name(), "account_id");
    assert_eq!(CredentialKey::ZoneId.name(), "zone_id");
    assert_eq!(CredentialKey::TunnelId.name(), "tunnel_id");
    assert_eq!(CredentialKey::ApiToken.name(), "api_token");
}

#[test]
fn empty_secret_is_refused() {
    assert_eq!(CredentialKey::ZoneId.check("z"), Ok(()));
    assert_eq!(CredentialKey::ZoneId.check(" "), Ok(()));
    assert_eq!(
        CredentialKey::ZoneId.check(""),
        Err(CredentialError::Empty { key: CredentialKey::ZoneId })
    );
    assert_eq!(
        CredentialKey::ApiToken.check(""),
        Err(CredentialError::Empty { key: CredentialKey::ApiToken })
    );
}

#[test]
fn session_holds_the_credentials() {
    let creds = Credentials::from_keychain(ok("acc"), ok("zone"), ok("tun"), ok("tok")).unwrap();
    let client = CfClient::new(&creds);
    assert_eq!(client.account_id, "acc");
    assert_eq!(client.zone_id, "zone");
    assert_eq!(client.tunnel_id, "tun");
    assert_eq!(client.api_token, "tok");
}

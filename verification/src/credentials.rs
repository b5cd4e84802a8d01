//! The four secrets a session needs, and the names they are stored under.

use vstd::prelude::*;

verus! {

/// The logical name of one secret.
#[derive(Debug, Clone, Copy, PartialEq, Eq, Structural)]
pub enum CredentialKey {
    AccountId,
    ZoneId,
    TunnelId,
    ApiToken,
}

impl CredentialKey {
    /// The name under which the credential provider keeps this secret.
    pub open spec fn name_chars(self) -> Seq<char> {
        match self {
            CredentialKey::AccountId => "account_id"@,
            CredentialKey::ZoneId => "zone_id"@,
            CredentialKey::TunnelId => "tunnel_id"@,
            CredentialKey::ApiToken => "api_token"@,
        }
    }

    /// The name under which the credential provider keeps this secret.
    pub fn name(self) -> (name: &'static str)
        ensures
            name@ == self.name_chars(),
    {
        match self {
            CredentialKey::AccountId => "account_id",
            CredentialKey::ZoneId => "zone_id",
            CredentialKey::TunnelId => "tunnel_id",
            CredentialKey::ApiToken => "api_token",
        }
    }

    /// Accepts a value entered for this secret unless it is empty.
    pub fn check(self, value: &str) -> (r: Result<(), CredentialError>)
        ensures
            value@.len() > 0 ==> r is Ok,
            value@.len() == 0 ==> r == Err::<(), CredentialError>(
                CredentialError::Empty { key: self },
            ),
    {
        if value.is_empty() {
            Err(CredentialError::Empty { key: self })
        } else {
            Ok(())
        }
    }
}

/// Why no credentials could be had.
#[derive(Debug, Clone, PartialEq, Eq)]
pub enum CredentialError {
    /// The provider has no secret under this key; `reason` is what it said.
    NotFound { key: CredentialKey, reason: String },
    /// The value entered for this key is empty.
    Empty { key: CredentialKey },
}

/// The four secrets of one session. They are opaque to the library.
#[derive(Debug, Clone, PartialEq, Eq)]
pub struct Credentials {
    pub account_id: String,
    pub zone_id: String,
    pub tunnel_id: String,
    pub api_token: String,
}

impl Credentials {
    /// Assembles the credentials from what the provider answered for each of
    /// the four keys.
    ///
    /// Succeeds exactly when all four lookups did. Otherwise the error names
    /// the first key, in the order account, zone, tunnel, token, whose lookup
    /// failed, with the provider's reason.
    pub fn from_keychain(
        account_id: Result<String, String>,
        zone_id: Result<String, String>,
        tunnel_id: Result<String, String>,
        api_token: Result<String, String>,
    ) -> (r: Result<Credentials, CredentialError>)
        ensures
            r == Self::assembled(account_id, zone_id, tunnel_id, api_token),
    {
        let account_id = match account_id {
            Ok(secret) => secret,
            Err(reason) => {
                return Err(CredentialError::NotFound { key: CredentialKey::AccountId, reason });
            },
        };
        let zone_id = match zone_id {
            Ok(secret) => secret,
            Err(reason) => {
                return Err(CredentialError::NotFound { key: CredentialKey::ZoneId, reason });
            },
        };
        let tunnel_id = match tunnel_id {
            Ok(secret) => secret,
            Err(reason) => {
                return Err(CredentialError::NotFound { key: CredentialKey::TunnelId, reason });
            },
        };
        let api_token = match api_token {
            Ok(secret) => secret,
            Err(reason) => {
                return Err(CredentialError::NotFound { key: CredentialKey::ApiToken, reason });
            },
        };
        Ok(Credentials { account_id, zone_id, tunnel_id, api_token })
    }

    /// The credentials, or the first lookup that failed.
    pub open spec fn assembled(
        account_id: Result<String, String>,
        zone_id: Result<String, String>,
        tunnel_id: Result<String, String>,
        api_token: Result<String, String>,
    ) -> Result<Credentials, CredentialError> {
        match (account_id, zone_id, tunnel_id, api_token) {
            (Err(reason), _, _, _) => Err(
                CredentialError::NotFound { key: CredentialKey::AccountId, reason },
            ),
            (Ok(_), Err(reason), _, _) => Err(
                CredentialError::NotFound { key: CredentialKey::ZoneId, reason },
            ),
            (Ok(_), Ok(_), Err(reason), _) => Err(
                CredentialError::NotFound { key: CredentialKey::TunnelId, reason },
            ),
            (Ok(_), Ok(_), Ok(_), Err(reason)) => Err(
                CredentialError::NotFound { key: CredentialKey::ApiToken, reason },
            ),
            (Ok(account_id), Ok(zone_id), Ok(tunnel_id), Ok(api_token)) => Ok(
                Credentials { account_id, zone_id, tunnel_id, api_token },
            ),
        }
    }
}

} // verus!

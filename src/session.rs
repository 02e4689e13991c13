use vstd::prelude::*;

use crate::error::{AppError, Credential, ErrorKind};
use snmp2::v3::AuthProtocol as HashAlgorithm;

verus! {

/// Management protocol versions.
#[derive(Clone, Copy, Debug, PartialEq, Eq, Structural)]
pub enum SnmpVersion {
    V1,
    V2c,
    V3,
}

impl Default for SnmpVersion {
    fn default() -> (r: Self)
        ensures
            r == SnmpVersion::V2c,
    {
        SnmpVersion::V2c
    }
}

impl SnmpVersion {
    /// The short name of the version.
    pub fn name(&self) -> (r: &'static str)
        ensures
            r@ == match self {
                SnmpVersion::V1 => "v1"@,
                SnmpVersion::V2c => "v2c"@,
                SnmpVersion::V3 => "v3"@,
            },
    {
        match self {
            SnmpVersion::V1 => "v1",
            SnmpVersion::V2c => "v2c",
            SnmpVersion::V3 => "v3",
        }
    }
}

/// The authentication and privacy a version-3 session asks for.
#[derive(Clone, Copy, Debug, PartialEq, Eq, Structural)]
pub enum SecurityLevel {
    NoAuthNoPriv,
    AuthNoPriv,
    AuthPriv,
}

impl Default for SecurityLevel {
    fn default() -> (r: Self)
        ensures
            r == SecurityLevel::AuthNoPriv,
    {
        SecurityLevel::AuthNoPriv
    }
}

/// Hashing algorithms for version-3 authentication.
#[derive(Clone, Copy, Debug, PartialEq, Eq, Structural)]
pub enum AuthProtocol {
    Md5,
    Sha1,
    Sha224,
    Sha256,
    Sha384,
    Sha512,
}

impl Default for AuthProtocol {
    fn default() -> (r: Self)
        ensures
            r == AuthProtocol::Sha1,
    {
        AuthProtocol::Sha1
    }
}

/// Encryption algorithms for version-3 privacy.
#[derive(Clone, Copy, Debug, PartialEq, Eq, Structural)]
pub enum PrivacyProtocol {
    Des,
    Aes128,
    Aes192,
    Aes256,
}

impl Default for PrivacyProtocol {
    fn default() -> (r: Self)
        ensures
            r == PrivacyProtocol::Aes128,
    {
        PrivacyProtocol::Aes128
    }
}

/// Encryption algorithms for version-3 privacy, under their cipher names.
#[derive(Clone, Copy, Debug, PartialEq, Eq, Structural)]
pub enum AuthCipher {
    Des,
    Aes128,
    Aes192,
    Aes256,
}

impl Default for AuthCipher {
    fn default() -> (r: Self)
        ensures
            r == AuthCipher::Aes128,
    {
        AuthCipher::Aes128
    }
}

/// Connection parameters of one poll, resolved by the caller.
#[derive(Clone, Debug)]
pub struct SnmpClientParams {
    pub ip: [u8; 4],
    pub port: u16,
    pub community: String,
    pub version: SnmpVersion,
    pub timeout: u64,
    pub retries: u8,
    pub username: Option<String>,
    pub auth_password: Option<String>,
    pub auth_protocol: AuthProtocol,
    pub privacy_password: Option<String>,
    pub privacy_protocol: PrivacyProtocol,
    pub security_level: SecurityLevel,
    pub context_name: String,
    pub data_dir: Option<String>,
    pub extra_supplies: bool,
    pub metrics: bool,
}

/// The secrets a version-3 session carries, by security level.
#[derive(Clone, Debug, PartialEq, Eq)]
pub enum V3Secrets {
    NoAuthNoPriv,
    AuthNoPriv { auth_password: String },
    AuthPriv { auth_password: String, privacy_password: String },
}

/// The session a poll opens.
#[derive(Clone, Debug, PartialEq, Eq)]
pub enum SessionKind {
    PlainV1,
    PlainV2c,
    SecureV3 { username: String, secrets: V3Secrets },
}

pub open spec fn missing(e: Result<SessionKind, AppError>, c: Credential) -> bool {
    e is Err && e->Err_0.kind == ErrorKind::MissingCredential(c)
}

/// A secret is given when it is present and not empty.
pub open spec fn given(secret: Option<String>) -> bool {
    secret is Some && secret->Some_0@.len() > 0
}

/// The session kind the parameters call for, or the credential they lack.
/// An empty username or secret counts as missing.
pub open spec fn session_spec_ok(p: SnmpClientParams, r: Result<SessionKind, AppError>) -> bool {
    match p.version {
        SnmpVersion::V1 => r == Ok::<SessionKind, AppError>(SessionKind::PlainV1),
        SnmpVersion::V2c => r == Ok::<SessionKind, AppError>(SessionKind::PlainV2c),
        SnmpVersion::V3 => {
            if !given(p.username) {
                missing(r, Credential::Username)
            } else {
                match p.security_level {
                    SecurityLevel::NoAuthNoPriv => r == Ok::<SessionKind, AppError>(
                        SessionKind::SecureV3 {
                            username: p.username->Some_0,
                            secrets: V3Secrets::NoAuthNoPriv,
                        },
                    ),
                    SecurityLevel::AuthNoPriv => if !given(p.auth_password) {
                        missing(r, Credential::AuthPassword)
                    } else {
                        r == Ok::<SessionKind, AppError>(
                            SessionKind::SecureV3 {
                                username: p.username->Some_0,
                                secrets: V3Secrets::AuthNoPriv {
                                    auth_password: p.auth_password->Some_0,
                                },
                            },
                        )
                    },
                    SecurityLevel::AuthPriv => if !given(p.auth_password) {
                        missing(r, Credential::AuthPassword)
                    } else if !given(p.privacy_password) {
                        missing(r, Credential::PrivacyPassword)
                    } else {
                        r == Ok::<SessionKind, AppError>(
                            SessionKind::SecureV3 {
                                username: p.username->Some_0,
                                secrets: V3Secrets::AuthPriv {
                                    auth_password: p.auth_password->Some_0,
                                    privacy_password: p.privacy_password->Some_0,
                                },
                            },
                        )
                    },
                }
            }
        },
    }
}

/// The secret, when it is present and not empty.
fn given_secret(secret: &Option<String>) -> (r: Option<String>)
    ensures
        r is Some <==> given(*secret),
        r is Some ==> r->Some_0 == secret->Some_0,
{
    match secret {
        Some(s) => {
            if s.as_str().is_empty() {
                None
            } else {
                Some(s.clone())
            }
        },
        None => None,
    }
}

/// Decides which session the parameters open: plain for versions 1 and
/// 2c; for version 3 a non-empty username is required, and the non-empty
/// secrets that the security level needs.
pub fn plan_session(params: &SnmpClientParams) -> (r: Result<SessionKind, AppError>)
    ensures
        session_spec_ok(*params, r),
{
    match params.version {
        SnmpVersion::V1 => Ok(SessionKind::PlainV1),
        SnmpVersion::V2c => Ok(SessionKind::PlainV2c),
        SnmpVersion::V3 => {
            let username = match given_secret(&params.username) {
                Some(u) => u,
                None => {
                    return Err(AppError::new(ErrorKind::MissingCredential(Credential::Username)));
                },
            };
            let secrets = match params.security_level {
                SecurityLevel::NoAuthNoPriv => V3Secrets::NoAuthNoPriv,
                SecurityLevel::AuthNoPriv => match given_secret(&params.auth_password) {
                    Some(a) => V3Secrets::AuthNoPriv { auth_password: a },
                    None => {
                        return Err(
                            AppError::new(ErrorKind::MissingCredential(Credential::AuthPassword)),
                        );
                    },
                },
                SecurityLevel::AuthPriv => match given_secret(&params.auth_password) {
                    None => {
                        return Err(
                            AppError::new(ErrorKind::MissingCredential(Credential::AuthPassword)),
                        );
                    },
                    Some(a) => match given_secret(&params.privacy_password) {
                        None => {
                            return Err(
                                AppError::new(ErrorKind::MissingCredential(Credential::PrivacyPassword)),
                            );
                        },
                        Some(x) => V3Secrets::AuthPriv { auth_password: a, privacy_password: x },
                    },
                },
            };
            Ok(SessionKind::SecureV3 { username, secrets })
        },
    }
}

#[verifier::external_type_specification]
#[verifier::external_body]
pub struct ExSecurity(snmp2::v3::Security);

#[verifier::external_type_specification]
pub struct ExCipher(snmp2::v3::Cipher);

#[verifier::external_type_specification]
pub struct ExHashAlgorithm(HashAlgorithm);

/// The secrets hold no empty password.
pub open spec fn secrets_given(secrets: V3Secrets) -> bool {
    match secrets {
        V3Secrets::NoAuthNoPriv => true,
        V3Secrets::AuthNoPriv { auth_password } => auth_password@.len() > 0,
        V3Secrets::AuthPriv { auth_password, privacy_password } => auth_password@.len() > 0
            && privacy_password@.len() > 0,
    }
}

/// The hash yields too short a key for the cipher, so the privacy key would
/// need an extension method (snmp2's `Cipher::priv_key_needs_extension`).
pub open spec fn needs_extension(hash: HashAlgorithm, cipher: snmp2::v3::Cipher) -> bool {
    match (hash, cipher) {
        (HashAlgorithm::Md5, snmp2::v3::Cipher::Aes192) => true,
        (HashAlgorithm::Md5, snmp2::v3::Cipher::Aes256) => true,
        (HashAlgorithm::Sha1, snmp2::v3::Cipher::Aes192) => true,
        (HashAlgorithm::Sha1, snmp2::v3::Cipher::Aes256) => true,
        (HashAlgorithm::Sha224, snmp2::v3::Cipher::Aes256) => true,
        _ => false,
    }
}

/// Relies on snmp2's `v3::Security` builder (`new`, `with_auth_protocol`,
/// `with_context_name`, `with_auth`, then `with_engine_id`) with its
/// `crypto-rust` backend. Without authentication no key is derived and the
/// context is always built. With authentication the keys are derived from
/// the passwords, which must not be empty (the derivation indexes them); it
/// fails when the engine identifier is empty, and, with privacy, when the
/// hash needs a key extension for the cipher, since none is set. The error
/// is turned into its message.
#[verifier::external_body]
fn keyed_security(
    username: &str,
    secrets: &V3Secrets,
    hash: HashAlgorithm,
    cipher: snmp2::v3::Cipher,
    context_name: &str,
    engine_id: &[u8],
) -> (r: Result<snmp2::v3::Security, String>)
    requires
        secrets_given(*secrets),
    ensures
        *secrets is NoAuthNoPriv ==> r is Ok,
        !(*secrets is NoAuthNoPriv) ==> (r is Ok <==> (engine_id@.len() > 0 && !(
        *secrets is AuthPriv && needs_extension(hash, cipher)))),
{
    let (password, auth) = match secrets {
        V3Secrets::NoAuthNoPriv => ("", snmp2::v3::Auth::NoAuthNoPriv),
        V3Secrets::AuthNoPriv { auth_password } => (auth_password.as_str(), snmp2::v3::Auth::AuthNoPriv),
        V3Secrets::AuthPriv { auth_password, privacy_password } => (
            auth_password.as_str(),
            snmp2::v3::Auth::AuthPriv { cipher, privacy_password: privacy_password.as_bytes().to_vec() },
        ),
    };
    snmp2::v3::Security::new(username.as_bytes(), password.as_bytes()).with_auth_protocol(hash)
        .with_context_name(context_name).with_auth(auth).with_engine_id(engine_id)
        .map_err(|e| e.to_string())
}

impl PrivacyProtocol {
    pub open spec fn cipher_spec(self) -> snmp2::v3::Cipher {
        match self {
            PrivacyProtocol::Des => snmp2::v3::Cipher::Des,
            PrivacyProtocol::Aes128 => snmp2::v3::Cipher::Aes128,
            PrivacyProtocol::Aes192 => snmp2::v3::Cipher::Aes192,
            PrivacyProtocol::Aes256 => snmp2::v3::Cipher::Aes256,
        }
    }

    /// The cipher of this protocol in the protocol library.
    pub fn cipher(&self) -> (r: snmp2::v3::Cipher)
        ensures
            r == self.cipher_spec(),
            r == match self {
                PrivacyProtocol::Des => snmp2::v3::Cipher::Des,
                PrivacyProtocol::Aes128 => snmp2::v3::Cipher::Aes128,
                PrivacyProtocol::Aes192 => snmp2::v3::Cipher::Aes192,
                PrivacyProtocol::Aes256 => snmp2::v3::Cipher::Aes256,
            },
    {
        match self {
            PrivacyProtocol::Des => snmp2::v3::Cipher::Des,
            PrivacyProtocol::Aes128 => snmp2::v3::Cipher::Aes128,
            PrivacyProtocol::Aes192 => snmp2::v3::Cipher::Aes192,
            PrivacyProtocol::Aes256 => snmp2::v3::Cipher::Aes256,
        }
    }
}

impl AuthCipher {
    /// The cipher of this protocol in the protocol library.
    pub fn cipher(&self) -> (r: snmp2::v3::Cipher)
        ensures
            r == match self {
                AuthCipher::Des => snmp2::v3::Cipher::Des,
                AuthCipher::Aes128 => snmp2::v3::Cipher::Aes128,
                AuthCipher::Aes192 => snmp2::v3::Cipher::Aes192,
                AuthCipher::Aes256 => snmp2::v3::Cipher::Aes256,
            },
    {
        match self {
            AuthCipher::Des => snmp2::v3::Cipher::Des,
            AuthCipher::Aes128 => snmp2::v3::Cipher::Aes128,
            AuthCipher::Aes192 => snmp2::v3::Cipher::Aes192,
            AuthCipher::Aes256 => snmp2::v3::Cipher::Aes256,
        }
    }
}

impl AuthProtocol {
    pub open spec fn digest_spec(self) -> HashAlgorithm {
        match self {
            AuthProtocol::Md5 => HashAlgorithm::Md5,
            AuthProtocol::Sha1 => HashAlgorithm::Sha1,
            AuthProtocol::Sha224 => HashAlgorithm::Sha224,
            AuthProtocol::Sha256 => HashAlgorithm::Sha256,
            AuthProtocol::Sha384 => HashAlgorithm::Sha384,
            AuthProtocol::Sha512 => HashAlgorithm::Sha512,
        }
    }

    /// The hash of this protocol in the protocol library.
    pub fn digest(&self) -> (r: HashAlgorithm)
        ensures
            r == self.digest_spec(),
            r == match self {
                AuthProtocol::Md5 => HashAlgorithm::Md5,
                AuthProtocol::Sha1 => HashAlgorithm::Sha1,
                AuthProtocol::Sha224 => HashAlgorithm::Sha224,
                AuthProtocol::Sha256 => HashAlgorithm::Sha256,
                AuthProtocol::Sha384 => HashAlgorithm::Sha384,
                AuthProtocol::Sha512 => HashAlgorithm::Sha512,
            },
    {
        match self {
            AuthProtocol::Md5 => HashAlgorithm::Md5,
            AuthProtocol::Sha1 => HashAlgorithm::Sha1,
            AuthProtocol::Sha224 => HashAlgorithm::Sha224,
            AuthProtocol::Sha256 => HashAlgorithm::Sha256,
            AuthProtocol::Sha384 => HashAlgorithm::Sha384,
            AuthProtocol::Sha512 => HashAlgorithm::Sha512,
        }
    }
}

/// The privacy setting calls for a cipher that the hash keys too short.
pub open spec fn lacks_key_extension(params: SnmpClientParams, secrets: V3Secrets) -> bool {
    secrets is AuthPriv && needs_extension(
        params.auth_protocol.digest_spec(),
        params.privacy_protocol.cipher_spec(),
    )
}

/// The security context of a version-3 session: the user and secrets of
/// the plan, the chosen algorithms and context name, keyed to the engine
/// identifier found by discovery.
///
/// An empty password fails with `MissingCredential`. Without
/// authentication the context is always built; with it, building succeeds
/// exactly when the engine identifier is not empty and the hash does not
/// need a key extension for the cipher, and fails with a request error
/// otherwise.
pub fn build_security(
    username: &String,
    secrets: &V3Secrets,
    params: &SnmpClientParams,
    engine_id: &[u8],
) -> (r: Result<snmp2::v3::Security, AppError>)
    ensures
        !secrets_given(*secrets) ==> (r is Err && r->Err_0.kind is MissingCredential),
        secrets_given(*secrets) && *secrets is NoAuthNoPriv ==> r is Ok,
        secrets_given(*secrets) && !(*secrets is NoAuthNoPriv) ==> (r is Ok <==> (engine_id@.len()
            > 0 && !lacks_key_extension(*params, *secrets))),
        secrets_given(*secrets) ==> (r is Err ==> r->Err_0.kind is SnmpRequest),
{
    match secrets {
        V3Secrets::NoAuthNoPriv => {},
        V3Secrets::AuthNoPriv { auth_password } => {
            if auth_password.as_str().is_empty() {
                return Err(AppError::new(ErrorKind::MissingCredential(Credential::AuthPassword)));
            }
        },
        V3Secrets::AuthPriv { auth_password, privacy_password } => {
            if auth_password.as_str().is_empty() {
                return Err(AppError::new(ErrorKind::MissingCredential(Credential::AuthPassword)));
            }
            if privacy_password.as_str().is_empty() {
                return Err(
                    AppError::new(ErrorKind::MissingCredential(Credential::PrivacyPassword)),
                );
            }
        },
    }
    match keyed_security(
        username.as_str(),
        secrets,
        params.auth_protocol.digest(),
        params.privacy_protocol.cipher(),
        params.context_name.as_str(),
        engine_id,
    ) {
        Ok(s) => Ok(s),
        Err(msg) => Err(AppError::new(ErrorKind::SnmpRequest(msg))),
    }
}

} // verus!

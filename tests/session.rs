use inkcheck::error::{Credential, ErrorKind};
use inkcheck::session::{
    build_security, plan_session, AuthProtocol, PrivacyProtocol, SecurityLevel, SessionKind,
    SnmpClientParams, SnmpVersion, V3Secrets,
};

fn params(version: SnmpVersion, level: SecurityLevel) -> SnmpClientParams {
    SnmpClientParams {
        ip: [192, 168, 0, 10],
        port: 161,
        community: String::from("public"),
        version,
        timeout: 5,
        retries: 1,
        username: Some(String::from("monitor")),
        auth_password: Some(String::from("authsecret1")),
        auth_protocol: AuthProtocol::Sha1,
        privacy_password: Some(String::from("privsecret1")),
        privacy_protocol: PrivacyProtocol::Aes128,
        security_level: level,
        context_name: String::new(),
        data_dir: None,
        extra_supplies: false,
        metrics: false,
    }
}

#[test]
fn plain_versions_need_no_credentials() {
    let mut p = params(SnmpVersion::V1, SecurityLevel::AuthPriv);
    p.username = None;
    assert_eq!(plan_session(&p).unwrap(), SessionKind::PlainV1);
    p.version = SnmpVersion::V2c;
    assert_eq!(plan_session(&p).unwrap(), SessionKind::PlainV2c);
}

#[test]
fn secure_sessions_need_their_credentials() {
    let mut p = params(SnmpVersion::V3, SecurityLevel::AuthPriv);
    assert_eq!(
        plan_session(&p).unwrap(),
        SessionKind::SecureV3 {
            username: String::from("monitor"),
            secrets: V3Secrets::AuthPriv {
                auth_password: String::from("authsecret1"),
                privacy_password: String::from("privsecret1"),
            },
        }
    );
    p.privacy_password = None;
    assert_eq!(
        plan_session(&p).unwrap_err().kind,
        ErrorKind::MissingCredential(Credential::PrivacyPassword)
    );
    p.auth_password = None;
    assert_eq!(
        plan_session(&p).unwrap_err().kind,
        ErrorKind::MissingCredential(Credential::AuthPassword)
    );
    p.security_level = SecurityLevel::AuthNoPriv;
    assert_eq!(
        plan_session(&p).unwrap_err().kind,
        ErrorKind::MissingCredential(Credential::AuthPassword)
    );
    p.security_level = SecurityLevel::NoAuthNoPriv;
    assert!(plan_session(&p).is_ok());
    p.username = Some(String::new());
    assert_eq!(
        plan_session(&p).unwrap_err().kind,
        ErrorKind::MissingCredential(Credential::Username)
    );
    p.username = None;
    assert_eq!(
        plan_session(&p).unwrap_err().kind,
        ErrorKind::MissingCredential(Credential::Username)
    );
}

#[test]
fn security_context_is_keyed_to_the_engine() {
    let p = params(SnmpVersion::V3, SecurityLevel::AuthPriv);
    let engine = [0x80, 0x00, 0x1f, 0x88, 0x80, 0x59];
    if let SessionKind::SecureV3 { username, secrets } = plan_session(&p).unwrap() {
        let s = build_security(&username, &secrets, &p, &engine).unwrap();
        assert_eq!(s.engine_id(), &engine);
        assert_eq!(s.username(), b"monitor");
    } else {
        panic!("expected a secure session");
    }
}

#[test]
fn security_context_refuses_a_short_key_combination() {
    let mut p = params(SnmpVersion::V3, SecurityLevel::AuthPriv);
    p.auth_protocol = AuthProtocol::Md5;
    p.privacy_protocol = PrivacyProtocol::Aes256;
    let engine = [0x80, 0x00, 0x1f, 0x88, 0x80, 0x59];
    if let SessionKind::SecureV3 { username, secrets } = plan_session(&p).unwrap() {
        let e = build_security(&username, &secrets, &p, &engine).unwrap_err();
        assert!(matches!(e.kind, ErrorKind::SnmpRequest(_)));
    } else {
        panic!("expected a secure session");
    }
}

#[test]
fn protocol_defaults() {
    assert_eq!(SnmpVersion::default(), SnmpVersion::V2c);
    assert_eq!(SecurityLevel::default(), SecurityLevel::AuthNoPriv);
    assert_eq!(AuthProtocol::default(), AuthProtocol::Sha1);
    assert_eq!(PrivacyProtocol::default(), PrivacyProtocol::Aes128);
    assert_eq!(SnmpVersion::V2c.name(), "v2c");
}

#[test]
fn empty_secrets_count_as_missing() {
    let mut p = params(SnmpVersion::V3, SecurityLevel::AuthPriv);
    p.privacy_password = Some(String::new());
    assert_eq!(
        plan_session(&p).unwrap_err().kind,
        ErrorKind::MissingCredential(Credential::PrivacyPassword)
    );
    p.auth_password = Some(String::new());
    assert_eq!(
        plan_session(&p).unwrap_err().kind,
        ErrorKind::MissingCredential(Credential::AuthPassword)
    );
    p.security_level = SecurityLevel::AuthNoPriv;
    assert_eq!(
        plan_session(&p).unwrap_err().kind,
        ErrorKind::MissingCredential(Credential::AuthPassword)
    );
    let engine = [0x80, 0x00, 0x1f, 0x88, 0x80];
    let secrets = V3Secrets::AuthNoPriv { auth_password: String::new() };
    let e = build_security(&String::from("monitor"), &secrets, &p, &engine).unwrap_err();
    assert_eq!(e.kind, ErrorKind::MissingCredential(Credential::AuthPassword));
}

#[test]
fn security_context_success_follows_the_engine_and_ciphers() {
    let p = params(SnmpVersion::V3, SecurityLevel::NoAuthNoPriv);
    let user = String::from("monitor");
    assert!(build_security(&user, &V3Secrets::NoAuthNoPriv, &p, &[]).is_ok());
    let keyed = V3Secrets::AuthNoPriv { auth_password: String::from("authsecret1") };
    let e = build_security(&user, &keyed, &p, &[]).unwrap_err();
    assert!(matches!(e.kind, ErrorKind::SnmpRequest(_)));
    assert!(build_security(&user, &keyed, &p, &[0x80, 1, 2, 3, 4]).is_ok());
    let mut q = params(SnmpVersion::V3, SecurityLevel::AuthPriv);
    q.auth_protocol = AuthProtocol::Sha224;
    q.privacy_protocol = PrivacyProtocol::Aes256;
    let private = V3Secrets::AuthPriv {
        auth_password: String::from("authsecret1"),
        privacy_password: String::from("privsecret1"),
    };
    assert!(build_security(&user, &private, &q, &[0x80, 1, 2, 3, 4]).is_err());
    q.privacy_protocol = PrivacyProtocol::Aes192;
    assert!(build_security(&user, &private, &q, &[0x80, 1, 2, 3, 4]).is_ok());
}

use base64::engine::general_purpose;
use base64::Engine;
use ed25519_dalek::{Keypair, PublicKey, SecretKey, Signer};
use keygen_sh::certificate::{check_scheme, Certificate};
use keygen_sh::component::Component;
use keygen_sh::config::KeygenConfig;
use keygen_sh::date::{is_expired, Date};
use keygen_sh::entitlement::Entitlement;
use keygen_sh::errors::ErrorKind;
use keygen_sh::license::{payload_text, verify, License, SchemeCode};
use keygen_sh::machine::Machine;

fn keypair() -> Keypair {
    let secret = SecretKey::from_bytes(&[9u8; 32]).unwrap();
    let public: PublicKey = (&secret).into();
    Keypair { secret, public }
}

fn configure() {
    let config = keygen_rs::config::KeygenConfig {
        public_key: Some(hex::encode(keypair().public.to_bytes())),
        ..Default::default()
    };
    keygen_rs::config::set_config(config);
}

fn signed_key(payload: &str) -> String {
    let enc = general_purpose::URL_SAFE.encode(payload);
    let sig = keypair().sign(format!("key/{}", enc).as_bytes());
    format!("key/{}.{}", enc, general_purpose::URL_SAFE.encode(sig.to_bytes()))
}

fn license(scheme: Option<SchemeCode>, key: &str) -> License {
    License::new(
        "lic-1".to_string(),
        key.to_string(),
        Some("Pro".to_string()),
        Some(Date::new(1735689600, 250)),
        Some("ACTIVE".to_string()),
        None,
        scheme,
    )
}

#[test]
fn license_accessors() {
    let l = license(Some(SchemeCode::Ed25519Sign), "KEY");
    assert_eq!(l.id(), "lic-1");
    assert_eq!(l.key(), "KEY");
    assert_eq!(l.name(), Some("Pro".to_string()));
    assert_eq!(l.expiry(), Some(Date::new(1735689600, 250)));
    assert_eq!(l.status(), Some("ACTIVE".to_string()));
    assert_eq!(l.policy(), None);
    assert_eq!(l.scheme(), Some(SchemeCode::Ed25519Sign));
    assert_eq!(l.copy().key(), "KEY");
}

#[test]
fn license_without_scheme_is_not_signed() {
    let err = license(None, "KEY").verify().unwrap_err();
    assert_eq!(err.kind, ErrorKind::LicenseNotSigned);
    assert_eq!(err.message(), "{\"details\":\"License not signed\",\"type\":\"LicenseNotSigned\"}");
}

#[test]
fn signed_key_verifies_to_its_payload() {
    configure();
    let key = signed_key("{\"account\":\"acme\"}");
    assert_eq!(verify(SchemeCode::Ed25519Sign, &key).unwrap(), "{\"account\":\"acme\"}");
    let l = license(Some(SchemeCode::Ed25519Sign), &key);
    assert_eq!(l.verify().unwrap(), b"{\"account\":\"acme\"}".to_vec());
}

#[test]
fn forged_or_empty_key_is_refused() {
    configure();
    let mut key = signed_key("payload");
    key.push('A');
    assert_eq!(verify(SchemeCode::Ed25519Sign, &key).unwrap_err().kind, ErrorKind::LicenseKeyNotGenuine);
    assert_eq!(verify(SchemeCode::Ed25519Sign, "not-a-key").unwrap_err().kind, ErrorKind::LicenseKeyNotGenuine);
    assert_eq!(verify(SchemeCode::Ed25519Sign, "").unwrap_err().kind, ErrorKind::LicenseKeyMissing);
    assert!(license(Some(SchemeCode::Ed25519Sign), "").verify().is_err());
}

#[test]
fn payload_text_replaces_invalid_bytes() {
    assert_eq!(payload_text(Ok(vec![0x61, 0xff, 0x62])).unwrap(), "a\u{fffd}b");
    assert_eq!(payload_text(Ok(vec![])).unwrap(), "");
}

#[test]
fn machine_accessors() {
    let m = Machine::new(
        "m-1".to_string(),
        "host-1".to_string(),
        None,
        Some("linux".to_string()),
        Some("box".to_string()),
        Some(4),
        true,
        "ALIVE".to_string(),
        Some(600),
        Date::new(10, 0),
        Date::new(20, 5),
    );
    assert_eq!(m.fingerprint(), "host-1");
    assert_eq!(m.name(), None);
    assert_eq!(m.cores(), Some(4));
    assert!(m.require_heartbeat());
    assert_eq!(m.heartbeat_status(), "ALIVE");
    assert_eq!(m.heartbeat_duration(), Some(600));
    assert_eq!(m.updated(), Date::new(20, 5));
}

#[test]
fn component_object_names_the_component() {
    let c = Component::new("c-1".to_string(), "gpu-0".to_string(), "GPU".to_string());
    assert_eq!(c.fingerprint(), "gpu-0");
    let object = c.create_object();
    assert_eq!(object["data"]["id"], "c-1");
    assert_eq!(object["data"]["type"], "components");
    assert_eq!(object["data"]["attributes"]["fingerprint"], "gpu-0");
}

#[test]
fn entitlement_accessors() {
    let e = Entitlement::build("e-1".to_string(), None, "FEATURE_X".to_string(), Date::new(1, 0), Date::new(2, 0));
    assert_eq!(e.code(), "FEATURE_X");
    assert_eq!(e.name(), None);
    assert_eq!(e.created(), Date::new(1, 0));
}

#[test]
fn config_defaults_package_to_empty() {
    let c = KeygenConfig::new(
        "https://api.keygen.sh".to_string(),
        "1.7".to_string(),
        "v1".to_string(),
        "acct".to_string(),
        "prod".to_string(),
        None,
        None,
        Some("KEY".to_string()),
        None,
        Some("abcd".to_string()),
        None,
        None,
        Some(5),
    );
    assert_eq!(c.package(), "");
    assert_eq!(c.account(), "acct");
    assert_eq!(c.max_clock_drift(), Some(5));
    assert_eq!(c.public_key(), Some("abcd".to_string()));
}

#[test]
fn expiry_rule() {
    let issued = Date::new(1000, 0);
    let expiry = Date::new(5000, 0);
    // Past the expiry: expired whatever the time-to-live.
    assert!(is_expired(issued, expiry, 0, Date::new(5000, 1)));
    assert!(is_expired(issued, expiry, -5, Date::new(6000, 0)));
    // Before the expiry, a positive time-to-live ends it on its own.
    assert!(is_expired(issued, expiry, 60, Date::new(1060, 1)));
    assert!(!is_expired(issued, expiry, 60, Date::new(1060, 0)));
    // No time-to-live of its own.
    assert!(!is_expired(issued, expiry, 0, Date::new(4999, 999999)));
    assert!(!is_expired(issued, expiry, 0, Date::new(5000, 0)));
    assert!(Date::new(1, 5).is_before(&Date::new(2, 0)));
    assert!(!Date::new(2, 0).is_before(&Date::new(2, 0)));
}

#[test]
fn scheme_must_match_certificate_algorithm() {
    let cert = |alg: &str| Certificate::build("enc".to_string(), "sig".to_string(), alg.to_string());
    assert!(check_scheme(Some(SchemeCode::Ed25519Sign), &cert("aes-256-gcm+ed25519")).is_ok());
    assert!(check_scheme(Some(SchemeCode::Ed25519Sign), &cert("base64+ed25519")).is_ok());
    let err = check_scheme(Some(SchemeCode::Ed25519Sign), &cert("aes-256-gcm+rsa-sha256")).unwrap_err();
    assert_eq!(err.kind, ErrorKind::CertificateFileNotGenuine);
    assert!(check_scheme(Some(SchemeCode::Ed25519Sign), &cert("ed25519")).is_err());
    assert!(check_scheme(None, &cert("aes-256-gcm+rsa-sha256")).is_ok());
}

#[test]
fn iv_segment_rule() {
    assert!(keygen_sh::certificate::iv_segment_fits("abc.AAAAAAAAAAAAAAAA.tag"));
    assert!(!keygen_sh::certificate::iv_segment_fits("abc.AAAAAAAAAAAAAA==.tag"));
    assert!(!keygen_sh::certificate::iv_segment_fits("abc.AAAAAAAAAAAA.tag"));
    assert!(!keygen_sh::certificate::iv_segment_fits("abc.AAAAAAAAAAAAAAAA"));
    assert!(!keygen_sh::certificate::iv_segment_fits("a.b.c.d"));
}

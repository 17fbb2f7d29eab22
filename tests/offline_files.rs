use aes_gcm::aead::{Aead, NewAead};
use aes_gcm::{Aes256Gcm, Key, Nonce};
use base64::engine::general_purpose;
use base64::Engine;
use ed25519_dalek::{Keypair, PublicKey, SecretKey, Signer};
use keygen_sh::date::Date;
use keygen_sh::errors::ErrorKind;
use keygen_sh::license_file::LicenseFile;
use keygen_sh::machine_file::MachineFile;
use sha2::{Digest, Sha256};

const SECRET: &str = "LICENSE-KEY-1234";

fn keypair() -> Keypair {
    let secret = SecretKey::from_bytes(&[7u8; 32]).unwrap();
    let public: PublicKey = (&secret).into();
    Keypair { secret, public }
}

fn configure() {
    let config = keygen_rs::config::KeygenConfig {
        public_key: Some(hex::encode(keypair().public.to_bytes())),
        ..Default::default()
    };
    keygen_rs::config::set_config(config);
}

fn encrypt(secret: &str, plaintext: &str) -> String {
    let key = Sha256::digest(secret.as_bytes());
    let cipher = Aes256Gcm::new(Key::from_slice(&key));
    let iv = [3u8; 12];
    let sealed = cipher.encrypt(Nonce::from_slice(&iv), plaintext.as_bytes()).unwrap();
    let (ciphertext, tag) = sealed.split_at(sealed.len() - 16);
    format!(
        "{}.{}.{}",
        general_purpose::STANDARD.encode(ciphertext),
        general_purpose::STANDARD.encode(iv),
        general_purpose::STANDARD.encode(tag)
    )
}

fn frame(kind: &str, enc: &str, sig: &str) -> String {
    let cert = format!("{{\"enc\":\"{}\",\"sig\":\"{}\",\"alg\":\"aes-256-gcm+ed25519\"}}", enc, sig);
    let label = kind.to_uppercase();
    format!(
        "-----BEGIN {} FILE-----\n{}\n-----END {} FILE-----\n",
        label,
        general_purpose::STANDARD.encode(cert),
        label
    )
}

fn sign(prefix: &str, enc: &str) -> String {
    let sig = keypair().sign(format!("{}/{}", prefix, enc).as_bytes());
    general_purpose::STANDARD.encode(sig.to_bytes())
}

const LICENSE_DATA: &str = "{\"id\":\"lic-1\",\"type\":\"licenses\",\"attributes\":{\"key\":\"KEY-ABC\",\"name\":\"Pro\",\"expiry\":null,\"status\":\"ACTIVE\",\"metadata\":{}},\"relationships\":{\"policy\":{\"data\":{\"type\":\"policies\",\"id\":\"pol-9\"}}}}";

fn meta(expiry: &str, ttl: i32) -> String {
    format!("{{\"issued\":\"2024-01-01T00:00:00Z\",\"expiry\":\"{}\",\"ttl\":{}}}", expiry, ttl)
}

fn license_certificate(expiry: &str, ttl: i32) -> String {
    let plaintext = format!("{{\"meta\":{},\"data\":{}}}", meta(expiry, ttl), LICENSE_DATA);
    let enc = encrypt(SECRET, &plaintext);
    frame("license", &enc, &sign("license", &enc))
}

fn machine_certificate() -> String {
    let machine = "{\"id\":\"mach-1\",\"type\":\"machines\",\"attributes\":{\"fingerprint\":\"host-1\",\"name\":null,\"platform\":\"linux\",\"hostname\":\"box\",\"cores\":8,\"requireHeartbeat\":false,\"heartbeatStatus\":\"NOT_STARTED\",\"heartbeatDuration\":null,\"created\":\"2024-01-01T00:00:00Z\",\"updated\":\"2024-01-02T00:00:00Z\"},\"relationships\":{}}";
    let plaintext = format!(
        "{{\"meta\":{},\"data\":{},\"included\":[{}]}}",
        meta("2099-01-01T00:00:00Z", 3600),
        machine,
        LICENSE_DATA
    );
    let enc = encrypt(SECRET, &plaintext);
    frame("machine", &enc, &sign("machine", &enc))
}

fn tamper_signature(content: &str, kind: &str) -> String {
    let label = kind.to_uppercase();
    let body = content
        .trim()
        .strip_prefix(&format!("-----BEGIN {} FILE-----", label))
        .unwrap()
        .strip_suffix(&format!("-----END {} FILE-----", label))
        .unwrap()
        .trim()
        .to_string();
    let cert: serde_json::Value =
        serde_json::from_slice(&general_purpose::STANDARD.decode(body).unwrap()).unwrap();
    let enc = cert["enc"].as_str().unwrap().to_string();
    let mut sig = general_purpose::STANDARD.decode(cert["sig"].as_str().unwrap()).unwrap();
    sig[5] ^= 0x01;
    frame(kind, &enc, &general_purpose::STANDARD.encode(sig))
}

#[test]
fn license_file_round_trip() {
    configure();
    let content = license_certificate("2099-01-01T00:00:00Z", 3600);
    let file = LicenseFile::build_from_cert(SECRET.to_string(), content.clone()).unwrap();
    assert_eq!(file.id(), "lic-1");
    assert_eq!(file.certificate(), content);
    assert_eq!(file.ttl(), 3600);
    assert_eq!(file.issued(), Date::new(1704067200, 0));
    assert!(file.verify().is_ok());
    let dataset = file.decrypt(SECRET.to_string()).unwrap();
    let license = dataset.license();
    assert_eq!(license.id(), "lic-1");
    assert_eq!(license.key(), "KEY-ABC");
    assert_eq!(license.name(), Some("Pro".to_string()));
    assert_eq!(license.status(), Some("ACTIVE".to_string()));
    assert_eq!(license.policy(), Some("pol-9".to_string()));
    assert_eq!(license.expiry(), None);
    assert_eq!(license.scheme(), None);
    assert_eq!(dataset.ttl(), 3600);
    assert_eq!(dataset.expiry(), Date::new(4070908800, 0));
}

#[test]
fn license_file_frame_after_verification() {
    configure();
    let content = license_certificate("2099-01-01T00:00:00Z", 3600);
    let file = LicenseFile::build_from_cert(SECRET.to_string(), content).unwrap();
    let cert = file.build_cert().unwrap();
    assert_eq!(cert.alg(), "aes-256-gcm+ed25519");
    assert_eq!(cert.enc().split('.').count(), 3);
    assert!(!cert.sig().is_empty());
}

#[test]
fn tampered_signature_is_not_genuine_and_never_decrypts() {
    configure();
    let content = tamper_signature(&license_certificate("2099-01-01T00:00:00Z", 3600), "license");
    let file = LicenseFile::build_from_cert(SECRET.to_string(), content).unwrap();
    assert_eq!(file.verify().unwrap_err().kind, ErrorKind::LicenseFileNotGenuine);
    assert_eq!(file.decrypt(SECRET.to_string()).unwrap_err().kind, ErrorKind::LicenseFileNotGenuine);
    assert_eq!(file.build_cert().unwrap_err().kind, ErrorKind::LicenseFileNotGenuine);
}

#[test]
fn wrong_key_is_a_decryption_error() {
    configure();
    let content = license_certificate("2099-01-01T00:00:00Z", 3600);
    let file = LicenseFile::build_from_cert(SECRET.to_string(), content).unwrap();
    assert!(file.verify().is_ok());
    let err = file.decrypt("WRONG-KEY".to_string()).unwrap_err();
    assert_eq!(err.kind, ErrorKind::DecryptionError);
    assert_ne!(err.kind, ErrorKind::LicenseFileNotGenuine);
}

#[test]
fn opening_with_wrong_key_fails_as_decryption_error() {
    configure();
    let content = license_certificate("2099-01-01T00:00:00Z", 3600);
    let err = LicenseFile::build_from_cert("WRONG-KEY".to_string(), content).unwrap_err();
    assert_eq!(err.kind, ErrorKind::DecryptionError);
    assert_eq!(err.message(), "{\"details\":\"Decryption failed\",\"type\":\"DecryptionError\"}");
}

#[test]
fn malformed_certificate_is_invalid() {
    configure();
    let err = LicenseFile::build_from_cert(SECRET.to_string(), "not a license file".to_string()).unwrap_err();
    assert_eq!(err.kind, ErrorKind::LicenseFileInvalid);
    assert_eq!(err.message(), "{\"details\":\"Invalid license file format\",\"type\":\"LicenseFileInvalid\"}");
}

#[test]
fn expired_file_is_genuine_but_fails_the_expiry_check() {
    configure();
    // A file whose time-to-live is zero is not refused by decryption.
    let content = license_certificate("2020-01-01T00:00:00Z", 0);
    let file = LicenseFile::build_from_cert(SECRET.to_string(), content).unwrap();
    assert!(file.verify().is_ok());
    assert!(file.decrypt(SECRET.to_string()).is_ok());
    let now = Date::new(1735689600, 0);
    assert!(file.is_expired_at(now));
    assert_eq!(file.check_expiry(now).unwrap_err().kind, ErrorKind::CerificateFileExpired);
    assert!(file.check_expiry(Date::new(1500000000, 0)).is_ok());
}

#[test]
fn expired_file_with_ttl_is_refused_as_expired() {
    configure();
    let content = license_certificate("2020-01-01T00:00:00Z", 3600);
    let err = LicenseFile::build_from_cert(SECRET.to_string(), content).unwrap_err();
    assert_eq!(err.kind, ErrorKind::LicenseFileExpired);
    assert!(err.message().starts_with("{\"details\":{"));
    assert!(err.message().ends_with(",\"type\":\"LicenseFileExpired\"}"));
}

#[test]
fn missing_public_key_refuses_verification() {
    keygen_rs::config::set_config(keygen_rs::config::KeygenConfig { public_key: None, ..Default::default() });
    let content = license_certificate("2099-01-01T00:00:00Z", 3600);
    let file = LicenseFile::build_from_cert(SECRET.to_string(), content).unwrap();
    assert_eq!(file.verify().unwrap_err().kind, ErrorKind::PublicKeyMissing);
    assert_eq!(file.decrypt(SECRET.to_string()).unwrap_err().kind, ErrorKind::PublicKeyMissing);
}

#[test]
fn machine_file_carries_its_license() {
    configure();
    let content = machine_certificate();
    let file = MachineFile::from_cert(SECRET.to_string(), content).unwrap();
    assert_eq!(file.id(), "mach-1");
    assert!(file.verify().is_ok());
    let dataset = file.decrypt(SECRET.to_string()).unwrap();
    let machine = dataset.machine();
    assert_eq!(machine.fingerprint(), "host-1");
    assert_eq!(machine.cores(), Some(8));
    assert_eq!(machine.hostname(), Some("box".to_string()));
    assert_eq!(machine.updated(), Date::new(1704153600, 0));
    let license = dataset.license();
    assert_eq!(license.id(), "lic-1");
    assert_eq!(license.key(), "KEY-ABC");
    assert_eq!(dataset.ttl(), 3600);
}

#[test]
fn tampered_machine_file_is_not_genuine() {
    configure();
    let content = tamper_signature(&machine_certificate(), "machine");
    let file = MachineFile::from_cert(SECRET.to_string(), content).unwrap();
    assert_eq!(file.verify().unwrap_err().kind, ErrorKind::MachineFileNotGenuine);
    assert_eq!(file.decrypt(SECRET.to_string()).unwrap_err().kind, ErrorKind::MachineFileNotGenuine);
    assert_eq!(file.build_certificate().unwrap_err().kind, ErrorKind::MachineFileNotGenuine);
}

#[test]
fn machine_file_with_wrong_key_is_a_decryption_error() {
    configure();
    let file = MachineFile::from_cert(SECRET.to_string(), machine_certificate()).unwrap();
    assert_eq!(file.decrypt("WRONG".to_string()).unwrap_err().kind, ErrorKind::DecryptionError);
}

fn short_iv_certificate() -> String {
    let enc = format!(
        "{}.{}.{}",
        general_purpose::STANDARD.encode(b"ciphertext"),
        general_purpose::STANDARD.encode([1u8; 8]),
        general_purpose::STANDARD.encode([2u8; 16])
    );
    frame("license", &enc, &sign("license", &enc))
}

#[test]
fn short_iv_is_a_decryption_error_not_a_panic() {
    configure();
    let content = short_iv_certificate();
    let err = LicenseFile::build_from_cert(SECRET.to_string(), content.clone()).unwrap_err();
    assert_eq!(err.kind, ErrorKind::DecryptionError);
    let file = LicenseFile::new("lic-1".to_string(), content, Date::new(0, 0), Date::new(0, 0), 0);
    assert!(file.verify().is_ok());
    assert_eq!(file.decrypt(SECRET.to_string()).unwrap_err().kind, ErrorKind::DecryptionError);
}

#[test]
fn frame_of_a_file_built_from_values() {
    configure();
    let content = license_certificate("2099-01-01T00:00:00Z", 3600);
    let file = LicenseFile::new("x".to_string(), content, Date::new(0, 0), Date::new(0, 0), 0);
    let cert = file.build_cert().unwrap();
    assert_eq!(cert.alg(), "aes-256-gcm+ed25519");
    assert_eq!(file.decrypt(SECRET.to_string()).unwrap().license().id(), "lic-1");
}

fn unencrypted_certificate(alg: &str) -> String {
    let plaintext = format!("{{\"meta\":{},\"data\":{}}}", meta("2099-01-01T00:00:00Z", 3600), LICENSE_DATA);
    let enc = general_purpose::STANDARD.encode(plaintext);
    let cert = format!("{{\"enc\":\"{}\",\"sig\":\"{}\",\"alg\":\"{}\"}}", enc, sign("license", &enc), alg);
    format!(
        "-----BEGIN LICENSE FILE-----\n{}\n-----END LICENSE FILE-----\n",
        general_purpose::STANDARD.encode(cert)
    )
}

#[test]
fn signed_but_unencrypted_file_is_not_encrypted() {
    configure();
    let content = unencrypted_certificate("base64+ed25519");
    let err = LicenseFile::build_from_cert(SECRET.to_string(), content.clone()).unwrap_err();
    assert_eq!(err.kind, ErrorKind::LicenseFileNotEncrypted);
    let file = LicenseFile::new("lic-1".to_string(), content, Date::new(0, 0), Date::new(0, 0), 0);
    assert!(file.verify().is_ok());
    assert_eq!(file.decrypt(SECRET.to_string()).unwrap_err().kind, ErrorKind::LicenseFileNotEncrypted);
    let checked = file.check().unwrap();
    assert_eq!(checked.decrypt(SECRET).unwrap_err().kind, ErrorKind::LicenseFileNotEncrypted);
    assert_eq!(checked.frame().unwrap().alg(), "base64+ed25519");
}

#[test]
fn rsa_file_is_not_supported() {
    configure();
    let content = unencrypted_certificate("aes-256-gcm+rsa-sha256");
    let err = LicenseFile::build_from_cert(SECRET.to_string(), content.clone()).unwrap_err();
    assert_eq!(err.kind, ErrorKind::LicenseFileNotSupported);
    let file = LicenseFile::new("lic-1".to_string(), content, Date::new(0, 0), Date::new(0, 0), 0);
    assert_eq!(file.decrypt(SECRET.to_string()).unwrap_err().kind, ErrorKind::LicenseFileNotSupported);
}

#[test]
fn unframable_machine_file_is_invalid() {
    configure();
    let err = MachineFile::from_cert(SECRET.to_string(), "garbage".to_string()).unwrap_err();
    assert_eq!(err.kind, ErrorKind::MachineFileInvalid);
    let file = MachineFile::new("m".to_string(), "garbage".to_string(), Date::new(0, 0), Date::new(0, 0), 0);
    assert_eq!(file.verify().unwrap_err().kind, ErrorKind::MachineFileInvalid);
}

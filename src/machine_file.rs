use vstd::prelude::*;
use crate::certificate::{
    encrypting_alg, is_encrypting_alg, names_encrypting, iv_segment_fits, payload_decryptable, unsupported_alg, Certificate,
};
use crate::date::{expired_at, is_expired, Date};
use crate::errors::{kind_of, ErrorKind, KeygenError, Payload};
use crate::license::{license_fields, License, LicenseView};
use crate::machine::{machine_fields, Machine, MachineView};
use keygen_rs::errors::Error;
use keygen_rs::license::License as OutsideLicense;
use keygen_rs::machine::Machine as OutsideMachine;
use keygen_rs::machine_file::MachineFile as OutsideMachineFile;
use keygen_rs::machine_file::MachineFileDataset as OutsideMachineFileDataset;

verus! {

/// A signed offline snapshot scoped to a machine, as issued by a checkout or
/// read back from its certificate text. Immutable.
#[derive(Clone, Debug)]
pub struct MachineFile {
    id: String,
    certificate: String,
    issued: Date,
    expiry: Date,
    ttl: i32,
}

/// What a `MachineFile` holds, as plain values.
pub struct MachineFileView {
    pub id: Seq<char>,
    pub certificate: Seq<char>,
    pub issued: Date,
    pub expiry: Date,
    pub ttl: i32,
}

impl View for MachineFile {
    type V = MachineFileView;

    closed spec fn view(&self) -> MachineFileView {
        MachineFileView {
            id: self.id@,
            certificate: self.certificate@,
            issued: self.issued,
            expiry: self.expiry,
            ttl: self.ttl,
        }
    }
}

impl MachineFile {
    pub fn id(&self) -> (r: String)
        ensures
            r@ == self@.id,
    {
        self.id.clone()
    }

    /// The certificate text: the signed, encrypted frame.
    pub fn certificate(&self) -> (r: String)
        ensures
            r@ == self@.certificate,
    {
        self.certificate.clone()
    }

    pub fn issued(&self) -> (r: Date)
        ensures
            r == self@.issued,
    {
        self.issued
    }

    pub fn expiry(&self) -> (r: Date)
        ensures
            r == self@.expiry,
    {
        self.expiry
    }

    /// The time-to-live in seconds; zero or less sets no limit of its own.
    pub fn ttl(&self) -> (r: i32)
        ensures
            r == self@.ttl,
    {
        self.ttl
    }
}

/// The decrypted contents of a MachineFile. Immutable.
#[derive(Clone, Debug)]
pub struct MachineFileDataset {
    license: License,
    machine: Machine,
    issued: Date,
    expiry: Date,
    ttl: i32,
}

/// What a `MachineFileDataset` holds, as plain values.
pub struct MachineFileDatasetView {
    pub license: LicenseView,
    pub machine: MachineView,
    pub issued: Date,
    pub expiry: Date,
    pub ttl: i32,
}

impl View for MachineFileDataset {
    type V = MachineFileDatasetView;

    closed spec fn view(&self) -> MachineFileDatasetView {
        MachineFileDatasetView {
            license: self.license@,
            machine: self.machine@,
            issued: self.issued,
            expiry: self.expiry,
            ttl: self.ttl,
        }
    }
}

impl MachineFileDataset {
    pub fn license(&self) -> (r: License)
        ensures
            r@ == self@.license,
    {
        self.license.copy()
    }

    pub fn machine(&self) -> (r: Machine)
        ensures
            r@ == self@.machine,
    {
        self.machine.copy()
    }

    pub fn issued(&self) -> (r: Date)
        ensures
            r == self@.issued,
    {
        self.issued
    }

    pub fn expiry(&self) -> (r: Date)
        ensures
            r == self@.expiry,
    {
        self.expiry
    }

    pub fn ttl(&self) -> (r: i32)
        ensures
            r == self@.ttl,
    {
        self.ttl
    }
}

/// The kinds of failure with which the signature check of a machine file
/// refuses it: no usable public key, a malformed frame, a signature that does
/// not match, or an algorithm that is not supported.
pub open spec fn machine_file_refusal(k: ErrorKind) -> bool {
    ||| k == ErrorKind::PublicKeyMissing
    ||| k == ErrorKind::PublicKeyInvalid
    ||| k == ErrorKind::MachineFileInvalid
    ||| k == ErrorKind::MachineFileNotGenuine
    ||| k == ErrorKind::MachineFileNotSupported
}

/// The kinds of failure with which decryption of a machine file fails: a
/// malformed frame or payload, an algorithm without encryption or not
/// supported, a wrong key or corrupt ciphertext, or a snapshot past its expiry.
pub open spec fn machine_decrypt_failure(k: ErrorKind) -> bool {
    ||| k == ErrorKind::MachineFileInvalid
    ||| k == ErrorKind::LicenseFileInvalid
    ||| k == ErrorKind::LicenseFileNotSupported
    ||| k == ErrorKind::LicenseFileNotEncrypted
    ||| k == ErrorKind::DecryptionError
    ||| k == ErrorKind::Unknown
    ||| k == ErrorKind::MachineFileExpired
}

/// Failures of the two stages stay apart: decryption never reports a file as
/// not genuine, and the signature check never reports a decryption error.
pub proof fn lemma_stages_fail_apart(k: ErrorKind)
    ensures
        machine_decrypt_failure(k) ==> k != ErrorKind::MachineFileNotGenuine,
        machine_file_refusal(k) ==> k != ErrorKind::DecryptionError,
{
}

/// The three segments (payload, signature, algorithm name) that keygen_rs's
/// MachineFile::certificate reads from the certificate text `cert`, or none where
/// the text is not a well-formed machine file frame. They depend on the text
/// alone.
pub uninterp spec fn machine_frame(cert: Seq<char>) -> Option<(Seq<char>, Seq<char>, Seq<char>)>;

/// How keygen_rs's decryption of a machine file treats the algorithm named by
/// `frame` before it reads the key or the clock: an unframable text is
/// invalid, an RSA algorithm is not supported, and any other algorithm but
/// the encrypting one is not encrypted.
pub open spec fn machine_algorithm_refusal(frame: Option<(Seq<char>, Seq<char>, Seq<char>)>, k: ErrorKind) -> bool {
    match frame {
        None => k == ErrorKind::MachineFileInvalid,
        Some((_, _, a)) => {
            &&& unsupported_alg(a) ==> k == ErrorKind::LicenseFileNotSupported
            &&& !unsupported_alg(a) && !encrypting_alg(a) ==> k == ErrorKind::LicenseFileNotEncrypted
        },
    }
}

/// Relies on keygen_rs's MachineFile::verify, which reads only the certificate
/// text of the file: checks the signature of the certificate text `cert`
/// against the configured public key. The outcome depends on that
/// configuration. keygen_rs reads the frame first, so a text that passes
/// frames; a refusal is one of the kinds of `machine_file_refusal`.
#[verifier::external_body]
fn check_signature(cert: &str) -> (r: Result<(), Error>)
    ensures
        r is Ok ==> machine_frame(cert@) is Some,
        r matches Err(e) ==> machine_file_refusal(kind_of(&e)),
{
    let file = OutsideMachineFile { id: String::new(), certificate: cert.to_string(), issued: Default::default(), expiry: Default::default(), ttl: 0 };
    file.verify()
}

/// Relies on keygen_rs's MachineFile::decrypt, which reads only the certificate
/// text of the file: decrypts the payload of the certificate text `cert` with
/// `key` and parses it. It refuses the algorithm as `machine_algorithm_refusal`
/// says before it decrypts. keygen_rs panics, in aes-gcm's Nonce::from_slice,
/// on an encrypted payload whose IV segment decodes to other than twelve
/// bytes; `requires` leaves those out. It reads the clock for the expiry; a
/// failure is one of the kinds of `machine_decrypt_failure`.
#[verifier::external_body]
fn decrypt_payload(cert: &str, key: &str) -> (r: Result<OutsideMachineFileDataset, Error>)
    requires
        payload_decryptable(machine_frame(cert@)),
    ensures
        r is Ok ==> names_encrypting(machine_frame(cert@)),
        r matches Err(e) ==> names_encrypting(machine_frame(cert@)) || machine_algorithm_refusal(machine_frame(cert@), kind_of(&e)),
        r matches Err(e) ==> machine_decrypt_failure(kind_of(&e)),
{
    let file = OutsideMachineFile { id: String::new(), certificate: cert.to_string(), issued: Default::default(), expiry: Default::default(), ttl: 0 };
    file.decrypt(key)
}

/// Relies on keygen_rs's MachineFile::from_cert: decrypts `content` with `key` and
/// builds the file from it, refusing the algorithm as `machine_algorithm_refusal`
/// says before it decrypts. Like decryption, it panics on an encrypted payload
/// whose IV segment decodes to other than twelve bytes; `requires` leaves those
/// out. It reads the clock for the expiry; a failure is one of the kinds of
/// `machine_decrypt_failure`.
#[verifier::external_body]
fn open_certificate(key: &str, content: &str) -> (r: Result<OutsideMachineFile, Error>)
    requires
        payload_decryptable(machine_frame(content@)),
    ensures
        r is Ok ==> names_encrypting(machine_frame(content@)),
        r matches Err(e) ==> names_encrypting(machine_frame(content@)) || machine_algorithm_refusal(machine_frame(content@), kind_of(&e)),
        r matches Err(e) ==> machine_decrypt_failure(kind_of(&e)),
{
    OutsideMachineFile::from_cert(key, content)
}

/// Relies on keygen_rs's MachineFile::certificate, which reads only the certificate
/// text of the file: the three segments of the frame of `cert`. Malformed
/// framing fails as `MachineFileInvalid`.
#[verifier::external_body]
fn frame(cert: &str) -> (r: Result<(String, String, String), Error>)
    ensures
        r matches Ok((e, s, a)) ==> machine_frame(cert@) == Some((e@, s@, a@)),
        r is Err <==> machine_frame(cert@) is None,
        r matches Err(e) ==> kind_of(&e) == ErrorKind::MachineFileInvalid,
{
    let file = OutsideMachineFile { id: String::new(), certificate: cert.to_string(), issued: Default::default(), expiry: Default::default(), ttl: 0 };
    match file.certificate() {
        Ok(c) => Ok((c.enc, c.sig, c.alg)),
        Err(e) => Err(e),
    }
}

/// Where the certificate text `cert` frames under the encrypting algorithm,
/// its IV segment must fit a nonce before its payload is handed to
/// decryption; otherwise the payload cannot be decrypted.
fn decryptable(cert: &str) -> (r: Result<(), KeygenError>)
    ensures
        r is Ok <==> payload_decryptable(machine_frame(cert@)),
        r matches Err(x) ==> x.kind == ErrorKind::DecryptionError,
{
    match frame(cert) {
        Ok((enc, _, alg)) => {
            if !is_encrypting_alg(alg.as_str()) || iv_segment_fits(enc.as_str()) {
                Ok(())
            } else {
                Err(KeygenError::malformed_payload())
            }
        },
        Err(_) => Ok(()),
    }
}

/// A certificate text whose signature passed the check against the
/// configured public key. Only `MachineFile::check` makes one, so only a checked
/// text reaches decryption.
pub struct CheckedMachineCertificate {
    certificate: String,
}

impl View for CheckedMachineCertificate {
    type V = Seq<char>;

    closed spec fn view(&self) -> Seq<char> {
        self.certificate@
    }
}

impl CheckedMachineCertificate {
    /// Decrypts the checked certificate text with `key`. An algorithm other
    /// than the encrypting one is refused before decryption, as not supported
    /// or not encrypted; an encrypted payload whose IV segment does not fit a
    /// nonce fails as `DecryptionError`.
    pub fn decrypt(&self, key: &str) -> (r: Result<MachineFileDataset, KeygenError>)
        ensures
            r matches Err(e) ==> machine_decrypt_failure(e.kind),
            !payload_decryptable(machine_frame(self@)) ==> (r matches Err(e) && e.kind == ErrorKind::DecryptionError),
            !names_encrypting(machine_frame(self@)) ==> (r matches Err(e)
                && machine_algorithm_refusal(machine_frame(self@), e.kind)),
    {
        if let Err(e) = decryptable(self.certificate.as_str()) {
            return Err(e);
        }
        match decrypt_payload(self.certificate.as_str(), key) {
            Ok(d) => Ok(MachineFileDataset::from(d)),
            Err(e) => Err(KeygenError::from_error(e)),
        }
    }

    /// The three segments of the checked certificate's frame.
    pub fn frame(&self) -> (r: Result<Certificate, KeygenError>)
        ensures
            r matches Ok(c) ==> machine_frame(self@) == Some((c@.enc, c@.sig, c@.alg)),
            r is Err <==> machine_frame(self@) is None,
            r matches Err(e) ==> e.kind == ErrorKind::MachineFileInvalid,
    {
        match frame(self.certificate.as_str()) {
            Ok((enc, sig, alg)) => Ok(Certificate::build(enc, sig, alg)),
            Err(e) => Err(KeygenError::from_error(e)),
        }
    }
}

/// Relies on keygen_rs's MachineFile: copies its plain fields, reading each
/// date through chrono's DateTime::timestamp and timestamp_subsec_micros.
#[verifier::external_body]
fn file_fields(f: &OutsideMachineFile) -> (r: (String, String, Date, Date, i32))
{
    let date = |d: chrono::DateTime<chrono::Utc>| Date { secs: d.timestamp(), micros: d.timestamp_subsec_micros() };
    (f.id.clone(), f.certificate.clone(), date(f.issued), date(f.expiry), f.ttl)
}

/// Relies on keygen_rs's MachineFileDataset: its license and machine, and its
/// dates and time-to-live read through chrono's DateTime::timestamp and
/// timestamp_subsec_micros.
#[verifier::external_body]
fn dataset_fields(d: &OutsideMachineFileDataset) -> (r: (&OutsideLicense, &OutsideMachine, Date, Date, i32))
{
    let date = |d: chrono::DateTime<chrono::Utc>| Date { secs: d.timestamp(), micros: d.timestamp_subsec_micros() };
    (&d.license, &d.machine, date(d.issued), date(d.expiry), d.ttl)
}

impl MachineFileDataset {
    /// The contents as read from the remote-API collaborator's record of them.
    pub fn from(origin: OutsideMachineFileDataset) -> MachineFileDataset {
        let (license, machine, issued, expiry, ttl) = dataset_fields(&origin);
        MachineFileDataset { license: license_fields(license), machine: machine_fields(machine), issued, expiry, ttl }
    }

    /// Whether the contents have run out at `now`.
    pub fn is_expired_at(&self, now: Date) -> (r: bool)
        ensures
            r == expired_at(self@.issued, self@.expiry, self@.ttl, now),
    {
        is_expired(self.issued, self.expiry, self.ttl, now)
    }
}

impl MachineFile {
    /// Builds the file from its values.
    pub fn new(id: String, certificate: String, issued: Date, expiry: Date, ttl: i32) -> (r: MachineFile)
        ensures
            r@.id == id@,
            r@.certificate == certificate@,
            r@.issued == issued,
            r@.expiry == expiry,
            r@.ttl == ttl,
    {
        MachineFile { id, certificate, issued, expiry, ttl }
    }

    /// The file as read from the remote-API collaborator's record of it.
    pub fn from(origin: OutsideMachineFile) -> MachineFile {
        let (id, certificate, issued, expiry, ttl) = file_fields(&origin);
        MachineFile { id, certificate, issued, expiry, ttl }
    }

    /// Reads a file back from its certificate text `content`, decrypting it
    /// with `key`, without a round trip. Text that does not frame is invalid;
    /// an algorithm other than the encrypting one is refused as not supported
    /// or not encrypted; an encrypted payload whose IV segment does not fit a
    /// nonce fails as `DecryptionError`.
    pub fn from_cert(key: String, content: String) -> (r: Result<MachineFile, KeygenError>)
        ensures
            r matches Ok(f) ==> f@.certificate == content@,
            r matches Err(e) ==> machine_decrypt_failure(e.kind),
            !payload_decryptable(machine_frame(content@)) ==> (r matches Err(x) && x.kind == ErrorKind::DecryptionError),
            !names_encrypting(machine_frame(content@)) ==> (r matches Err(e)
                && machine_algorithm_refusal(machine_frame(content@), e.kind)),
    {
        if let Err(e) = decryptable(content.as_str()) {
            return Err(e);
        }
        match open_certificate(key.as_str(), content.as_str()) {
            Ok(f) => {
                let (id, _, issued, expiry, ttl) = file_fields(&f);
                Ok(MachineFile { id, certificate: content, issued, expiry, ttl })
            },
            Err(e) => Err(KeygenError::from_error(e)),
        }
    }

    /// Checks the certificate's signature against the configured public key;
    /// a passed check hands out the checked certificate text.
    pub fn check(&self) -> (r: Result<CheckedMachineCertificate, KeygenError>)
        ensures
            r matches Ok(c) ==> c@ == self@.certificate && machine_frame(self@.certificate) is Some,
            r matches Err(e) ==> machine_file_refusal(e.kind),
    {
        match check_signature(self.certificate.as_str()) {
            Ok(()) => Ok(CheckedMachineCertificate { certificate: self.certificate.clone() }),
            Err(e) => Err(KeygenError::from_error(e)),
        }
    }

    /// Checks the certificate's signature against the configured public key.
    pub fn verify(&self) -> (r: Result<(), KeygenError>)
        ensures
            r is Ok ==> machine_frame(self@.certificate) is Some,
            r matches Err(e) ==> machine_file_refusal(e.kind),
    {
        match self.check() {
            Ok(_) => Ok(()),
            Err(e) => Err(e),
        }
    }

    /// Checks the signature, then decrypts the file with `key`. A file that
    /// fails the check never reaches decryption, and its refusal is never
    /// taken for a decryption failure.
    pub fn decrypt(&self, key: String) -> (r: Result<MachineFileDataset, KeygenError>)
        ensures
            r matches Err(e) ==> machine_file_refusal(e.kind) || machine_decrypt_failure(e.kind),
            !payload_decryptable(machine_frame(self@.certificate)) ==> (r matches Err(e)
                && (machine_file_refusal(e.kind) || e.kind == ErrorKind::DecryptionError)),
            (machine_frame(self@.certificate) is Some && !names_encrypting(machine_frame(self@.certificate))) ==> (r matches Err(e)
                && (machine_file_refusal(e.kind) || machine_algorithm_refusal(machine_frame(self@.certificate), e.kind))),
    {
        match self.check() {
            Err(e) => Err(e),
            Ok(checked) => checked.decrypt(key.as_str()),
        }
    }

    /// Checks the signature, then returns the certificate's frame.
    pub fn build_certificate(&self) -> (r: Result<Certificate, KeygenError>)
        ensures
            r matches Ok(c) ==> machine_frame(self@.certificate) == Some((c@.enc, c@.sig, c@.alg)),
            r matches Err(e) ==> machine_file_refusal(e.kind),
    {
        match self.check() {
            Err(e) => Err(e),
            Ok(checked) => checked.frame(),
        }
    }

    /// Whether the file has run out at `now`.
    pub fn is_expired_at(&self, now: Date) -> (r: bool)
        ensures
            r == expired_at(self@.issued, self@.expiry, self@.ttl, now),
    {
        is_expired(self.issued, self.expiry, self.ttl, now)
    }

    /// The expiry check: fails as `CerificateFileExpired` exactly when the file
    /// has run out at `now`, whatever its signature and contents.
    pub fn check_expiry(&self, now: Date) -> (r: Result<(), KeygenError>)
        ensures
            r is Err <==> expired_at(self@.issued, self@.expiry, self@.ttl, now),
            r matches Err(e) ==> e.kind == ErrorKind::CerificateFileExpired,
    {
        if self.is_expired_at(now) {
            Err(KeygenError { kind: ErrorKind::CerificateFileExpired, payload: Payload::Fixed })
        } else {
            Ok(())
        }
    }
}

} // verus!

use vstd::prelude::*;
use crate::date::Date;
use crate::errors::{kind_of, ErrorKind, KeygenError};
use crate::text::{clone_opt, opt_view};
use keygen_rs::errors::Error;
use keygen_rs::license::License as OutsideLicense;

verus! {

/// The signature scheme of a license key. A scheme that the remote authority
/// names and this library does not know reads as no scheme.
#[derive(Clone, Copy, Debug, PartialEq, Eq, Structural)]
pub enum SchemeCode {
    Ed25519Sign,
}

impl SchemeCode {
    /// The remote-API collaborator's name for the scheme.
    pub fn to_keygen(self) -> (r: keygen_rs::license::SchemeCode)
        ensures
            r is Ed25519Sign,
    {
        match self {
            SchemeCode::Ed25519Sign => keygen_rs::license::SchemeCode::Ed25519Sign,
        }
    }
}

/// Options of a request for an offline license file: its time-to-live in
/// seconds (none or a non-positive one leaves it to the remote authority) and
/// the related records to embed.
pub struct LicenseCheckoutOpts {
    pub ttl: Option<i64>,
    pub embed: Option<Vec<String>>,
}

/// A license: the grant that machines are activated against. Immutable.
#[derive(Clone, Debug)]
pub struct License {
    id: String,
    key: String,
    name: Option<String>,
    expiry: Option<Date>,
    status: Option<String>,
    policy: Option<String>,
    scheme: Option<SchemeCode>,
}

/// What a `License` holds, as plain values.
pub struct LicenseView {
    pub id: Seq<char>,
    pub key: Seq<char>,
    pub name: Option<Seq<char>>,
    pub expiry: Option<Date>,
    pub status: Option<Seq<char>>,
    pub policy: Option<Seq<char>>,
    pub scheme: Option<SchemeCode>,
}

impl View for License {
    type V = LicenseView;

    closed spec fn view(&self) -> LicenseView {
        LicenseView {
            id: self.id@,
            key: self.key@,
            name: opt_view(self.name),
            expiry: self.expiry,
            status: opt_view(self.status),
            policy: opt_view(self.policy),
            scheme: self.scheme,
        }
    }
}

impl License {
    pub fn id(&self) -> (r: String)
        ensures
            r@ == self@.id,
    {
        self.id.clone()
    }

    /// The license key, signed where the license has a scheme.
    pub fn key(&self) -> (r: String)
        ensures
            r@ == self@.key,
    {
        self.key.clone()
    }

    pub fn name(&self) -> (r: Option<String>)
        ensures
            opt_view(r) == self@.name,
    {
        clone_opt(&self.name)
    }

    pub fn expiry(&self) -> (r: Option<Date>)
        ensures
            r == self@.expiry,
    {
        self.expiry
    }

    pub fn status(&self) -> (r: Option<String>)
        ensures
            opt_view(r) == self@.status,
    {
        clone_opt(&self.status)
    }

    pub fn policy(&self) -> (r: Option<String>)
        ensures
            opt_view(r) == self@.policy,
    {
        clone_opt(&self.policy)
    }

    /// The signature scheme of the key, where it has one.
    pub fn scheme(&self) -> (r: Option<SchemeCode>)
        ensures
            r == self@.scheme,
    {
        self.scheme
    }

    /// A second handle on the same values.
    pub fn copy(&self) -> (r: License)
        ensures
            r@ == self@,
    {
        License {
            id: self.id(),
            key: self.key(),
            name: self.name(),
            expiry: self.expiry,
            status: self.status(),
            policy: self.policy(),
            scheme: self.scheme,
        }
    }
}

impl License {
    /// Builds the record from its values.
    pub fn new(id: String, key: String, name: Option<String>, expiry: Option<Date>, status: Option<String>, policy: Option<String>, scheme: Option<SchemeCode>) -> (r: License)
        ensures
            r@.id == id@,
            r@.key == key@,
            r@.name == opt_view(name),
            r@.expiry == expiry,
            r@.status == opt_view(status),
            r@.policy == opt_view(policy),
            r@.scheme == scheme,
    {
        License { id, key, name, expiry, status, policy, scheme }
    }
}

/// Relies on keygen_rs's License: copies its public fields, reading each date
/// through chrono's DateTime::timestamp and timestamp_subsec_micros.
#[verifier::external_body]
pub(crate) fn license_fields(l: &OutsideLicense) -> (r: License)
{
    License {
        id: l.id.clone(),
        key: l.key.clone(),
        name: l.name.clone(),
        expiry: l.expiry.map(|d| Date { secs: d.timestamp(), micros: d.timestamp_subsec_micros() }),
        status: l.status.clone(),
        policy: l.policy.clone(),
        scheme: match l.scheme {
            Some(keygen_rs::license::SchemeCode::Ed25519Sign) => Some(SchemeCode::Ed25519Sign),
            None => None,
        },
    }
}

/// The kinds of failure with which a signed key is refused.
pub open spec fn key_refusal(k: ErrorKind) -> bool {
    ||| k == ErrorKind::PublicKeyMissing
    ||| k == ErrorKind::PublicKeyInvalid
    ||| k == ErrorKind::LicenseKeyMissing
    ||| k == ErrorKind::LicenseKeyNotGenuine
}

/// Relies on keygen_rs::verify: checks `signed_key` against the configured
/// public key under `scheme` and returns the signed payload. The outcome
/// depends on that configuration; whatever it is, an empty key is refused, and
/// a refusal is one of the kinds of `key_refusal`.
#[verifier::external_body]
fn signed_payload(scheme: keygen_rs::license::SchemeCode, signed_key: &str) -> (r: Result<Vec<u8>, Error>)
    ensures
        signed_key@.len() == 0 ==> r is Err,
        r matches Err(e) ==> key_refusal(kind_of(&e)),
{
    keygen_rs::verify(scheme, signed_key)
}

/// What String::from_utf8_lossy makes of the bytes `b`.
pub uninterp spec fn utf8_lossy(b: Seq<u8>) -> Seq<char>;

/// Relies on String::from_utf8_lossy: the bytes read as UTF-8, each invalid
/// sequence replaced by U+FFFD. The result depends on the bytes alone.
#[verifier::external_body]
fn lossy_text(b: &[u8]) -> (r: String)
    ensures
        r@ == utf8_lossy(b@),
        b@.len() == 0 ==> r@.len() == 0,
{
    String::from_utf8_lossy(b).into_owned()
}

/// The payload of a verified key as text, or the failure unchanged.
pub fn payload_text(outcome: Result<Vec<u8>, KeygenError>) -> (r: Result<String, KeygenError>)
    ensures
        outcome matches Ok(b) ==> (r matches Ok(t) && t@ == utf8_lossy(b@)),
        outcome matches Err(e) ==> r == Err::<String, KeygenError>(e),
{
    match outcome {
        Ok(b) => Ok(lossy_text(b.as_slice())),
        Err(e) => Err(e),
    }
}

/// Verifies `signed_key` against the configured public key under `scheme`,
/// without a round trip, and returns its signed payload as text. An empty key
/// is always refused.
pub fn verify(scheme: SchemeCode, signed_key: &str) -> (r: Result<String, KeygenError>)
    ensures
        signed_key@.len() == 0 ==> r is Err,
        r matches Err(e) ==> key_refusal(e.kind),
{
    let outcome = match signed_payload(scheme.to_keygen(), signed_key) {
        Ok(b) => Ok(b),
        Err(e) => Err(KeygenError::from_error(e)),
    };
    payload_text(outcome)
}

impl License {
    /// The license as read from the remote-API collaborator's record of it.
    pub fn from(origin: OutsideLicense) -> License {
        license_fields(&origin)
    }

    /// Verifies the license's signed key against the configured public key and
    /// returns the signed payload. A license without a scheme is not signed,
    /// and an empty key is refused.
    pub fn verify(&self) -> (r: Result<Vec<u8>, KeygenError>)
        ensures
            self@.scheme is None ==> (r matches Err(e) && e.kind == ErrorKind::LicenseNotSigned),
            self@.scheme is Some && self@.key.len() == 0 ==> r is Err,
            self@.scheme is Some ==> (r matches Err(e) ==> key_refusal(e.kind)),
            r matches Err(e) ==> e.kind == ErrorKind::LicenseNotSigned || key_refusal(e.kind),
    {
        match self.scheme {
            None => Err(KeygenError::not_signed()),
            Some(s) => match signed_payload(s.to_keygen(), self.key.as_str()) {
                Ok(b) => Ok(b),
                Err(e) => Err(KeygenError::from_error(e)),
            },
        }
    }
}

} // verus!

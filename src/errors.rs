use vstd::prelude::*;
use vstd::string::*;
use keygen_rs::errors::Error;
use crate::json::{json_quoted, quote, value_text, decimal, decimal_text};
use crate::text::opt_view;

verus! {

/// The closed set of failure kinds that every operation of this library
/// reports. Each kind but `Unknown` is named after the failure it stands for.
#[derive(Clone, Copy, Debug, PartialEq, Eq, Structural)]
pub enum ErrorKind {
    UnexpectedError,
    InvalidUrl,
    SystemClockUnsynced,
    DecryptionError,
    RateLimitExceeded,
    LicenseKeyMissing,
    LicenseSchemeMissing,
    LicenseSchemeNotSupported,
    LicenseNotSigned,
    LicenseKeyNotGenuine,
    PublicKeyMissing,
    PublicKeyInvalid,
    LicenseSchemeUnsupported,
    CerificateFileInvalid,
    CertificateFileNotGenuine,
    CertificateFileNotSupported,
    CerificateFileExpired,
    LicenseFileInvalid,
    LicenseFileNotGenuine,
    LicenseFileNotSupported,
    LicenseFileNotEncrypted,
    LicenseFileExpired,
    MachineFileInvalid,
    MachineFileNotGenuine,
    MachineFileNotSupported,
    MachineFileExpired,
    KeygenApiError,
    TokenNotAllowed,
    TokenFormatInvalid,
    TokenInvalid,
    TokenExpired,
    LicenseSuspended,
    LicenseExpired,
    LicenseNotAllowed,
    LicenseNotActivated,
    LicenseKeyInvalid,
    LicenseTokenInvalid,
    LicenseTooManyMachines,
    LicenseTooManyCores,
    LicenseTooManyProcesses,
    MachineAlreadyActivated,
    MachineLimitExceeded,
    MachineNotFound,
    ProcessLimitExceeded,
    ProcessNotFound,
    ComponentConflict,
    ComponentAlreadyActivated,
    ComponentNotActivated,
    EnvironmentError,
    HeartbeatDead,
    HeartbeatPingFailed,
    HeartbeatRequired,
    ValidationFingerprintMissing,
    ValidationComponentsMissing,
    /// A failure that has no kind of its own here.
    Unknown,
}

/// The data a failure carries beside its kind.
#[derive(Clone, Debug)]
pub enum Payload {
    /// A kind whose description is fixed.
    Fixed,
    /// A human-readable description.
    Text(String),
    /// The rate-limit window that was exceeded: wait `retry_after` seconds
    /// before sending again.
    RateLimit { window: String, count: u32, limit: u32, remaining: u32, reset: u64, retry_after: u64 },
    /// The remote authority's error code and description.
    CodeDetail { code: String, detail: String },
    /// An error reply of the remote authority, with its body as JSON text
    /// (`None` where the body could not be written).
    Api { code: String, detail: String, body: Option<String> },
    /// A license that is not activated for the machine, as JSON text.
    NotActivated { code: String, detail: String, license: Option<String> },
    /// The decrypted contents of an expired offline file, as JSON text.
    Snapshot(Option<String>),
}

/// A failure: its kind and what it carries.
#[derive(Clone, Debug)]
pub struct KeygenError {
    pub kind: ErrorKind,
    pub payload: Payload,
}

impl ErrorKind {
    /// The name under which the kind travels in an error description.
    pub open spec fn name_spec(self) -> Seq<char> {
        match self {
            ErrorKind::UnexpectedError => "UnexpectedError"@,
            ErrorKind::InvalidUrl => "InvalidUrl"@,
            ErrorKind::SystemClockUnsynced => "SystemClockUnsynced"@,
            ErrorKind::DecryptionError => "DecryptionError"@,
            ErrorKind::RateLimitExceeded => "RateLimitExceeded"@,
            ErrorKind::LicenseKeyMissing => "LicenseKeyMissing"@,
            ErrorKind::LicenseSchemeMissing => "LicenseSchemeMissing"@,
            ErrorKind::LicenseSchemeNotSupported => "LicenseSchemeNotSupported"@,
            ErrorKind::LicenseNotSigned => "LicenseNotSigned"@,
            ErrorKind::LicenseKeyNotGenuine => "LicenseKeyNotGenuine"@,
            ErrorKind::PublicKeyMissing => "PublicKeyMissing"@,
            ErrorKind::PublicKeyInvalid => "PublicKeyInvalid"@,
            ErrorKind::LicenseSchemeUnsupported => "LicenseSchemeUnsupported"@,
            ErrorKind::CerificateFileInvalid => "CerificateFileInvalid"@,
            ErrorKind::CertificateFileNotGenuine => "CertificateFileNotGenuine"@,
            ErrorKind::CertificateFileNotSupported => "CertificateFileNotSupported"@,
            ErrorKind::CerificateFileExpired => "CerificateFileExpired"@,
            ErrorKind::LicenseFileInvalid => "LicenseFileInvalid"@,
            ErrorKind::LicenseFileNotGenuine => "LicenseFileNotGenuine"@,
            ErrorKind::LicenseFileNotSupported => "LicenseFileNotSupported"@,
            ErrorKind::LicenseFileNotEncrypted => "LicenseFileNotEncrypted"@,
            ErrorKind::LicenseFileExpired => "LicenseFileExpired"@,
            ErrorKind::MachineFileInvalid => "MachineFileInvalid"@,
            ErrorKind::MachineFileNotGenuine => "MachineFileNotGenuine"@,
            ErrorKind::MachineFileNotSupported => "MachineFileNotSupported"@,
            ErrorKind::MachineFileExpired => "MachineFileExpired"@,
            ErrorKind::KeygenApiError => "KeygenApiError"@,
            ErrorKind::TokenNotAllowed => "TokenNotAllowed"@,
            ErrorKind::TokenFormatInvalid => "TokenFormatInvalid"@,
            ErrorKind::TokenInvalid => "TokenInvalid"@,
            ErrorKind::TokenExpired => "TokenExpired"@,
            ErrorKind::LicenseSuspended => "LicenseSuspended"@,
            ErrorKind::LicenseExpired => "LicenseExpired"@,
            ErrorKind::LicenseNotAllowed => "LicenseNotAllowed"@,
            ErrorKind::LicenseNotActivated => "LicenseNotActivated"@,
            ErrorKind::LicenseKeyInvalid => "LicenseKeyInvalid"@,
            ErrorKind::LicenseTokenInvalid => "LicenseTokenInvalid"@,
            ErrorKind::LicenseTooManyMachines => "LicenseTooManyMachines"@,
            ErrorKind::LicenseTooManyCores => "LicenseTooManyCores"@,
            ErrorKind::LicenseTooManyProcesses => "LicenseTooManyProcesses"@,
            ErrorKind::MachineAlreadyActivated => "MachineAlreadyActivated"@,
            ErrorKind::MachineLimitExceeded => "MachineLimitExceeded"@,
            ErrorKind::MachineNotFound => "MachineNotFound"@,
            ErrorKind::ProcessLimitExceeded => "ProcessLimitExceeded"@,
            ErrorKind::ProcessNotFound => "ProcessNotFound"@,
            ErrorKind::ComponentConflict => "ComponentConflict"@,
            ErrorKind::ComponentAlreadyActivated => "ComponentAlreadyActivated"@,
            ErrorKind::ComponentNotActivated => "ComponentNotActivated"@,
            ErrorKind::EnvironmentError => "EnvironmentError"@,
            ErrorKind::HeartbeatDead => "HeartbeatDead"@,
            ErrorKind::HeartbeatPingFailed => "HeartbeatPingFailed"@,
            ErrorKind::HeartbeatRequired => "HeartbeatRequired"@,
            ErrorKind::ValidationFingerprintMissing => "ValidationFingerprintMissing"@,
            ErrorKind::ValidationComponentsMissing => "ValidationComponentsMissing"@,
            ErrorKind::Unknown => "Unknown"@,
        }
    }

    /// The name under which the kind travels in an error description.
    pub fn name(self) -> (r: &'static str)
        ensures
            r@ == self.name_spec(),
    {
        match self {
            ErrorKind::UnexpectedError => "UnexpectedError",
            ErrorKind::InvalidUrl => "InvalidUrl",
            ErrorKind::SystemClockUnsynced => "SystemClockUnsynced",
            ErrorKind::DecryptionError => "DecryptionError",
            ErrorKind::RateLimitExceeded => "RateLimitExceeded",
            ErrorKind::LicenseKeyMissing => "LicenseKeyMissing",
            ErrorKind::LicenseSchemeMissing => "LicenseSchemeMissing",
            ErrorKind::LicenseSchemeNotSupported => "LicenseSchemeNotSupported",
            ErrorKind::LicenseNotSigned => "LicenseNotSigned",
            ErrorKind::LicenseKeyNotGenuine => "LicenseKeyNotGenuine",
            ErrorKind::PublicKeyMissing => "PublicKeyMissing",
            ErrorKind::PublicKeyInvalid => "PublicKeyInvalid",
            ErrorKind::LicenseSchemeUnsupported => "LicenseSchemeUnsupported",
            ErrorKind::CerificateFileInvalid => "CerificateFileInvalid",
            ErrorKind::CertificateFileNotGenuine => "CertificateFileNotGenuine",
            ErrorKind::CertificateFileNotSupported => "CertificateFileNotSupported",
            ErrorKind::CerificateFileExpired => "CerificateFileExpired",
            ErrorKind::LicenseFileInvalid => "LicenseFileInvalid",
            ErrorKind::LicenseFileNotGenuine => "LicenseFileNotGenuine",
            ErrorKind::LicenseFileNotSupported => "LicenseFileNotSupported",
            ErrorKind::LicenseFileNotEncrypted => "LicenseFileNotEncrypted",
            ErrorKind::LicenseFileExpired => "LicenseFileExpired",
            ErrorKind::MachineFileInvalid => "MachineFileInvalid",
            ErrorKind::MachineFileNotGenuine => "MachineFileNotGenuine",
            ErrorKind::MachineFileNotSupported => "MachineFileNotSupported",
            ErrorKind::MachineFileExpired => "MachineFileExpired",
            ErrorKind::KeygenApiError => "KeygenApiError",
            ErrorKind::TokenNotAllowed => "TokenNotAllowed",
            ErrorKind::TokenFormatInvalid => "TokenFormatInvalid",
            ErrorKind::TokenInvalid => "TokenInvalid",
            ErrorKind::TokenExpired => "TokenExpired",
            ErrorKind::LicenseSuspended => "LicenseSuspended",
            ErrorKind::LicenseExpired => "LicenseExpired",
            ErrorKind::LicenseNotAllowed => "LicenseNotAllowed",
            ErrorKind::LicenseNotActivated => "LicenseNotActivated",
            ErrorKind::LicenseKeyInvalid => "LicenseKeyInvalid",
            ErrorKind::LicenseTokenInvalid => "LicenseTokenInvalid",
            ErrorKind::LicenseTooManyMachines => "LicenseTooManyMachines",
            ErrorKind::LicenseTooManyCores => "LicenseTooManyCores",
            ErrorKind::LicenseTooManyProcesses => "LicenseTooManyProcesses",
            ErrorKind::MachineAlreadyActivated => "MachineAlreadyActivated",
            ErrorKind::MachineLimitExceeded => "MachineLimitExceeded",
            ErrorKind::MachineNotFound => "MachineNotFound",
            ErrorKind::ProcessLimitExceeded => "ProcessLimitExceeded",
            ErrorKind::ProcessNotFound => "ProcessNotFound",
            ErrorKind::ComponentConflict => "ComponentConflict",
            ErrorKind::ComponentAlreadyActivated => "ComponentAlreadyActivated",
            ErrorKind::ComponentNotActivated => "ComponentNotActivated",
            ErrorKind::EnvironmentError => "EnvironmentError",
            ErrorKind::HeartbeatDead => "HeartbeatDead",
            ErrorKind::HeartbeatPingFailed => "HeartbeatPingFailed",
            ErrorKind::HeartbeatRequired => "HeartbeatRequired",
            ErrorKind::ValidationFingerprintMissing => "ValidationFingerprintMissing",
            ErrorKind::ValidationComponentsMissing => "ValidationComponentsMissing",
            ErrorKind::Unknown => "Unknown",
        }
    }

    /// The fixed description of a kind whose payload is `Fixed`; empty for the
    /// other kinds.
    pub open spec fn fixed_detail_spec(self) -> Seq<char> {
        match self {
            ErrorKind::InvalidUrl => "Invalid URL"@,
            ErrorKind::SystemClockUnsynced => "System clock unsynced"@,
            ErrorKind::LicenseKeyMissing => "License key missing"@,
            ErrorKind::LicenseSchemeMissing => "License scheme missing"@,
            ErrorKind::LicenseSchemeNotSupported => "License scheme not supported"@,
            ErrorKind::LicenseNotSigned => "License not signed"@,
            ErrorKind::LicenseKeyNotGenuine => "License key not genuine"@,
            ErrorKind::PublicKeyMissing => "Public key missing"@,
            ErrorKind::PublicKeyInvalid => "Public key invalid"@,
            ErrorKind::LicenseSchemeUnsupported => "License scheme unsupported"@,
            ErrorKind::CerificateFileExpired => "Certificate file expired"@,
            ErrorKind::LicenseFileNotEncrypted => "License file not encrypted"@,
            ErrorKind::MachineNotFound => "Machine not found"@,
            ErrorKind::ProcessNotFound => "Process not found"@,
            ErrorKind::Unknown => "Unknown error"@,
            _ => Seq::empty(),
        }
    }

    pub fn fixed_detail(self) -> (r: &'static str)
        ensures
            r@ == self.fixed_detail_spec(),
    {
        proof {
            reveal_strlit("");
        }
        match self {
            ErrorKind::InvalidUrl => "Invalid URL",
            ErrorKind::SystemClockUnsynced => "System clock unsynced",
            ErrorKind::LicenseKeyMissing => "License key missing",
            ErrorKind::LicenseSchemeMissing => "License scheme missing",
            ErrorKind::LicenseSchemeNotSupported => "License scheme not supported",
            ErrorKind::LicenseNotSigned => "License not signed",
            ErrorKind::LicenseKeyNotGenuine => "License key not genuine",
            ErrorKind::PublicKeyMissing => "Public key missing",
            ErrorKind::PublicKeyInvalid => "Public key invalid",
            ErrorKind::LicenseSchemeUnsupported => "License scheme unsupported",
            ErrorKind::CerificateFileExpired => "Certificate file expired",
            ErrorKind::LicenseFileNotEncrypted => "License file not encrypted",
            ErrorKind::MachineNotFound => "Machine not found",
            ErrorKind::ProcessNotFound => "Process not found",
            ErrorKind::Unknown => "Unknown error",
            _ => "",
        }
    }
}

/// The kind that the failure `e` of the remote-API collaborator maps to.
pub open spec fn kind_of(e: &Error) -> ErrorKind {
    match e {
        Error::UnexpectedError(..) => ErrorKind::UnexpectedError,
        Error::InvalidUrl => ErrorKind::InvalidUrl,
        Error::SystemClockUnsynced => ErrorKind::SystemClockUnsynced,
        Error::DecryptionError(..) => ErrorKind::DecryptionError,
        Error::RateLimitExceeded { .. } => ErrorKind::RateLimitExceeded,
        Error::LicenseKeyMissing => ErrorKind::LicenseKeyMissing,
        Error::LicenseSchemeMissing => ErrorKind::LicenseSchemeMissing,
        Error::LicenseSchemeNotSupported => ErrorKind::LicenseSchemeNotSupported,
        Error::LicenseNotSigned => ErrorKind::LicenseNotSigned,
        Error::LicenseKeyNotGenuine => ErrorKind::LicenseKeyNotGenuine,
        Error::PublicKeyMissing => ErrorKind::PublicKeyMissing,
        Error::PublicKeyInvalid => ErrorKind::PublicKeyInvalid,
        Error::LicenseSchemeUnsupported => ErrorKind::LicenseSchemeUnsupported,
        Error::CerificateFileInvalid(..) => ErrorKind::CerificateFileInvalid,
        Error::CertificateFileNotGenuine(..) => ErrorKind::CertificateFileNotGenuine,
        Error::CertificateFileNotSupported(..) => ErrorKind::CertificateFileNotSupported,
        Error::CerificateFileExpired => ErrorKind::CerificateFileExpired,
        Error::LicenseFileInvalid(..) => ErrorKind::LicenseFileInvalid,
        Error::LicenseFileNotGenuine(..) => ErrorKind::LicenseFileNotGenuine,
        Error::LicenseFileNotSupported(..) => ErrorKind::LicenseFileNotSupported,
        Error::LicenseFileNotEncrypted => ErrorKind::LicenseFileNotEncrypted,
        Error::LicenseFileExpired(..) => ErrorKind::LicenseFileExpired,
        Error::MachineFileInvalid(..) => ErrorKind::MachineFileInvalid,
        Error::MachineFileNotGenuine(..) => ErrorKind::MachineFileNotGenuine,
        Error::MachineFileNotSupported(..) => ErrorKind::MachineFileNotSupported,
        Error::MachineFileExpired(..) => ErrorKind::MachineFileExpired,
        Error::KeygenApiError { .. } => ErrorKind::KeygenApiError,
        Error::TokenNotAllowed { .. } => ErrorKind::TokenNotAllowed,
        Error::TokenFormatInvalid { .. } => ErrorKind::TokenFormatInvalid,
        Error::TokenInvalid { .. } => ErrorKind::TokenInvalid,
        Error::TokenExpired { .. } => ErrorKind::TokenExpired,
        Error::LicenseSuspended { .. } => ErrorKind::LicenseSuspended,
        Error::LicenseExpired { .. } => ErrorKind::LicenseExpired,
        Error::LicenseNotAllowed { .. } => ErrorKind::LicenseNotAllowed,
        Error::LicenseNotActivated { .. } => ErrorKind::LicenseNotActivated,
        Error::LicenseKeyInvalid { .. } => ErrorKind::LicenseKeyInvalid,
        Error::LicenseTokenInvalid { .. } => ErrorKind::LicenseTokenInvalid,
        Error::LicenseTooManyMachines { .. } => ErrorKind::LicenseTooManyMachines,
        Error::LicenseTooManyCores { .. } => ErrorKind::LicenseTooManyCores,
        Error::LicenseTooManyProcesses { .. } => ErrorKind::LicenseTooManyProcesses,
        Error::MachineAlreadyActivated { .. } => ErrorKind::MachineAlreadyActivated,
        Error::MachineLimitExceeded { .. } => ErrorKind::MachineLimitExceeded,
        Error::MachineNotFound => ErrorKind::MachineNotFound,
        Error::ProcessLimitExceeded { .. } => ErrorKind::ProcessLimitExceeded,
        Error::ProcessNotFound => ErrorKind::ProcessNotFound,
        Error::ComponentConflict { .. } => ErrorKind::ComponentConflict,
        Error::ComponentAlreadyActivated { .. } => ErrorKind::ComponentAlreadyActivated,
        Error::ComponentNotActivated { .. } => ErrorKind::ComponentNotActivated,
        Error::EnvironmentError { .. } => ErrorKind::EnvironmentError,
        Error::HeartbeatDead { .. } => ErrorKind::HeartbeatDead,
        Error::HeartbeatPingFailed { .. } => ErrorKind::HeartbeatPingFailed,
        Error::HeartbeatRequired { .. } => ErrorKind::HeartbeatRequired,
        Error::ValidationFingerprintMissing { .. } => ErrorKind::ValidationFingerprintMissing,
        Error::ValidationComponentsMissing { .. } => ErrorKind::ValidationComponentsMissing,
        _ => ErrorKind::Unknown,
    }
}

/// The plain data of `e` is carried by `p` unchanged. Where `e` holds an
/// outside value (a response body, a license, a decrypted file), `p` holds that
/// value written as JSON text, which is not stated here.
pub open spec fn carries(e: &Error, p: &Payload) -> bool {
    match e {
        Error::UnexpectedError(d) => p == Payload::Text(*d),
        Error::InvalidUrl => p is Fixed,
        Error::SystemClockUnsynced => p is Fixed,
        Error::DecryptionError(d) => p == Payload::Text(*d),
        Error::RateLimitExceeded { window, count, limit, remaining, reset, retry_after } => p == (Payload::RateLimit {
            window: *window, count: *count, limit: *limit, remaining: *remaining, reset: *reset, retry_after: *retry_after,
        }),
        Error::LicenseKeyMissing => p is Fixed,
        Error::LicenseSchemeMissing => p is Fixed,
        Error::LicenseSchemeNotSupported => p is Fixed,
        Error::LicenseNotSigned => p is Fixed,
        Error::LicenseKeyNotGenuine => p is Fixed,
        Error::PublicKeyMissing => p is Fixed,
        Error::PublicKeyInvalid => p is Fixed,
        Error::LicenseSchemeUnsupported => p is Fixed,
        Error::CerificateFileInvalid(d) => p == Payload::Text(*d),
        Error::CertificateFileNotGenuine(d) => p == Payload::Text(*d),
        Error::CertificateFileNotSupported(d) => p == Payload::Text(*d),
        Error::CerificateFileExpired => p is Fixed,
        Error::LicenseFileInvalid(d) => p == Payload::Text(*d),
        Error::LicenseFileNotGenuine(d) => p == Payload::Text(*d),
        Error::LicenseFileNotSupported(d) => p == Payload::Text(*d),
        Error::LicenseFileNotEncrypted => p is Fixed,
        Error::LicenseFileExpired(_) => p is Snapshot,
        Error::MachineFileInvalid(d) => p == Payload::Text(*d),
        Error::MachineFileNotGenuine(d) => p == Payload::Text(*d),
        Error::MachineFileNotSupported(d) => p == Payload::Text(*d),
        Error::MachineFileExpired(_) => p is Snapshot,
        Error::KeygenApiError { code, detail, .. } => p matches Payload::Api { code: c, detail: d, .. } && c == *code && d == *detail,
        Error::TokenNotAllowed { code, detail } => p == (Payload::CodeDetail { code: *code, detail: *detail }),
        Error::TokenFormatInvalid { code, detail } => p == (Payload::CodeDetail { code: *code, detail: *detail }),
        Error::TokenInvalid { code, detail } => p == (Payload::CodeDetail { code: *code, detail: *detail }),
        Error::TokenExpired { code, detail } => p == (Payload::CodeDetail { code: *code, detail: *detail }),
        Error::LicenseSuspended { code, detail } => p == (Payload::CodeDetail { code: *code, detail: *detail }),
        Error::LicenseExpired { code, detail } => p == (Payload::CodeDetail { code: *code, detail: *detail }),
        Error::LicenseNotAllowed { code, detail } => p == (Payload::CodeDetail { code: *code, detail: *detail }),
        Error::LicenseNotActivated { code, detail, .. } => p matches Payload::NotActivated { code: c, detail: d, .. } && c == *code && d == *detail,
        Error::LicenseKeyInvalid { code, detail } => p == (Payload::CodeDetail { code: *code, detail: *detail }),
        Error::LicenseTokenInvalid { code, detail } => p == (Payload::CodeDetail { code: *code, detail: *detail }),
        Error::LicenseTooManyMachines { code, detail } => p == (Payload::CodeDetail { code: *code, detail: *detail }),
        Error::LicenseTooManyCores { code, detail } => p == (Payload::CodeDetail { code: *code, detail: *detail }),
        Error::LicenseTooManyProcesses { code, detail } => p == (Payload::CodeDetail { code: *code, detail: *detail }),
        Error::MachineAlreadyActivated { code, detail } => p == (Payload::CodeDetail { code: *code, detail: *detail }),
        Error::MachineLimitExceeded { code, detail } => p == (Payload::CodeDetail { code: *code, detail: *detail }),
        Error::MachineNotFound => p is Fixed,
        Error::ProcessLimitExceeded { code, detail } => p == (Payload::CodeDetail { code: *code, detail: *detail }),
        Error::ProcessNotFound => p is Fixed,
        Error::ComponentConflict { code, detail } => p == (Payload::CodeDetail { code: *code, detail: *detail }),
        Error::ComponentAlreadyActivated { code, detail } => p == (Payload::CodeDetail { code: *code, detail: *detail }),
        Error::ComponentNotActivated { code, detail } => p == (Payload::CodeDetail { code: *code, detail: *detail }),
        Error::EnvironmentError { code, detail } => p == (Payload::CodeDetail { code: *code, detail: *detail }),
        Error::HeartbeatDead { code, detail } => p == (Payload::CodeDetail { code: *code, detail: *detail }),
        Error::HeartbeatPingFailed { code, detail } => p == (Payload::CodeDetail { code: *code, detail: *detail }),
        Error::HeartbeatRequired { code, detail } => p == (Payload::CodeDetail { code: *code, detail: *detail }),
        Error::ValidationFingerprintMissing { code, detail } => p == (Payload::CodeDetail { code: *code, detail: *detail }),
        Error::ValidationComponentsMissing { code, detail } => p == (Payload::CodeDetail { code: *code, detail: *detail }),
        _ => p is Fixed,
    }
}

impl KeygenError {
    /// The failure of an encrypted payload whose segments cannot be decrypted.
    pub fn malformed_payload() -> (r: KeygenError)
        ensures
            r.kind == ErrorKind::DecryptionError,
    {
        KeygenError {
            kind: ErrorKind::DecryptionError,
            payload: Payload::Text(String::from_str("Invalid encrypted data format")),
        }
    }

    /// The failure of a license that carries no signature scheme.
    pub fn not_signed() -> (r: KeygenError)
        ensures
            r.kind == ErrorKind::LicenseNotSigned,
            r.payload is Fixed,
    {
        KeygenError { kind: ErrorKind::LicenseNotSigned, payload: Payload::Fixed }
    }

    /// Maps a failure of the remote-API collaborator to its kind here, keeping
    /// what it carries.
    pub fn from_error(value: Error) -> (r: KeygenError)
        ensures
            r.kind == kind_of(&value),
            carries(&value, &r.payload),
    {
        match value {
            Error::UnexpectedError(d) => KeygenError { kind: ErrorKind::UnexpectedError, payload: Payload::Text(d) },
            Error::InvalidUrl => KeygenError { kind: ErrorKind::InvalidUrl, payload: Payload::Fixed },
            Error::SystemClockUnsynced => KeygenError { kind: ErrorKind::SystemClockUnsynced, payload: Payload::Fixed },
            Error::DecryptionError(d) => KeygenError { kind: ErrorKind::DecryptionError, payload: Payload::Text(d) },
            Error::RateLimitExceeded { window, count, limit, remaining, reset, retry_after } => KeygenError {
                kind: ErrorKind::RateLimitExceeded,
                payload: Payload::RateLimit { window, count, limit, remaining, reset, retry_after },
            },
            Error::LicenseKeyMissing => KeygenError { kind: ErrorKind::LicenseKeyMissing, payload: Payload::Fixed },
            Error::LicenseSchemeMissing => KeygenError { kind: ErrorKind::LicenseSchemeMissing, payload: Payload::Fixed },
            Error::LicenseSchemeNotSupported => KeygenError { kind: ErrorKind::LicenseSchemeNotSupported, payload: Payload::Fixed },
            Error::LicenseNotSigned => KeygenError { kind: ErrorKind::LicenseNotSigned, payload: Payload::Fixed },
            Error::LicenseKeyNotGenuine => KeygenError { kind: ErrorKind::LicenseKeyNotGenuine, payload: Payload::Fixed },
            Error::PublicKeyMissing => KeygenError { kind: ErrorKind::PublicKeyMissing, payload: Payload::Fixed },
            Error::PublicKeyInvalid => KeygenError { kind: ErrorKind::PublicKeyInvalid, payload: Payload::Fixed },
            Error::LicenseSchemeUnsupported => KeygenError { kind: ErrorKind::LicenseSchemeUnsupported, payload: Payload::Fixed },
            Error::CerificateFileInvalid(d) => KeygenError { kind: ErrorKind::CerificateFileInvalid, payload: Payload::Text(d) },
            Error::CertificateFileNotGenuine(d) => KeygenError { kind: ErrorKind::CertificateFileNotGenuine, payload: Payload::Text(d) },
            Error::CertificateFileNotSupported(d) => KeygenError { kind: ErrorKind::CertificateFileNotSupported, payload: Payload::Text(d) },
            Error::CerificateFileExpired => KeygenError { kind: ErrorKind::CerificateFileExpired, payload: Payload::Fixed },
            Error::LicenseFileInvalid(d) => KeygenError { kind: ErrorKind::LicenseFileInvalid, payload: Payload::Text(d) },
            Error::LicenseFileNotGenuine(d) => KeygenError { kind: ErrorKind::LicenseFileNotGenuine, payload: Payload::Text(d) },
            Error::LicenseFileNotSupported(d) => KeygenError { kind: ErrorKind::LicenseFileNotSupported, payload: Payload::Text(d) },
            Error::LicenseFileNotEncrypted => KeygenError { kind: ErrorKind::LicenseFileNotEncrypted, payload: Payload::Fixed },
            Error::LicenseFileExpired(dataset) => KeygenError {
                kind: ErrorKind::LicenseFileExpired,
                payload: Payload::Snapshot(license_dataset_text(&dataset)),
            },
            Error::MachineFileInvalid(d) => KeygenError { kind: ErrorKind::MachineFileInvalid, payload: Payload::Text(d) },
            Error::MachineFileNotGenuine(d) => KeygenError { kind: ErrorKind::MachineFileNotGenuine, payload: Payload::Text(d) },
            Error::MachineFileNotSupported(d) => KeygenError { kind: ErrorKind::MachineFileNotSupported, payload: Payload::Text(d) },
            Error::MachineFileExpired(dataset) => KeygenError {
                kind: ErrorKind::MachineFileExpired,
                payload: Payload::Snapshot(machine_dataset_text(&dataset)),
            },
            Error::KeygenApiError { code, detail, body } => KeygenError {
                kind: ErrorKind::KeygenApiError,
                payload: Payload::Api { code, detail, body: value_text(&body) },
            },
            Error::TokenNotAllowed { code, detail } => KeygenError {
                kind: ErrorKind::TokenNotAllowed,
                payload: Payload::CodeDetail { code, detail },
            },
            Error::TokenFormatInvalid { code, detail } => KeygenError {
                kind: ErrorKind::TokenFormatInvalid,
                payload: Payload::CodeDetail { code, detail },
            },
            Error::TokenInvalid { code, detail } => KeygenError {
                kind: ErrorKind::TokenInvalid,
                payload: Payload::CodeDetail { code, detail },
            },
            Error::TokenExpired { code, detail } => KeygenError {
                kind: ErrorKind::TokenExpired,
                payload: Payload::CodeDetail { code, detail },
            },
            Error::LicenseSuspended { code, detail } => KeygenError {
                kind: ErrorKind::LicenseSuspended,
                payload: Payload::CodeDetail { code, detail },
            },
            Error::LicenseExpired { code, detail } => KeygenError {
                kind: ErrorKind::LicenseExpired,
                payload: Payload::CodeDetail { code, detail },
            },
            Error::LicenseNotAllowed { code, detail } => KeygenError {
                kind: ErrorKind::LicenseNotAllowed,
                payload: Payload::CodeDetail { code, detail },
            },
            Error::LicenseNotActivated { code, detail, license } => KeygenError {
                kind: ErrorKind::LicenseNotActivated,
                payload: Payload::NotActivated { code, detail, license: license_text(&license) },
            },
            Error::LicenseKeyInvalid { code, detail } => KeygenError {
                kind: ErrorKind::LicenseKeyInvalid,
                payload: Payload::CodeDetail { code, detail },
            },
            Error::LicenseTokenInvalid { code, detail } => KeygenError {
                kind: ErrorKind::LicenseTokenInvalid,
                payload: Payload::CodeDetail { code, detail },
            },
            Error::LicenseTooManyMachines { code, detail } => KeygenError {
                kind: ErrorKind::LicenseTooManyMachines,
                payload: Payload::CodeDetail { code, detail },
            },
            Error::LicenseTooManyCores { code, detail } => KeygenError {
                kind: ErrorKind::LicenseTooManyCores,
                payload: Payload::CodeDetail { code, detail },
            },
            Error::LicenseTooManyProcesses { code, detail } => KeygenError {
                kind: ErrorKind::LicenseTooManyProcesses,
                payload: Payload::CodeDetail { code, detail },
            },
            Error::MachineAlreadyActivated { code, detail } => KeygenError {
                kind: ErrorKind::MachineAlreadyActivated,
                payload: Payload::CodeDetail { code, detail },
            },
            Error::MachineLimitExceeded { code, detail } => KeygenError {
                kind: ErrorKind::MachineLimitExceeded,
                payload: Payload::CodeDetail { code, detail },
            },
            Error::MachineNotFound => KeygenError { kind: ErrorKind::MachineNotFound, payload: Payload::Fixed },
            Error::ProcessLimitExceeded { code, detail } => KeygenError {
                kind: ErrorKind::ProcessLimitExceeded,
                payload: Payload::CodeDetail { code, detail },
            },
            Error::ProcessNotFound => KeygenError { kind: ErrorKind::ProcessNotFound, payload: Payload::Fixed },
            Error::ComponentConflict { code, detail } => KeygenError {
                kind: ErrorKind::ComponentConflict,
                payload: Payload::CodeDetail { code, detail },
            },
            Error::ComponentAlreadyActivated { code, detail } => KeygenError {
                kind: ErrorKind::ComponentAlreadyActivated,
                payload: Payload::CodeDetail { code, detail },
            },
            Error::ComponentNotActivated { code, detail } => KeygenError {
                kind: ErrorKind::ComponentNotActivated,
                payload: Payload::CodeDetail { code, detail },
            },
            Error::EnvironmentError { code, detail } => KeygenError {
                kind: ErrorKind::EnvironmentError,
                payload: Payload::CodeDetail { code, detail },
            },
            Error::HeartbeatDead { code, detail } => KeygenError {
                kind: ErrorKind::HeartbeatDead,
                payload: Payload::CodeDetail { code, detail },
            },
            Error::HeartbeatPingFailed { code, detail } => KeygenError {
                kind: ErrorKind::HeartbeatPingFailed,
                payload: Payload::CodeDetail { code, detail },
            },
            Error::HeartbeatRequired { code, detail } => KeygenError {
                kind: ErrorKind::HeartbeatRequired,
                payload: Payload::CodeDetail { code, detail },
            },
            Error::ValidationFingerprintMissing { code, detail } => KeygenError {
                kind: ErrorKind::ValidationFingerprintMissing,
                payload: Payload::CodeDetail { code, detail },
            },
            Error::ValidationComponentsMissing { code, detail } => KeygenError {
                kind: ErrorKind::ValidationComponentsMissing,
                payload: Payload::CodeDetail { code, detail },
            },
            _ => KeygenError { kind: ErrorKind::Unknown, payload: Payload::Fixed },
        }
    }

    /// The description that travels with the failure: its kind and payload as
    /// one JSON object, `{"details":...,"type":"<kind>"}`.
    pub open spec fn message_spec(self) -> Seq<char> {
        if self.kind == ErrorKind::Unknown {
            "Unknown error"@
        } else {
            match self.details_spec() {
                Some(d) => "{\"details\":"@ + d + ",\"type\":\""@ + self.kind.name_spec() + "\"}"@,
                None => "Serialization error"@,
            }
        }
    }

    /// The payload as JSON text, or `None` where a part of it cannot be
    /// written.
    pub open spec fn details_spec(self) -> Option<Seq<char>> {
        match self.payload {
            Payload::Fixed => json_quoted(self.kind.fixed_detail_spec()),
            Payload::Text(d) => json_quoted(d@),
            Payload::RateLimit { window, count, limit, remaining, reset, retry_after } => {
                match json_quoted(window@) {
                    Some(w) => Some(
                        "{\"count\":"@ + decimal(count as nat) + ",\"limit\":"@ + decimal(limit as nat)
                            + ",\"remaining\":"@ + decimal(remaining as nat) + ",\"reset\":"@
                            + decimal(reset as nat) + ",\"retry_after\":"@ + decimal(retry_after as nat)
                            + ",\"window\":"@ + w + "}"@,
                    ),
                    None => None,
                }
            },
            Payload::CodeDetail { code, detail } => {
                match (json_quoted(code@), json_quoted(detail@)) {
                    (Some(c), Some(d)) => Some("{\"code\":"@ + c + ",\"detail\":"@ + d + "}"@),
                    _ => None,
                }
            },
            Payload::Api { code, detail, body } => {
                match (opt_view(body), json_quoted(code@), json_quoted(detail@)) {
                    (Some(b), Some(c), Some(d)) => Some(
                        "{\"body\":"@ + b + ",\"code\":"@ + c + ",\"detail\":"@ + d + "}"@,
                    ),
                    _ => None,
                }
            },
            Payload::NotActivated { code, detail, license } => {
                match (json_quoted(code@), json_quoted(detail@), opt_view(license)) {
                    (Some(c), Some(d), Some(l)) => Some(
                        "{\"code\":"@ + c + ",\"detail\":"@ + d + ",\"license\":"@ + l + "}"@,
                    ),
                    _ => None,
                }
            },
            Payload::Snapshot(t) => opt_view(t),
        }
    }

    fn details(&self) -> (r: Option<String>)
        ensures
            opt_view(r) == self.details_spec(),
    {
        match &self.payload {
            Payload::Fixed => quote(self.kind.fixed_detail()),
            Payload::Text(d) => quote(d.as_str()),
            Payload::RateLimit { window, count, limit, remaining, reset, retry_after } => {
                match quote(window.as_str()) {
                    Some(w) => {
                        let mut s = String::from_str("{\"count\":");
                        s.append(decimal_text(*count as u64).as_str());
                        s.append(",\"limit\":");
                        s.append(decimal_text(*limit as u64).as_str());
                        s.append(",\"remaining\":");
                        s.append(decimal_text(*remaining as u64).as_str());
                        s.append(",\"reset\":");
                        s.append(decimal_text(*reset).as_str());
                        s.append(",\"retry_after\":");
                        s.append(decimal_text(*retry_after).as_str());
                        s.append(",\"window\":");
                        s.append(w.as_str());
                        s.append("}");
                        Some(s)
                    },
                    None => None,
                }
            },
            Payload::CodeDetail { code, detail } => {
                match (quote(code.as_str()), quote(detail.as_str())) {
                    (Some(c), Some(d)) => {
                        let mut s = String::from_str("{\"code\":");
                        s.append(c.as_str());
                        s.append(",\"detail\":");
                        s.append(d.as_str());
                        s.append("}");
                        Some(s)
                    },
                    _ => None,
                }
            },
            Payload::Api { code, detail, body } => {
                match (body, quote(code.as_str()), quote(detail.as_str())) {
                    (Some(b), Some(c), Some(d)) => {
                        let mut s = String::from_str("{\"body\":");
                        s.append(b.as_str());
                        s.append(",\"code\":");
                        s.append(c.as_str());
                        s.append(",\"detail\":");
                        s.append(d.as_str());
                        s.append("}");
                        Some(s)
                    },
                    _ => None,
                }
            },
            Payload::NotActivated { code, detail, license } => {
                match (quote(code.as_str()), quote(detail.as_str()), license) {
                    (Some(c), Some(d), Some(l)) => {
                        let mut s = String::from_str("{\"code\":");
                        s.append(c.as_str());
                        s.append(",\"detail\":");
                        s.append(d.as_str());
                        s.append(",\"license\":");
                        s.append(l.as_str());
                        s.append("}");
                        Some(s)
                    },
                    _ => None,
                }
            },
            Payload::Snapshot(t) => t.clone(),
        }
    }

    /// The description that travels with the failure across a process or
    /// language boundary.
    pub fn message(&self) -> (r: String)
        ensures
            r@ == self.message_spec(),
    {
        if self.kind == ErrorKind::Unknown {
            return String::from_str("Unknown error");
        }
        match self.details() {
            Some(d) => {
                let mut s = String::from_str("{\"details\":");
                s.append(d.as_str());
                s.append(",\"type\":\"");
                s.append(self.kind.name());
                s.append("\"}");
                s
            },
            None => String::from_str("Serialization error"),
        }
    }
}

/// Relies on serde_json::to_value on keygen_rs's License: the license as a JSON
/// value, or `None` when serde_json reports an error.
#[verifier::external_body]
fn license_value(l: &keygen_rs::license::License) -> (r: Option<serde_json::Value>)
{
    serde_json::to_value(l).ok()
}

/// Relies on serde_json::to_value on keygen_rs's LicenseFileDataset.
#[verifier::external_body]
fn license_dataset_value(d: &keygen_rs::license_file::LicenseFileDataset) -> (r: Option<serde_json::Value>)
{
    serde_json::to_value(d).ok()
}

/// Relies on serde_json::to_value on keygen_rs's MachineFileDataset.
#[verifier::external_body]
fn machine_dataset_value(d: &keygen_rs::machine_file::MachineFileDataset) -> (r: Option<serde_json::Value>)
{
    serde_json::to_value(d).ok()
}

fn license_text(l: &keygen_rs::license::License) -> Option<String> {
    match license_value(l) {
        Some(v) => value_text(&v),
        None => None,
    }
}

fn license_dataset_text(d: &keygen_rs::license_file::LicenseFileDataset) -> Option<String> {
    match license_dataset_value(d) {
        Some(v) => value_text(&v),
        None => None,
    }
}

fn machine_dataset_text(d: &keygen_rs::machine_file::MachineFileDataset) -> Option<String> {
    match machine_dataset_value(d) {
        Some(v) => value_text(&v),
        None => None,
    }
}

} // verus!

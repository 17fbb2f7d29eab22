use vstd::prelude::*;
use vstd::string::*;
use crate::errors::{ErrorKind, KeygenError, Payload};
use crate::license::SchemeCode;

verus! {

/// The frame of a signed offline file: its encoded payload, the encoded
/// signature over it, and the name of the algorithm.
#[derive(Clone, Debug)]
pub struct Certificate {
    enc: String,
    sig: String,
    alg: String,
}

/// What a `Certificate` holds, as plain values.
pub struct CertificateView {
    pub enc: Seq<char>,
    pub sig: Seq<char>,
    pub alg: Seq<char>,
}

impl View for Certificate {
    type V = CertificateView;

    closed spec fn view(&self) -> CertificateView {
        CertificateView {
            enc: self.enc@,
            sig: self.sig@,
            alg: self.alg@,
        }
    }
}

impl Certificate {
    /// The encoded, possibly encrypted, payload.
    pub fn enc(&self) -> (r: String)
        ensures
            r@ == self@.enc,
    {
        self.enc.clone()
    }

    /// The encoded signature over the payload.
    pub fn sig(&self) -> (r: String)
        ensures
            r@ == self@.sig,
    {
        self.sig.clone()
    }

    /// The name of the signing and encryption algorithm.
    pub fn alg(&self) -> (r: String)
        ensures
            r@ == self@.alg,
    {
        self.alg.clone()
    }
}

impl Certificate {
    /// Builds the record from its values.
    pub fn build(enc: String, sig: String, alg: String) -> (r: Certificate)
        ensures
            r@.enc == enc@,
            r@.sig == sig@,
            r@.alg == alg@,
    {
        Certificate { enc, sig, alg }
    }
}

/// The algorithm name `alg` signs with Ed25519: it ends in `+ed25519`, as
/// `aes-256-gcm+ed25519` and `base64+ed25519` do.
pub open spec fn names_ed25519(alg: Seq<char>) -> bool {
    alg.len() >= 8 && alg.subrange(alg.len() - 8, alg.len() as int) == "+ed25519"@
}

/// A license whose scheme is `scheme` may stand behind a certificate signed
/// with `alg`: either the license names no scheme, or the algorithm signs with
/// that scheme.
pub open spec fn scheme_admits(scheme: Option<SchemeCode>, alg: Seq<char>) -> bool {
    match scheme {
        None => true,
        Some(SchemeCode::Ed25519Sign) => names_ed25519(alg),
    }
}

/// The algorithm that encrypts with AES-256-GCM and signs with Ed25519: the
/// one under which a payload is decrypted.
pub open spec fn encrypting_alg(alg: Seq<char>) -> bool {
    alg == "aes-256-gcm+ed25519"@
}

/// The encrypting algorithms that sign with RSA, which are not supported.
pub open spec fn unsupported_alg(alg: Seq<char>) -> bool {
    alg == "aes-256-gcm+rsa-pss-sha256"@ || alg == "aes-256-gcm+rsa-sha256"@
}

/// A frame that names the encrypting algorithm.
pub open spec fn names_encrypting(frame: Option<(Seq<char>, Seq<char>, Seq<char>)>) -> bool {
    frame matches Some((_, _, a)) && encrypting_alg(a)
}

/// A frame whose payload may be handed to decryption: one that does not name
/// the encrypting algorithm, or one whose IV segment fits a nonce.
pub open spec fn payload_decryptable(frame: Option<(Seq<char>, Seq<char>, Seq<char>)>) -> bool {
    match frame {
        Some((e, _, a)) => encrypting_alg(a) ==> iv_fits(e),
        None => true,
    }
}

/// Whether `a` and `b` hold the same characters.
pub fn same_text(a: &str, b: &str) -> (r: bool)
    ensures
        r == (a@ == b@),
{
    let n = a.unicode_len();
    if n != b.unicode_len() {
        return false;
    }
    let mut i: usize = 0;
    while i < n
        invariant
            n == a@.len(),
            n == b@.len(),
            i <= n,
            a@.subrange(0, i as int) =~= b@.subrange(0, i as int),
        decreases n - i,
    {
        if a.get_char(i) != b.get_char(i) {
            assert(a@[i as int] != b@[i as int]);
            return false;
        }
        i = i + 1;
        assert(a@.subrange(0, i as int) =~= b@.subrange(0, i as int));
    }
    assert(a@ =~= a@.subrange(0, n as int));
    assert(b@ =~= b@.subrange(0, n as int));
    true
}

/// Whether `alg` is the encrypting algorithm.
pub fn is_encrypting_alg(alg: &str) -> (r: bool)
    ensures
        r == encrypting_alg(alg@),
{
    same_text(alg, "aes-256-gcm+ed25519")
}

fn ends_with_ed25519(alg: &str) -> (r: bool)
    ensures
        r == names_ed25519(alg@),
{
    let suffix = "+ed25519";
    proof {
        reveal_strlit("+ed25519");
    }
    let n = alg.unicode_len();
    if n < 8 {
        return false;
    }
    let start = n - 8;
    let mut i: usize = 0;
    while i < 8
        invariant
            n == alg@.len(),
            start == n - 8,
            suffix@ == "+ed25519"@,
            suffix@.len() == 8,
            i <= 8,
            alg@.subrange(start as int, start + i) =~= suffix@.subrange(0, i as int),
        decreases 8 - i,
    {
        if alg.get_char(start + i) != suffix.get_char(i) {
            assert(alg@.subrange(start as int, n as int)[i as int] != suffix@[i as int]);
            return false;
        }
        i = i + 1;
        assert(alg@.subrange(start as int, start + i) =~= suffix@.subrange(0, i as int));
    }
    assert(suffix@.subrange(0, 8) =~= suffix@);
    true
}

/// Rejects a certificate whose algorithm does not sign with the scheme of the
/// license behind it, as a certificate that is not genuine; a license that
/// names no scheme admits any algorithm.
pub fn check_scheme(scheme: Option<SchemeCode>, cert: &Certificate) -> (r: Result<(), KeygenError>)
    ensures
        r is Ok <==> scheme_admits(scheme, cert@.alg),
        r matches Err(e) ==> e.kind == ErrorKind::CertificateFileNotGenuine,
{
    let admitted = match scheme {
        None => true,
        Some(SchemeCode::Ed25519Sign) => ends_with_ed25519(cert.alg.as_str()),
    };
    if admitted {
        Ok(())
    } else {
        Err(KeygenError {
            kind: ErrorKind::CertificateFileNotGenuine,
            payload: Payload::Text(String::from_str("certificate algorithm does not match the license scheme")),
        })
    }
}

/// A `.` at `i` and at `i + 17` are the only separators of the encrypted
/// payload `enc`, and none of the sixteen characters between them is the
/// padding character `=`.
pub open spec fn iv_segment_at(enc: Seq<char>, i: int) -> bool {
    &&& 0 <= i && i + 17 < enc.len()
    &&& enc[i] == '.' && enc[i + 17] == '.'
    &&& forall|k: int| 0 <= k < enc.len() && k != i && k != i + 17 ==> enc[k] != '.'
    &&& forall|k: int| i < k < i + 17 ==> enc[k] != '='
}

/// The encrypted payload `enc` has the three `.`-separated segments
/// ciphertext, IV and tag, and its IV segment is sixteen base64 characters
/// without padding, which decode to the twelve bytes of a nonce when they
/// decode at all.
pub open spec fn iv_fits(enc: Seq<char>) -> bool {
    exists|i: int| iv_segment_at(enc, i)
}

/// Whether the IV segment of the encrypted payload `enc` fits a nonce.
pub fn iv_segment_fits(enc: &str) -> (r: bool)
    ensures
        r == iv_fits(enc@),
{
    let n = enc.unicode_len();
    // The first separator.
    let mut f: usize = 0;
    while f < n && enc.get_char(f) != '.'
        invariant
            n == enc@.len(),
            f <= n,
            forall|k: int| 0 <= k < f ==> enc@[k] != '.',
        decreases n - f,
    {
        f = f + 1;
    }
    if f == n {
        assert(!iv_fits(enc@)) by {
            if exists|i: int| iv_segment_at(enc@, i) {
                let i = choose|i: int| iv_segment_at(enc@, i);
                assert(enc@[i] == '.');
            }
        }
        return false;
    }
    // The second separator.
    let mut s: usize = f + 1;
    while s < n && enc.get_char(s) != '.'
        invariant
            n == enc@.len(),
            f < n,
            enc@[f as int] == '.',
            f < s <= n,
            forall|k: int| 0 <= k < f ==> enc@[k] != '.',
            forall|k: int| f < k < s ==> enc@[k] != '.',
        decreases n - s,
    {
        s = s + 1;
    }
    // Where the payload frames at all, its separators are `f` and `s`.
    assert(forall|i: int| iv_segment_at(enc@, i) ==> i == f && s == i + 17) by {
        assert forall|i: int| iv_segment_at(enc@, i) implies i == f && s == i + 17 by {
            if f < i {
                assert(enc@[f as int] == '.');
            }
            if i < f {
                assert(enc@[i] == '.');
            }
            if s < i + 17 {
                if s < n {
                    assert(enc@[s as int] == '.');
                }
            }
            if i + 17 < s {
                assert(enc@[i + 17] == '.');
            }
        }
    }
    if s == n || s - f != 17 {
        return false;
    }
    // No further separator.
    let mut j: usize = s + 1;
    while j < n
        invariant
            n == enc@.len(),
            s + 1 <= j <= n,
            s == f + 17,
            forall|i: int| iv_segment_at(enc@, i) ==> i == f,
            forall|k: int| s < k < j ==> enc@[k] != '.',
        decreases n - j,
    {
        if enc.get_char(j) == '.' {
            assert(!iv_fits(enc@)) by {
                if exists|i: int| iv_segment_at(enc@, i) {
                    let i = choose|i: int| iv_segment_at(enc@, i);
                    assert(enc@[j as int] == '.');
                }
            }
            return false;
        }
        j = j + 1;
    }
    // No padding in the IV segment.
    let mut m: usize = f + 1;
    while m < s
        invariant
            n == enc@.len(),
            f < m <= s,
            s == f + 17,
            s < n,
            forall|i: int| iv_segment_at(enc@, i) ==> i == f,
            forall|k: int| f < k < m ==> enc@[k] != '=',
        decreases s - m,
    {
        if enc.get_char(m) == '=' {
            assert(!iv_fits(enc@)) by {
                if exists|i: int| iv_segment_at(enc@, i) {
                    let i = choose|i: int| iv_segment_at(enc@, i);
                    assert(enc@[m as int] == '=');
                }
            }
            return false;
        }
        m = m + 1;
    }
    assert(iv_segment_at(enc@, f as int));
    true
}

} // verus!

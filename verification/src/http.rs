//! The HTTPS client's side of certificate pinning: reading a fingerprint,
//! holding a server certificate against it, and describing the request that
//! is to be sent.

use sha2::{Digest, Sha256};
use vstd::prelude::*;
use vstd::string::StringSliceAdditionalSpecFns;

verus! {

/// Why a text is no fingerprint.
#[derive(Clone, Copy, Debug, PartialEq, Eq)]
pub enum FingerprintError {
    /// A character that is no hexadecimal digit, and its place in the text
    /// once the colons are taken out.
    InvalidHexCharacter { c: char, index: usize },
    /// The digits do not pair up to bytes.
    OddLength,
    /// The digits do not fill a container of fixed size.
    InvalidStringLength,
}

pub const COLON: u8 = 0x3a;

/// The value of a hexadecimal digit in either case, `None` for any other
/// character.
pub open spec fn hex_digit(c: u8) -> Option<u8> {
    if 0x30 <= c <= 0x39 {
        Some((c - 0x30) as u8)
    } else if 0x41 <= c <= 0x46 {
        Some((c - 0x41 + 10) as u8)
    } else if 0x61 <= c <= 0x66 {
        Some((c - 0x61 + 10) as u8)
    } else {
        None
    }
}

/// The place of the first character of a text that is no hexadecimal digit.
pub open spec fn first_non_hex(text: Seq<u8>) -> Option<int>
    decreases text.len(),
{
    if text.len() == 0 {
        None
    } else if hex_digit(text[0]) is None {
        Some(0)
    } else {
        match first_non_hex(text.drop_first()) {
            Some(index) => Some(index + 1),
            None => None,
        }
    }
}

/// The bytes that a text of hexadecimal digits spells, two digits to the
/// byte, the high digit first.
pub open spec fn hex_bytes(text: Seq<u8>) -> Seq<u8> {
    Seq::new(
        (text.len() / 2) as nat,
        |i: int| (hex_digit(text[2 * i])->0 * 16 + hex_digit(text[2 * i + 1])->0) as u8,
    )
}

/// What decoding a text of hexadecimal digits gives: an odd number of
/// characters is refused first, then the first character that is no digit;
/// any other text spells bytes.
pub open spec fn hex_decoded(text: Seq<u8>) -> Result<Seq<u8>, FingerprintError> {
    if text.len() % 2 != 0 {
        Err(FingerprintError::OddLength)
    } else {
        match first_non_hex(text) {
            Some(index) => Err(
                FingerprintError::InvalidHexCharacter {
                    c: text[index] as char,
                    index: index as usize,
                },
            ),
            None => Ok(hex_bytes(text)),
        }
    }
}

/// A text with its colons taken out.
pub open spec fn without_colons(text: Seq<u8>) -> Seq<u8> {
    text.filter(|c: u8| c != COLON)
}

/// What a fingerprint text pins: the bytes that its hexadecimal digits
/// spell, colons anywhere in it being left aside.
pub open spec fn fingerprint_of(text: Seq<u8>) -> Result<Seq<u8>, FingerprintError> {
    hex_decoded(without_colons(text))
}

/// The SHA-256 digest of a sequence of bytes.
pub uninterp spec fn sha256(data: Seq<u8>) -> Seq<u8>;

/// Calls `hex::decode`. The crate refuses a text of odd length, then the
/// first character that is not one of `0-9`, `a-f`, `A-F`, naming that
/// character and its index; otherwise it turns each pair of digits into one
/// byte, the first digit being the high half. It reports
/// `InvalidStringLength` only for containers of fixed size, never here.
#[verifier::external_body]
fn decode_hex(text: &[u8]) -> (decoded: Result<Vec<u8>, FingerprintError>)
    ensures
        match decoded {
            Ok(bytes) => hex_decoded(text@) == Ok::<Seq<u8>, FingerprintError>(bytes@),
            Err(error) => hex_decoded(text@) == Err::<Seq<u8>, FingerprintError>(error),
        },
{
    match hex::decode(text) {
        Ok(bytes) => Ok(bytes),
        Err(hex::FromHexError::InvalidHexCharacter { c, index }) => {
            Err(FingerprintError::InvalidHexCharacter { c, index })
        },
        Err(hex::FromHexError::OddLength) => Err(FingerprintError::OddLength),
        Err(hex::FromHexError::InvalidStringLength) => Err(FingerprintError::InvalidStringLength),
    }
}

/// Calls `Sha256::digest` of the crate `sha2`, which hashes the whole input
/// in one go. The result is the SHA-256 digest of the bytes given.
#[verifier::external_body]
fn sha256_digest(data: &[u8]) -> (digest: Vec<u8>)
    ensures
        digest@ == sha256(data@),
{
    Sha256::digest(data).to_vec()
}

/// Copies a text, leaving its colons out.
fn strip_colons(text: &[u8]) -> (stripped: Vec<u8>)
    ensures
        stripped@ == without_colons(text@),
{
    let mut stripped: Vec<u8> = Vec::new();
    let mut i: usize = 0;
    proof {
        reveal(Seq::filter);
    }
    while i < text.len()
        invariant
            i <= text.len(),
            stripped@ == without_colons(text@.take(i as int)),
        decreases text.len() - i,
    {
        let c = text[i];
        proof {
            reveal(Seq::filter);
            assert(text@.take(i + 1).drop_last() == text@.take(i as int));
        }
        if c != COLON {
            stripped.push(c);
        }
        i += 1;
    }
    proof {
        assert(text@.take(text.len() as int) == text@);
    }
    stripped
}

/// Whether two sequences of bytes are the same, byte for byte.
fn same_bytes(left: &[u8], right: &[u8]) -> (same: bool)
    ensures
        same == (left@ == right@),
{
    if left.len() != right.len() {
        return false;
    }
    let mut i: usize = 0;
    while i < left.len()
        invariant
            i <= left.len(),
            left.len() == right.len(),
            left@.take(i as int) == right@.take(i as int),
        decreases left.len() - i,
    {
        if left[i] != right[i] {
            return false;
        }
        proof {
            assert(left@.take(i + 1) == left@.take(i as int).push(left@[i as int]));
            assert(right@.take(i + 1) == right@.take(i as int).push(right@[i as int]));
        }
        i += 1;
    }
    proof {
        assert(left@.take(left.len() as int) == left@);
        assert(right@.take(right.len() as int) == right@);
    }
    true
}

/// The message for a certificate that is not the pinned one.
pub const ERR_FINGERPRINT_MISMATCH: &'static str = "Fingerprint did not match!";

/// A server certificate whose digest is not the pinned one.
#[derive(Clone, Copy, Debug, PartialEq, Eq, Structural)]
pub struct FingerprintMismatch;

impl FingerprintMismatch {
    pub fn message(&self) -> (text: &'static str)
        ensures
            text == ERR_FINGERPRINT_MISMATCH,
    {
        ERR_FINGERPRINT_MISMATCH
    }
}

/// A pinned certificate: the SHA-256 digest that the server's certificate
/// has to have.
#[derive(Clone, Debug, PartialEq, Eq)]
pub struct VerifyCertFingerprint {
    cert_fingerprint: Vec<u8>,
}

impl View for VerifyCertFingerprint {
    type V = Seq<u8>;

    closed spec fn view(&self) -> Seq<u8> {
        self.cert_fingerprint@
    }
}

impl VerifyCertFingerprint {
    /// Reads a fingerprint as operators write it: hexadecimal digits in
    /// either case, with or without colons between them.
    pub fn new(cert_fingerprint: &str) -> (pin: Result<VerifyCertFingerprint, FingerprintError>)
        ensures
            match pin {
                Ok(pin) => fingerprint_of(cert_fingerprint.spec_bytes()) == Ok::<
                    Seq<u8>,
                    FingerprintError,
                >(pin@),
                Err(error) => fingerprint_of(cert_fingerprint.spec_bytes()) == Err::<
                    Seq<u8>,
                    FingerprintError,
                >(error),
            },
    {
        let sanitized = strip_colons(cert_fingerprint.as_bytes());
        match decode_hex(sanitized.as_slice()) {
            Ok(decoded) => Ok(VerifyCertFingerprint { cert_fingerprint: decoded }),
            Err(error) => Err(error),
        }
    }

    /// The pinned digest.
    pub fn as_bytes(&self) -> (bytes: &[u8])
        ensures
            bytes@ == self@,
    {
        self.cert_fingerprint.as_slice()
    }

    /// Whether a digest is the pinned one: the same length and the same
    /// bytes.
    pub fn matches_digest(&self, digest: &[u8]) -> (matches: bool)
        ensures
            matches == (digest@ == self@),
    {
        same_bytes(digest, self.cert_fingerprint.as_slice())
    }

    /// Holds a server's certificate, in its encoded form, against the pin:
    /// the certificate passes if its SHA-256 digest is the pinned one, and
    /// is refused otherwise. Nothing else about the certificate is looked
    /// at.
    pub fn verify_server_cert(&self, end_entity: &[u8]) -> (verdict: Result<
        (),
        FingerprintMismatch,
    >)
        ensures
            verdict is Ok <==> sha256(end_entity@) == self@,
    {
        let digest = sha256_digest(end_entity);
        if self.matches_digest(digest.as_slice()) {
            Ok(())
        } else {
            Err(FingerprintMismatch)
        }
    }
}

/// How the client makes sure of the server it talks to.
#[derive(Clone, Debug, PartialEq, Eq)]
pub enum CertificateCheck {
    /// The certificate chain is validated against the certificates that
    /// the platform trusts.
    TrustStore,
    /// Chain and host name are not looked at; the server's certificate has
    /// to be the pinned one.
    Fingerprint(VerifyCertFingerprint),
}

impl CertificateCheck {
    /// The digest that a check pins, if it pins one.
    pub open spec fn pinned(self) -> Option<Seq<u8>> {
        match self {
            CertificateCheck::TrustStore => None,
            CertificateCheck::Fingerprint(pin) => Some(pin@),
        }
    }

    /// The digest to pin for the fingerprint an operator gave, none where
    /// no fingerprint was given; or why the fingerprint cannot be read.
    pub open spec fn selected(fingerprint: Option<&str>) -> Result<
        Option<Seq<u8>>,
        FingerprintError,
    > {
        match fingerprint {
            None => Ok(None),
            Some(text) => match fingerprint_of(text.spec_bytes()) {
                Ok(bytes) => Ok(Some(bytes)),
                Err(error) => Err(error),
            },
        }
    }

    /// Picks how the server of a connection is made sure of: by the pin if
    /// a fingerprint was given, by the platform's trust store if none was.
    /// A fingerprint that cannot be read is an error and never falls back
    /// to the trust store.
    pub fn select(fingerprint: Option<&str>) -> (check: Result<CertificateCheck, FingerprintError>)
        ensures
            match CertificateCheck::selected(fingerprint) {
                Ok(pinned) => check matches Ok(check) && check.pinned() == pinned,
                Err(error) => check == Err::<CertificateCheck, FingerprintError>(error),
            },
    {
        match fingerprint {
            None => Ok(CertificateCheck::TrustStore),
            Some(text) => match VerifyCertFingerprint::new(text) {
                Ok(pin) => Ok(CertificateCheck::Fingerprint(pin)),
                Err(error) => Err(error),
            },
        }
    }
}

/// The seconds a request may take as a whole.
pub const REQUEST_TIMEOUT_SECS: u64 = 60;

/// The content type that a payload is sent with.
pub const JSON_CONTENT_TYPE: &'static str = "application/json; charset=utf-8";

/// The payload of a request.
#[derive(Clone, Debug, PartialEq, Eq)]
pub enum Body {
    /// A GET request, which sends nothing.
    Empty,
    /// A POST request with a JSON document.
    Json(String),
}

/// A request, ready to be sent: where to, what, how the server is checked
/// and how long the whole exchange may take.
#[derive(Clone, Debug, PartialEq, Eq)]
pub struct Request {
    pub url: String,
    pub body: Body,
    pub check: CertificateCheck,
    pub timeout_secs: u64,
}

impl Request {
    /// Whether a request is the one to send for the given URL, pin and
    /// payload: to that URL, with that payload, the server held against
    /// the pin if there is one, and within the fixed timeout.
    pub open spec fn is_for(self, url: &str, pinned: Option<Seq<u8>>, body: Body) -> bool {
        &&& self.url@ == url@
        &&& self.body == body
        &&& self.check.pinned() == pinned
        &&& self.timeout_secs == REQUEST_TIMEOUT_SECS
    }

    /// The value of the `Content-Type` header, for a request that has one.
    pub fn content_type(&self) -> (content_type: Option<&'static str>)
        ensures
            self.body is Empty ==> content_type is None,
            self.body is Json ==> content_type == Some(JSON_CONTENT_TYPE),
    {
        match &self.body {
            Body::Empty => None,
            Body::Json(_) => Some(JSON_CONTENT_TYPE),
        }
    }
}

/// What the two kinds of request have in common: the certificate check is
/// picked first, and nothing is to be sent if the fingerprint cannot be
/// read.
fn prepare(url: &str, fingerprint: Option<&str>, body: Body) -> (request: Result<
    Request,
    FingerprintError,
>)
    ensures
        match CertificateCheck::selected(fingerprint) {
            Ok(pinned) => request matches Ok(request) && request.is_for(url, pinned, body),
            Err(error) => request == Err::<Request, FingerprintError>(error),
        },
{
    match CertificateCheck::select(fingerprint) {
        Ok(check) => Ok(
            Request { url: url.to_owned(), body, check, timeout_secs: REQUEST_TIMEOUT_SECS },
        ),
        Err(error) => Err(error),
    }
}

/// Describes the GET request for a URL: no payload, the fixed timeout, and
/// the certificate check that goes with the fingerprint.
pub fn prepare_get(url: &str, fingerprint: Option<&str>) -> (request: Result<
    Request,
    FingerprintError,
>)
    ensures
        match CertificateCheck::selected(fingerprint) {
            Ok(pinned) => request matches Ok(request) && request.is_for(url, pinned, Body::Empty),
            Err(error) => request == Err::<Request, FingerprintError>(error),
        },
{
    prepare(url, fingerprint, Body::Empty)
}

/// Describes the POST request that sends a JSON document to a URL: the
/// payload as given, the fixed timeout, and the certificate check that goes
/// with the fingerprint.
pub fn prepare_post(url: &str, fingerprint: Option<&str>, payload: String) -> (request: Result<
    Request,
    FingerprintError,
>)
    ensures
        match CertificateCheck::selected(fingerprint) {
            Ok(pinned) => request matches Ok(request) && request.is_for(
                url,
                pinned,
                Body::Json(payload),
            ),
            Err(error) => request == Err::<Request, FingerprintError>(error),
        },
{
    prepare(url, fingerprint, Body::Json(payload))
}

/// An upper-case letter turned into its lower-case form; any other
/// character as it is.
pub open spec fn lower_case(c: u8) -> u8 {
    if 0x41 <= c <= 0x5a {
        (c + 0x20) as u8
    } else {
        c
    }
}

/// A fingerprint text reduced to what counts: colons out, letters in lower
/// case.
pub open spec fn normalized(text: Seq<u8>) -> Seq<u8> {
    without_colons(text).map_values(|c: u8| lower_case(c))
}

/// `first_non_hex` finds nothing exactly in a text made of hexadecimal
/// digits alone, and otherwise finds a character that is none, before which
/// all are.
proof fn first_non_hex_is_first(text: Seq<u8>)
    ensures
        first_non_hex(text) is None <==> forall|i: int|
            0 <= i < text.len() ==> hex_digit(#[trigger] text[i]) is Some,
        first_non_hex(text) matches Some(index) ==> {
            &&& 0 <= index < text.len()
            &&& hex_digit(text[index]) is None
            &&& forall|i: int| 0 <= i < index ==> hex_digit(#[trigger] text[i]) is Some
        },
    decreases text.len(),
{
    if text.len() > 0 {
        let rest = text.drop_first();
        first_non_hex_is_first(rest);
        assert(forall|i: int| 0 <= i < rest.len() ==> rest[i] == text[i + 1]);
        if hex_digit(text[0]) is Some {
            match first_non_hex(rest) {
                Some(index) => {
                    assert(rest[index] == text[index + 1]);
                    assert forall|i: int| 0 <= i < index + 1 implies hex_digit(
                        #[trigger] text[i],
                    ) is Some by {
                        if i > 0 {
                            assert(text[i] == rest[i - 1]);
                        }
                    }
                },
                None => {
                    assert forall|i: int| 0 <= i < text.len() implies hex_digit(
                        #[trigger] text[i],
                    ) is Some by {
                        if i > 0 {
                            assert(text[i] == rest[i - 1]);
                        }
                    }
                },
            }
        }
    }
}

/// Fingerprints are read without regard to colons and to the case of
/// letters: two texts that are the same once colons are taken out and
/// letters are put in lower case are both fingerprints or both none, and as
/// fingerprints pin the same digest.
pub proof fn fingerprint_ignores_colons_and_case(first: Seq<u8>, second: Seq<u8>)
    requires
        normalized(first) == normalized(second),
    ensures
        fingerprint_of(first) is Ok <==> fingerprint_of(second) is Ok,
        fingerprint_of(first) is Ok ==> fingerprint_of(first) == fingerprint_of(second),
{
    let a = without_colons(first);
    let b = without_colons(second);
    assert(a.len() == b.len()) by {
        assert(normalized(first).len() == a.len());
        assert(normalized(second).len() == b.len());
    }
    assert forall|i: int| 0 <= i < a.len() implies hex_digit(#[trigger] a[i]) == hex_digit(
        b[i],
    ) by {
        assert(normalized(first)[i] == lower_case(a[i]));
        assert(normalized(second)[i] == lower_case(b[i]));
    }
    first_non_hex_is_first(a);
    first_non_hex_is_first(b);
    if fingerprint_of(first) is Ok {
        assert forall|i: int| 0 <= i < b.len() implies hex_digit(#[trigger] b[i]) is Some by {
            assert(hex_digit(a[i]) is Some);
        }
        assert(hex_bytes(a) =~= hex_bytes(b));
    }
    if fingerprint_of(second) is Ok {
        assert forall|i: int| 0 <= i < a.len() implies hex_digit(#[trigger] a[i]) is Some by {
            assert(hex_digit(b[i]) is Some);
        }
    }
}

/// Fingerprints that pin the same digest are the same text, colons and the
/// case of letters left aside: a fingerprint that differs from another in
/// a single digit already pins another digest.
pub proof fn different_fingerprints_pin_different_digests(first: Seq<u8>, second: Seq<u8>)
    requires
        fingerprint_of(first) is Ok,
        fingerprint_of(second) is Ok,
        normalized(first) != normalized(second),
    ensures
        fingerprint_of(first) != fingerprint_of(second),
{
    let a = without_colons(first);
    let b = without_colons(second);
    first_non_hex_is_first(a);
    first_non_hex_is_first(b);
    if hex_bytes(a) == hex_bytes(b) {
        assert(a.len() == b.len()) by {
            assert(hex_bytes(a).len() == a.len() / 2);
            assert(hex_bytes(b).len() == b.len() / 2);
        }
        assert forall|j: int| 0 <= j < a.len() implies lower_case(#[trigger] a[j]) == lower_case(
            b[j],
        ) by {
            let i = j / 2;
            assert(hex_bytes(a)[i] == hex_bytes(b)[i]);
            assert(hex_digit(a[2 * i]) is Some && hex_digit(a[2 * i + 1]) is Some);
            assert(hex_digit(b[2 * i]) is Some && hex_digit(b[2 * i + 1]) is Some);
            assert(j == 2 * i || j == 2 * i + 1);
        }
        assert(normalized(first) =~= normalized(second));
    }
}

/// A certificate passes a pin exactly when its SHA-256 digest is the pinned
/// one. Of two pins that differ, be it in a single byte, a certificate
/// therefore passes at most one.
pub proof fn certificate_passes_at_most_one_pin(
    first: VerifyCertFingerprint,
    second: VerifyCertFingerprint,
    certificate: Seq<u8>,
)
    requires
        first@ != second@,
    ensures
        !(sha256(certificate) == first@ && sha256(certificate) == second@),
{
}

} // verus!

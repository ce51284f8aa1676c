//! Request authentication: every request, a liveness ping included, has to
//! carry an Ed25519 signature by the application's key over its timestamp
//! header followed by its body, byte for byte as received.

use ed25519_dalek::{Signature, Verifier, VerifyingKey};
use lambda_http::http::{HeaderMap, HeaderValue};
use vstd::prelude::*;
use vstd::utf8::{encode_utf8, valid_utf8};

verus! {

/// The length of an Ed25519 public key in bytes.
pub const PUBLIC_KEY_LENGTH: usize = 32;

/// The length of an Ed25519 signature in bytes.
pub const SIGNATURE_LENGTH: usize = 64;

/// The header that carries the timestamp of a request.
pub const TIMESTAMP_HEADER: &'static str = "X-Signature-Timestamp";

/// The header that carries the signature of a request, in hex.
pub const SIGNATURE_HEADER: &'static str = "X-Signature-Ed25519";

/// Why a request was not authenticated.
#[derive(Clone, Copy, PartialEq, Eq, Structural, Debug)]
pub enum AuthError {
    /// The configured public key is no hex string of 32 bytes, or no point
    /// of the curve. No request can be served with it.
    ConfigError,
    /// A signature header is missing or malformed.
    BadRequest,
    /// The signature does not match the request.
    Unauthorized,
}

impl AuthError {
    /// The HTTP status that reports this failure.
    pub open spec fn spec_status_code(self) -> u16 {
        match self {
            AuthError::ConfigError => 500,
            AuthError::BadRequest => 400,
            AuthError::Unauthorized => 401,
        }
    }

    /// The HTTP status that reports this failure.
    #[verifier::when_used_as_spec(spec_status_code)]
    pub fn status_code(self) -> (status: u16)
        ensures
            status == self.spec_status_code(),
    {
        match self {
            AuthError::ConfigError => 500,
            AuthError::BadRequest => 400,
            AuthError::Unauthorized => 401,
        }
    }
}

/// The raw values of the two signature headers of a request, each absent
/// where the request does not carry the header.
#[derive(Clone, PartialEq, Eq, Debug)]
pub struct SignatureHeaders {
    pub timestamp: Option<Vec<u8>>,
    pub signature: Option<Vec<u8>>,
}

/// The signature headers as sequences of bytes.
pub struct SignatureHeadersView {
    pub timestamp: Option<Seq<u8>>,
    pub signature: Option<Seq<u8>>,
}

impl View for SignatureHeaders {
    type V = SignatureHeadersView;

    open spec fn view(&self) -> SignatureHeadersView {
        SignatureHeadersView {
            timestamp: match self.timestamp {
                Some(bytes) => Some(bytes@),
                None => None,
            },
            signature: match self.signature {
                Some(bytes) => Some(bytes@),
                None => None,
            },
        }
    }
}

/// The header map of the http crate, as lambda_http hands it on. Nothing is
/// known of what is inside but through `header_values`.
#[verifier::external_type_specification]
#[verifier::external_body]
#[verifier::reject_recursive_types(T)]
pub struct ExHeaderMap<T>(HeaderMap<T>);

/// The header value of the http crate: the bytes of one header line.
#[verifier::external_type_specification]
#[verifier::external_body]
pub struct ExHeaderValue(HeaderValue);

/// What a header map holds, as `HeaderMap::get` shows it: the names under
/// which `get` finds a value, each with the bytes of the first value that
/// the map holds for it. `get` finds a header whatever the case of the
/// letters in its name, so a header stands here under every spelling of its
/// name.
pub uninterp spec fn header_values(headers: HeaderMap<HeaderValue>) -> Map<Seq<char>, Seq<u8>>;

/// Calls `HeaderMap::get` with the name, and `HeaderValue::as_bytes` on the
/// value that it finds.
#[verifier::external_body]
fn header_value(headers: &HeaderMap<HeaderValue>, name: &str) -> (value: Option<Vec<u8>>)
    ensures
        value is Some == header_values(*headers).contains_key(name@),
        value is Some ==> value->0@ == header_values(*headers)[name@],
{
    match headers.get(name) {
        Some(value) => Some(value.as_bytes().to_vec()),
        None => None,
    }
}

/// The signature headers that a header map holds.
pub open spec fn signature_headers_of(headers: HeaderMap<HeaderValue>) -> SignatureHeadersView {
    SignatureHeadersView {
        timestamp: if header_values(headers).contains_key(TIMESTAMP_HEADER@) {
            Some(header_values(headers)[TIMESTAMP_HEADER@])
        } else {
            None
        },
        signature: if header_values(headers).contains_key(SIGNATURE_HEADER@) {
            Some(header_values(headers)[SIGNATURE_HEADER@])
        } else {
            None
        },
    }
}

impl SignatureHeaders {
    /// Reads the two signature headers out of the headers of a request.
    pub fn from_headers(headers: &HeaderMap<HeaderValue>) -> (found: SignatureHeaders)
        ensures
            found@ == signature_headers_of(*headers),
    {
        SignatureHeaders {
            timestamp: header_value(headers, TIMESTAMP_HEADER),
            signature: header_value(headers, SIGNATURE_HEADER),
        }
    }
}

/// The value of a hex digit, in either case; `None` for any other byte.
pub open spec fn hex_digit(byte: u8) -> Option<u8> {
    if 0x30 <= byte <= 0x39 {
        Some((byte - 0x30) as u8)
    } else if 0x61 <= byte <= 0x66 {
        Some((byte - 0x61 + 10) as u8)
    } else if 0x41 <= byte <= 0x46 {
        Some((byte - 0x41 + 10) as u8)
    } else {
        None
    }
}

/// Whether a text is hex: an even number of hex digits.
pub open spec fn is_hex(text: Seq<u8>) -> bool {
    text.len() % 2 == 0 && forall|i: int| 0 <= i < text.len() ==> (#[trigger] hex_digit(
        text[i],
    )) is Some
}

/// The bytes that a hex text stands for: one for each pair of digits, the
/// first digit of a pair being the high half.
pub open spec fn hex_bytes(text: Seq<u8>) -> Seq<u8> {
    Seq::new(
        text.len() / 2,
        |i: int| (hex_digit(text[2 * i])->0 * 16 + hex_digit(text[2 * i + 1])->0) as u8,
    )
}

/// Whether `VerifyingKey::from_bytes` of ed25519-dalek accepts the 32 bytes
/// as a public key.
pub uninterp spec fn ed25519_key_accepted(key: Seq<u8>) -> bool;

/// Whether `VerifyingKey::verify` of ed25519-dalek, for the key made
/// from the 32 bytes `key`, accepts the 64 bytes `signature` for `message`.
pub uninterp spec fn ed25519_verifies(key: Seq<u8>, message: Seq<u8>, signature: Seq<u8>) -> bool;

/// Calls `hex::decode`. It gives bytes exactly for an even number of hex
/// digits of either case, and then the bytes that the pairs of digits stand
/// for.
#[verifier::external_body]
fn hex_decode(text: &[u8]) -> (decoded: Option<Vec<u8>>)
    ensures
        decoded is Some == is_hex(text@),
        decoded is Some ==> decoded->0@ == hex_bytes(text@),
{
    match hex::decode(text) {
        Ok(bytes) => Some(bytes),
        Err(_) => None,
    }
}

/// Calls `std::str::from_utf8` and says whether it succeeded, which it does
/// exactly on valid UTF-8.
#[verifier::external_body]
fn is_utf8(bytes: &[u8]) -> (valid: bool)
    ensures
        valid == valid_utf8(bytes@),
{
    std::str::from_utf8(bytes).is_ok()
}

/// Calls `VerifyingKey::from_bytes` of ed25519-dalek and says whether it gave
/// a key. Nothing is claimed of which bytes it accepts but that the answer
/// depends on the bytes alone.
#[verifier::external_body]
fn key_accepted(key: &[u8; 32]) -> (accepted: bool)
    ensures
        accepted == ed25519_key_accepted(key@),
{
    VerifyingKey::from_bytes(key).is_ok()
}

/// Calls `VerifyingKey::from_bytes` and, with the key it gave, `verify` on
/// the message and `Signature::from_bytes` of the signature. Nothing is
/// claimed of which signatures are accepted but that the answer depends on
/// key, message and signature alone.
#[verifier::external_body]
fn signature_verifies(key: &[u8; 32], message: &[u8], signature: &[u8; 64]) -> (valid: bool)
    ensures
        valid == (ed25519_key_accepted(key@) && ed25519_verifies(key@, message@, signature@)),
{
    match VerifyingKey::from_bytes(key) {
        Ok(verifier) => verifier.verify(message, &Signature::from_bytes(signature)).is_ok(),
        Err(_) => false,
    }
}

/// The bytes as an array of `N` bytes.
fn to_array<const N: usize>(bytes: &Vec<u8>) -> (array: [u8; N])
    requires
        bytes@.len() == N,
    ensures
        array@ == bytes@,
{
    let mut array = [0u8;N];
    let mut i: usize = 0;
    while i < N
        invariant
            bytes@.len() == N,
            i <= N,
            forall|j: int| 0 <= j < i ==> array@[j] == bytes@[j],
        decreases N - i,
    {
        array[i] = bytes[i];
        i += 1;
    }
    assert(array@ =~= bytes@);
    array
}

/// The 32 bytes that a configured hex string stands for. `None` for a
/// string that is no hex or stands for more or fewer bytes.
pub open spec fn public_key_bytes_of(app_pk: Seq<char>) -> Option<Seq<u8>> {
    let text = encode_utf8(app_pk);
    if is_hex(text) && hex_bytes(text).len() == PUBLIC_KEY_LENGTH {
        Some(hex_bytes(text))
    } else {
        None
    }
}

/// The public key that a configured hex string stands for: 32 bytes in hex
/// that ed25519-dalek accepts as a key. `None` for any other string.
pub open spec fn public_key_of(app_pk: Seq<char>) -> Option<Seq<u8>> {
    match public_key_bytes_of(app_pk) {
        Some(bytes) => if ed25519_key_accepted(bytes) {
            Some(bytes)
        } else {
            None
        },
        None => None,
    }
}

/// What a request's headers say of its signature.
pub struct SignedParts {
    /// The timestamp, which is the head of the signed message.
    pub timestamp: Seq<u8>,
    /// The 64 bytes of the signature.
    pub signature: Seq<u8>,
}

/// The timestamp and the signature that the headers carry: both headers are
/// there, the timestamp is UTF-8, and the signature is 64 bytes in hex (hex
/// digits being ASCII, such a signature is UTF-8 as well). `None` for any
/// other headers.
pub open spec fn signature_of(headers: SignatureHeadersView) -> Option<SignedParts> {
    if headers.timestamp is Some && headers.signature is Some && valid_utf8(headers.timestamp->0)
        && is_hex(headers.signature->0) && hex_bytes(headers.signature->0).len()
        == SIGNATURE_LENGTH {
        Some(
            SignedParts {
                timestamp: headers.timestamp->0,
                signature: hex_bytes(headers.signature->0),
            },
        )
    } else {
        None
    }
}

/// The outcome of the three tests on a request, in the order in which they
/// count: a key that is no key is a configuration error, whatever the
/// request holds; otherwise headers that carry no timestamp and signature
/// make a bad request; otherwise a signature that does not match is
/// unauthorized.
pub open spec fn outcome_of(key_is_key: bool, headers_are_read: bool, signature_matches: bool) -> Result<
    (),
    AuthError,
> {
    if !key_is_key {
        Err(AuthError::ConfigError)
    } else if !headers_are_read {
        Err(AuthError::BadRequest)
    } else if !signature_matches {
        Err(AuthError::Unauthorized)
    } else {
        Ok(())
    }
}

/// The outcome of authenticating a request: that of the three tests, the
/// signature matching exactly if it is one by the key over the timestamp
/// followed by the body.
pub open spec fn verified(body: Seq<u8>, headers: SignatureHeadersView, app_pk: Seq<char>) -> Result<
    (),
    AuthError,
> {
    outcome_of(
        public_key_of(app_pk) is Some,
        signature_of(headers) is Some,
        public_key_of(app_pk) is Some && signature_of(headers) is Some && ed25519_verifies(
            public_key_of(app_pk)->0,
            signature_of(headers)->0.timestamp + body,
            signature_of(headers)->0.signature,
        ),
    )
}

/// Reads the 32 bytes of a configured public key out of its hex string.
pub fn public_key_bytes(app_pk: &str) -> (key: Option<[u8; 32]>)
    ensures
        match key {
            Some(bytes) => public_key_bytes_of(app_pk@) == Some(bytes@),
            None => public_key_bytes_of(app_pk@) is None,
        },
{
    match hex_decode(app_pk.as_bytes()) {
        Some(bytes) => {
            if bytes.len() != PUBLIC_KEY_LENGTH {
                return None;
            }
            Some(to_array(&bytes))
        },
        None => None,
    }
}

/// Reads the configured public key.
pub fn decode_public_key(app_pk: &str) -> (key: Option<[u8; 32]>)
    ensures
        match key {
            Some(bytes) => public_key_of(app_pk@) == Some(bytes@),
            None => public_key_of(app_pk@) is None,
        },
{
    match public_key_bytes(app_pk) {
        Some(key) => if key_accepted(&key) {
            Some(key)
        } else {
            None
        },
        None => None,
    }
}

/// The timestamp and the signature of a request, as its headers carry them.
#[derive(Clone, PartialEq, Eq, Debug)]
pub struct RequestSignature {
    pub timestamp: Vec<u8>,
    pub signature: [u8; 64],
}

/// Reads timestamp and signature out of the signature headers.
pub fn read_signature(headers: &SignatureHeaders) -> (parts: Option<RequestSignature>)
    ensures
        match parts {
            Some(read) => signature_of(headers@) == Some(
                SignedParts { timestamp: read.timestamp@, signature: read.signature@ },
            ),
            None => signature_of(headers@) is None,
        },
{
    let timestamp = match &headers.timestamp {
        Some(timestamp) => timestamp,
        None => {
            return None;
        },
    };
    if !is_utf8(timestamp.as_slice()) {
        return None;
    }
    let signature_text = match &headers.signature {
        Some(text) => text,
        None => {
            return None;
        },
    };
    let signature_bytes = match hex_decode(signature_text.as_slice()) {
        Some(bytes) => bytes,
        None => {
            return None;
        },
    };
    if signature_bytes.len() != SIGNATURE_LENGTH {
        return None;
    }
    let mut copy: Vec<u8> = Vec::new();
    copy.extend_from_slice(timestamp.as_slice());
    assert(copy@ =~= timestamp@);
    Some(RequestSignature { timestamp: copy, signature: to_array(&signature_bytes) })
}

/// The outcome of the three tests on a request, in the order in which they
/// count.
pub fn auth_outcome(key_is_key: bool, headers_are_read: bool, signature_matches: bool) -> (outcome:
    Result<(), AuthError>)
    ensures
        outcome == outcome_of(key_is_key, headers_are_read, signature_matches),
{
    if !key_is_key {
        Err(AuthError::ConfigError)
    } else if !headers_are_read {
        Err(AuthError::BadRequest)
    } else if !signature_matches {
        Err(AuthError::Unauthorized)
    } else {
        Ok(())
    }
}

/// Authenticates a request against the application's public key, given in
/// hex. The signed message is the timestamp header followed by the body as
/// received.
pub fn verify(body: &[u8], headers: &HeaderMap<HeaderValue>, app_pk: &str) -> (outcome: Result<
    (),
    AuthError,
>)
    ensures
        outcome == verified(body@, signature_headers_of(*headers), app_pk@),
{
    let found = SignatureHeaders::from_headers(headers);
    verify_signed(body, &found, app_pk)
}

/// Authenticates a request whose signature headers have been read.
pub fn verify_signed(body: &[u8], headers: &SignatureHeaders, app_pk: &str) -> (outcome: Result<
    (),
    AuthError,
>)
    ensures
        outcome == verified(body@, headers@, app_pk@),
{
    let key = decode_public_key(app_pk);
    let parts = read_signature(headers);
    let matches = match (&key, &parts) {
        (Some(key), Some(parts)) => {
            let mut message: Vec<u8> = Vec::new();
            message.extend_from_slice(parts.timestamp.as_slice());
            message.extend_from_slice(body);
            assert(message@ =~= parts.timestamp@ + body@);
            signature_verifies(key, message.as_slice(), &parts.signature)
        },
        _ => false,
    };
    auth_outcome(key.is_some(), parts.is_some(), matches)
}

/// A request that lacks the timestamp header or the signature header is a
/// bad request, whatever else it holds, as long as the configured key is a
/// key.
pub proof fn lemma_missing_header_is_bad_request(
    body: Seq<u8>,
    headers: SignatureHeadersView,
    app_pk: Seq<char>,
)
    requires
        public_key_of(app_pk) is Some,
        headers.timestamp is None || headers.signature is None,
    ensures
        verified(body, headers, app_pk) == Err::<(), _>(AuthError::BadRequest),
{
}

/// With a key that is a key and headers that carry a timestamp and a
/// signature, authentication has exactly the two outcomes of the signature
/// check: it succeeds where ed25519-dalek accepts the signature for the
/// timestamp followed by the body, and is `Unauthorized` where not.
pub proof fn lemma_outcome_follows_signature(
    body: Seq<u8>,
    headers: SignatureHeadersView,
    app_pk: Seq<char>,
)
    requires
        public_key_of(app_pk) is Some,
        signature_of(headers) is Some,
    ensures
        verified(body, headers, app_pk) is Ok <==> ed25519_verifies(
            public_key_of(app_pk)->0,
            signature_of(headers)->0.timestamp + body,
            signature_of(headers)->0.signature,
        ),
        verified(body, headers, app_pk) is Err ==> verified(body, headers, app_pk) == Err::<(), _>(
            AuthError::Unauthorized,
        ),
{
}

} // verus!

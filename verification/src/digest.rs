//! SHA-256 digests and their lower-case hexadecimal rendering.
use base64::Engine as _;
use sha2::Digest;
use vstd::prelude::*;

verus! {

/// What `sha2::Sha256::digest` returns for `data`.
pub uninterp spec fn sha256_of(data: Seq<u8>) -> Seq<u8>;

/// `sha2::Sha256::digest`: the 32-byte SHA-256 digest of `data`.
/// Trusted: the result is `sha256_of(data)`, 32 bytes long (the output size of SHA-256).
#[verifier::external_body]
pub(crate) fn sha256_digest(data: &[u8]) -> (r: Vec<u8>)
    ensures
        r@ == sha256_of(data@),
        r@.len() == 32,
{
    <sha2::Sha256 as Digest>::digest(data).to_vec()
}

/// What `base64::engine::general_purpose::STANDARD.encode` returns for `data`.
pub uninterp spec fn base64_standard_of(data: Seq<u8>) -> Seq<char>;

/// `base64::engine::general_purpose::STANDARD.encode`: standard-alphabet,
/// padded Base64. Trusted: the result is `base64_standard_of(data)`.
#[verifier::external_body]
pub(crate) fn base64_standard(data: &[u8]) -> (r: String)
    ensures
        r@ == base64_standard_of(data@),
{
    base64::engine::general_purpose::STANDARD.encode(data)
}

/// What `base64::engine::general_purpose::URL_SAFE_NO_PAD.encode` returns for `data`.
pub uninterp spec fn base64_url_of(data: Seq<u8>) -> Seq<char>;

/// A character of the URL-safe Base64 alphabet: `A-Z`, `a-z`, `0-9`, `-`, `_`.
pub open spec fn is_base64url_char(c: char) -> bool {
    ('A' <= c <= 'Z') || ('a' <= c <= 'z') || ('0' <= c <= '9') || c == '-' || c == '_'
}

/// `base64::engine::general_purpose::URL_SAFE_NO_PAD.encode`: URL-safe
/// Base64 without padding. Trusted: the result is `base64_url_of(data)`, one
/// character for every six bits, rounded up (the crate's `encoded_len`
/// without padding), each from the URL-safe alphabet (the engine's
/// `URL_SAFE` alphabet, with no padding character).
#[verifier::external_body]
pub(crate) fn base64_url(data: &[u8]) -> (r: String)
    ensures
        r@ == base64_url_of(data@),
        r@.len() == (4 * data@.len() + 2) / 3,
        forall|i: int| 0 <= i < r@.len() ==> is_base64url_char(#[trigger] r@[i]),
{
    base64::engine::general_purpose::URL_SAFE_NO_PAD.encode(data)
}

/// What `data_encoding::BASE32_NOPAD.encode` returns for `data`.
pub uninterp spec fn base32_nopad_of(data: Seq<u8>) -> Seq<char>;

/// A character of the RFC 4648 Base32 alphabet: `A-Z` and `2-7`.
pub open spec fn is_base32_char(c: char) -> bool {
    ('A' <= c <= 'Z') || ('2' <= c <= '7')
}

/// `data_encoding::BASE32_NOPAD.encode`: RFC 4648 Base32 without padding.
/// Trusted: the result is `base32_nopad_of(data)`, one character for every
/// five bits, rounded up (the `encode_len` the crate documents), each from
/// the alphabet `A-Z2-7`; and `BASE32_NOPAD.decode` of its bytes gives
/// `data` back (the encoding is the canonical one the decoder accepts).
#[verifier::external_body]
pub(crate) fn base32_nopad(data: &[u8]) -> (r: String)
    ensures
        r@ == base32_nopad_of(data@),
        r@.len() == (8 * data@.len() + 4) / 5,
        forall|i: int| 0 <= i < r@.len() ==> is_base32_char(#[trigger] r@[i]),
        base32_nopad_decoded(crate::text::utf8(r@)) == Some(data@),
{
    data_encoding::BASE32_NOPAD.encode(data)
}

/// What `data_encoding::BASE32_NOPAD.decode` gives for `text`: the bytes, or
/// `None` when it is not Base32 without padding.
pub uninterp spec fn base32_nopad_decoded(text: Seq<u8>) -> Option<Seq<u8>>;

/// `data_encoding::BASE32_NOPAD.decode(text).ok()`. Trusted: the result is
/// `base32_nopad_decoded(text)`.
#[verifier::external_body]
pub(crate) fn base32_nopad_decode(text: &[u8]) -> (r: Option<Vec<u8>>)
    ensures
        match r {
            Some(v) => base32_nopad_decoded(text@) == Some(v@),
            None => base32_nopad_decoded(text@) is None,
        },
{
    data_encoding::BASE32_NOPAD.decode(text).ok()
}

/// `rand_core::OsRng.try_fill_bytes` into `n` fresh bytes. Trusted: when the
/// operating system's generator answers, the result holds `n` bytes; what
/// they are is chance.
#[verifier::external_body]
pub(crate) fn os_random(n: usize) -> (r: Option<Vec<u8>>)
    ensures
        r matches Some(v) ==> v@.len() == n,
{
    let mut buf = vec![0u8; n];
    rand_core::RngCore::try_fill_bytes(&mut rand_core::OsRng, &mut buf).ok()?;
    Some(buf)
}

/// `String::push`. Trusted: appends exactly the one character.
#[verifier::external_body]
pub(crate) fn string_push(s: &mut String, c: char)
    ensures
        final(s)@ == old(s)@.push(c),
{
    s.push(c)
}

/// The lower-case hexadecimal digit for a nibble.
pub open spec fn hex_char(n: int) -> char {
    if n < 10 {
        (48 + n) as char
    } else {
        (87 + n) as char
    }
}

/// `format!("{b:02x}")` over every byte, concatenated.
pub open spec fn hex_lower(bytes: Seq<u8>) -> Seq<char> {
    Seq::new(
        2 * bytes.len(),
        |i: int|
            if i % 2 == 0 {
                hex_char((bytes[i / 2] / 16) as int)
            } else {
                hex_char((bytes[i / 2] % 16) as int)
            },
    )
}

fn nibble_char(n: u8) -> (c: char)
    requires
        n < 16,
    ensures
        c == hex_char(n as int),
{
    if n < 10 {
        (48 + n) as char
    } else {
        (87 + n) as char
    }
}

/// Lower-case hexadecimal rendering of `bytes`, two digits per byte.
pub fn hex_encode(bytes: &[u8]) -> (r: String)
    ensures
        r@ == hex_lower(bytes@),
{
    let mut s = String::new();
    let mut i: usize = 0;
    while i < bytes.len()
        invariant
            0 <= i <= bytes@.len(),
            s@ =~= hex_lower(bytes@.subrange(0, i as int)),
        decreases bytes@.len() - i,
    {
        let b = bytes[i];
        string_push(&mut s, nibble_char(b / 16));
        string_push(&mut s, nibble_char(b % 16));
        proof {
            let prev = hex_lower(bytes@.subrange(0, i as int));
            let next = hex_lower(bytes@.subrange(0, i + 1));
            assert forall|k: int| 0 <= k < next.len() implies #[trigger] next[k] == s@[k] by {
                if k < 2 * i {
                    assert(k / 2 < i);
                    assert(prev[k] == next[k]);
                } else if k == 2 * i {
                    assert(k / 2 == i);
                } else {
                    assert(k / 2 == i);
                }
            }
            assert(s@ =~= next);
        }
        i += 1;
    }
    assert(bytes@.subrange(0, bytes@.len() as int) =~= bytes@);
    s
}

/// The SHA-256 digest of `data` as 64 lower-case hexadecimal characters.
pub open spec fn sha256_hex_of(data: Seq<u8>) -> Seq<char> {
    hex_lower(sha256_of(data))
}

/// SHA-256 of `data`, rendered as lower-case hexadecimal.
pub fn sha256_hex(data: &[u8]) -> (r: String)
    ensures
        r@ == sha256_hex_of(data@),
        r@.len() == 64,
{
    let d = sha256_digest(data);
    hex_encode(d.as_slice())
}


/// A running `sha2::Sha256` hasher. Verus does not take the declaration of
/// `sha2::Sha256` (a type alias over generic wrappers), so the hasher is
/// held here, opaque.
#[verifier::external_body]
pub struct Sha256State {
    inner: sha2::Sha256,
}

/// The bytes fed so far to a running hasher.
pub uninterp spec fn sha256_fed(h: Sha256State) -> Seq<u8>;

/// `sha2::Sha256::new()`. Trusted: a new hasher has been fed nothing.
#[verifier::external_body]
fn sha256_new() -> (r: Sha256State)
    ensures
        sha256_fed(r) == Seq::<u8>::empty(),
{
    Sha256State { inner: <sha2::Sha256 as Digest>::new() }
}

/// `Digest::update`. Trusted: the hasher has then been fed `chunk` after
/// what it had been fed.
#[verifier::external_body]
fn sha256_update(h: &mut Sha256State, chunk: &[u8])
    ensures
        sha256_fed(*final(h)) == sha256_fed(*old(h)) + chunk@,
{
    Digest::update(&mut h.inner, chunk)
}

/// `Digest::finalize`. Trusted: the digest of everything fed, which is what
/// `sha2::Sha256::digest` gives for those bytes at once (32 bytes).
#[verifier::external_body]
fn sha256_finalize(h: Sha256State) -> (r: Vec<u8>)
    ensures
        r@ == sha256_of(sha256_fed(h)),
        r@.len() == 32,
{
    Digest::finalize(h.inner).to_vec()
}

/// A SHA-256 digest computed over bytes given in pieces, such as a file
/// read in chunks.
pub struct Sha256Stream {
    state: Sha256State,
}

impl Sha256Stream {
    /// The bytes given so far.
    pub closed spec fn fed(&self) -> Seq<u8> {
        sha256_fed(self.state)
    }

    /// A digest over nothing yet.
    pub fn new() -> (r: Sha256Stream)
        ensures
            r.fed() == Seq::<u8>::empty(),
    {
        Sha256Stream { state: sha256_new() }
    }

    /// Gives `chunk` after the bytes given so far.
    pub fn update(&mut self, chunk: &[u8])
        ensures
            final(self).fed() == old(self).fed() + chunk@,
    {
        sha256_update(&mut self.state, chunk)
    }

    /// The SHA-256 of all the bytes given, as 64 lower-case hexadecimal
    /// characters: the same as `sha256_hex` of those bytes at once.
    pub fn finish_hex(self) -> (r: String)
        ensures
            r@ == sha256_hex_of(self.fed()),
            r@.len() == 64,
    {
        let d = sha256_finalize(self.state);
        hex_encode(d.as_slice())
    }
}

} // verus!

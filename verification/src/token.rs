//! Signed tokens. A token carries a payload and a message authentication
//! code of that payload under the server's key:
//!
//! `base64url(payload) "." base64url(HMAC-SHA256(key, payload))`
//!
//! both parts in the URL-safe alphabet without padding. The payload is a
//! string of bytes to this module; whoever issues a token decides what it
//! says.

use vstd::prelude::*;
use vstd::string::StrSliceExecFns;
use vstd::string::StringExecFns;
use vstd::string::StringSliceAdditionalSpecFns;
use vstd::utf8::is_ascii_chars;
use base64::Engine;
use hmac::Mac;
use rand::RngCore;

verus! {

/// Length of the server's key and of a message authentication code, in
/// bytes.
pub const KEY_LEN: usize = 32;

/// Why a token is not accepted.
#[derive(Clone, Copy, Debug, PartialEq, Eq, Structural)]
pub enum TokenError {
    /// The token does not consist of two parts with one dot between them.
    Malformed,
    /// A part of the token is not base64url text.
    BadEncoding,
    /// The signature is not that of the payload under the key.
    BadSignature,
}

/// The error of `base64`'s decoder.
#[verifier::external_type_specification]
#[verifier::external_body]
pub struct ExDecodeError(base64::DecodeError);

/// The error of `hex`'s decoder.
#[verifier::external_type_specification]
#[verifier::external_body]
pub struct ExFromHexError(hex::FromHexError);

/// The URL-safe base64 text of `data`, without padding.
pub uninterp spec fn base64url(data: Seq<u8>) -> Seq<char>;

/// The bytes that the URL-safe base64 text `text` stands for, if it is such
/// a text without padding.
pub uninterp spec fn base64url_decoded(text: Seq<char>) -> Option<Seq<u8>>;

/// The HMAC-SHA256 code of `data` under `key`.
pub uninterp spec fn hmac_sha256_of(key: Seq<u8>, data: Seq<u8>) -> Seq<u8>;

/// The characters of the URL-safe base64 alphabet.
pub open spec fn is_base64url_char(c: char) -> bool {
    ('A' <= c <= 'Z') || ('a' <= c <= 'z') || ('0' <= c <= '9') || c == '-' || c == '_'
}

/// Encodes with `base64::engine::general_purpose::URL_SAFE_NO_PAD.encode`.
/// Claimed of it: the result is the base64url text of `data`; it is written
/// in the URL-safe alphabet alone; and decoding it gives `data` back. The
/// encoder gives up on an input so long that the length of its text does
/// not fit a `usize`; a slice, which never exceeds `isize::MAX` bytes,
/// cannot be that long.
#[verifier::external_body]
fn base64url_encode(data: &[u8]) -> (text: String)
    ensures
        text@ == base64url(data@),
        forall|i: int| 0 <= i < text@.len() ==> is_base64url_char(#[trigger] text@[i]),
        base64url_decoded(text@) == Some(data@),
{
    base64::engine::general_purpose::URL_SAFE_NO_PAD.encode(data)
}

/// Decodes with `base64::engine::general_purpose::URL_SAFE_NO_PAD.decode`.
/// Claimed of it: it succeeds exactly on base64url texts, with the bytes
/// the text stands for.
#[verifier::external_body]
fn base64url_decode(text: &str) -> (r: Result<Vec<u8>, base64::DecodeError>)
    ensures
        match r {
            Ok(bytes) => base64url_decoded(text@) == Some(bytes@),
            Err(_) => base64url_decoded(text@) is None,
        },
{
    base64::engine::general_purpose::URL_SAFE_NO_PAD.decode(text)
}

/// Computes HMAC-SHA256 with `hmac::Hmac<sha2::Sha256>`: `new_from_slice`,
/// which takes a key of any length, then `update` and `finalize`. Claimed
/// of it: the result is the code of `data` under `key`, 32 bytes long.
#[verifier::external_body]
fn hmac_sha256(key: &[u8], data: &[u8]) -> (code: Vec<u8>)
    ensures
        code@ == hmac_sha256_of(key@, data@),
        code@.len() == 32,
{
    let mut mac = hmac::Hmac::<sha2::Sha256>::new_from_slice(key).unwrap();
    mac.update(data);
    mac.finalize().into_bytes().to_vec()
}

/// Whether `text` has exactly one dot, at position `i`.
pub open spec fn splits_at(text: Seq<char>, i: int) -> bool {
    &&& 0 <= i < text.len()
    &&& text[i] == '.'
    &&& forall|j: int| 0 <= j < text.len() && j != i ==> text[j] != '.'
}

/// The token that carries `payload`, signed with `key`.
pub open spec fn token_text(key: Seq<u8>, payload: Seq<u8>) -> Seq<char> {
    base64url(payload) + seq!['.'] + base64url(hmac_sha256_of(key, payload))
}

/// What verification makes of `text` under `key`: the payload, if the text
/// has two parts with one dot between them, both parts are base64url
/// texts, and the second stands for the code of the payload the first
/// stands for; otherwise the first of these that fails.
pub open spec fn verdict(key: Seq<u8>, text: Seq<char>) -> Result<Seq<u8>, TokenError> {
    if !is_ascii_chars(text) || !(exists|i: int| splits_at(text, i)) {
        Err(TokenError::Malformed)
    } else {
        let i = choose|i: int| splits_at(text, i);
        let payload = base64url_decoded(text.subrange(0, i));
        let code = base64url_decoded(text.subrange(i + 1, text.len() as int));
        if payload is None || code is None {
            Err(TokenError::BadEncoding)
        } else if code->0 != hmac_sha256_of(key, payload->0) {
            Err(TokenError::BadSignature)
        } else {
            Ok(payload->0)
        }
    }
}

/// Whether two strings of bytes are the same.
pub fn same_bytes(a: &[u8], b: &[u8]) -> (r: bool)
    ensures
        r == (a@ == b@),
{
    if a.len() != b.len() {
        return false;
    }
    let n = a.len();
    let mut i: usize = 0;
    while i < n
        invariant
            i <= n,
            n == a@.len(),
            n == b@.len(),
            forall|k: int| 0 <= k < i ==> a@[k] == b@[k],
        decreases n - i,
    {
        if a[i] != b[i] {
            return false;
        }
        i = i + 1;
    }
    assert(a@ =~= b@);
    true
}

/// Issues the token that carries `payload`, signed with `key`. Verifying
/// the token under the same key gives the payload back.
pub fn issue_token(key: &[u8], payload: &[u8]) -> (token: String)
    ensures
        token@ == token_text(key@, payload@),
        verdict(key@, token@) == Ok::<Seq<u8>, TokenError>(payload@),
{
    let code = hmac_sha256(key, payload);
    let part2 = base64url_encode(code.as_slice());
    let mut token = base64url_encode(payload);
    let ghost part1 = token@;
    proof {
        reveal_strlit(".");
    }
    token.append(".");
    token.append(part2.as_str());
    proof {
        let text = token@;
        let i = part1.len() as int;
        assert(text =~= token_text(key@, payload@));
        assert forall|j: int| 0 <= j < text.len() implies '\0' <= #[trigger] text[j]
            <= '\u{7f}' by {
            if j < i {
                assert(text[j] == part1[j]);
            } else if j > i {
                assert(text[j] == part2@[j - i - 1]);
            }
        }
        assert forall|j: int| 0 <= j < text.len() && j != i implies text[j] != '.' by {
            if j < i {
                assert(text[j] == part1[j]);
            } else {
                assert(text[j] == part2@[j - i - 1]);
            }
        }
        assert(splits_at(text, i));
        let k = choose|k: int| splits_at(text, k);
        assert(k == i);
        assert(text.subrange(0, i) =~= part1);
        assert(text.subrange(i + 1, text.len() as int) =~= part2@);
    }
    token
}

/// Verifies `token` under `key` and returns the payload it carries.
pub fn verify_token(key: &[u8], token: &str) -> (r: Result<Vec<u8>, TokenError>)
    ensures
        match r {
            Ok(payload) => verdict(key@, token@) == Ok::<Seq<u8>, TokenError>(payload@),
            Err(e) => verdict(key@, token@) == Err::<Seq<u8>, TokenError>(e),
        },
{
    if !token.is_ascii() {
        return Err(TokenError::Malformed);
    }
    proof {
        vstd::string::is_ascii_spec_bytes(token);
        assert(token.spec_bytes().len() == token@.len());
    }
    let n = token.as_bytes().len();
    let mut i: usize = 0;
    while i < n && token.get_ascii(i) != 46
        invariant
            i <= n,
            n == token@.len(),
            token.is_ascii(),
            forall|j: int| 0 <= j < i ==> token@[j] != '.',
        decreases n - i,
    {
        i = i + 1;
    }
    if i == n {
        return Err(TokenError::Malformed);
    }
    assert(token@[i as int] == '.');
    let mut j: usize = i + 1;
    while j < n
        invariant
            i < j <= n,
            n == token@.len(),
            token.is_ascii(),
            token@[i as int] == '.',
            forall|k: int| i < k < j ==> token@[k] != '.',
        decreases n - j,
    {
        if token.get_ascii(j) == 46 {
            proof {
                assert(token@[j as int] == '.');
                assert forall|k: int| !splits_at(token@, k) by {
                    if splits_at(token@, k) {
                        if k == i as int {
                            assert(token@[j as int] != '.');
                        } else {
                            assert(token@[i as int] != '.');
                        }
                    }
                }
            }
            return Err(TokenError::Malformed);
        }
        j = j + 1;
    }
    proof {
        assert(splits_at(token@, i as int));
        let k = choose|k: int| splits_at(token@, k);
        assert(k == i);
    }
    let part1 = token.substring_ascii(0, i);
    let part2 = token.substring_ascii(i + 1, n);
    let payload = match base64url_decode(part1) {
        Ok(bytes) => bytes,
        Err(_) => {
            return Err(TokenError::BadEncoding);
        },
    };
    let code = match base64url_decode(part2) {
        Ok(bytes) => bytes,
        Err(_) => {
            return Err(TokenError::BadEncoding);
        },
    };
    let expected = hmac_sha256(key, payload.as_slice());
    if !same_bytes(code.as_slice(), expected.as_slice()) {
        return Err(TokenError::BadSignature);
    }
    Ok(payload)
}

/// The value of a hexadecimal digit, given by its ASCII code.
pub open spec fn hex_value(c: u8) -> Option<u8> {
    if 48 <= c <= 57 {
        Some((c - 48) as u8)
    } else if 97 <= c <= 102 {
        Some((c - 87) as u8)
    } else if 65 <= c <= 70 {
        Some((c - 55) as u8)
    } else {
        None
    }
}

/// Whether `text` is hexadecimal: digits of either case, two to the byte.
pub open spec fn is_hex(text: Seq<u8>) -> bool {
    text.len() % 2 == 0 && forall|i: int| 0 <= i < text.len() ==> hex_value(#[trigger] text[i])
        is Some
}

/// The bytes that the hexadecimal `text` stands for.
pub open spec fn hex_bytes(text: Seq<u8>) -> Seq<u8> {
    Seq::new(
        text.len() / 2,
        |i: int| (hex_value(text[2 * i])->0 * 16 + hex_value(text[2 * i + 1])->0) as u8,
    )
}

/// Decodes with `hex::decode`. Claimed of it: it succeeds exactly on a text
/// of hexadecimal digits of even length, and then gives one byte for each
/// pair of digits, the first digit of a pair being the high one.
#[verifier::external_body]
fn hex_decode(text: &[u8]) -> (r: Result<Vec<u8>, hex::FromHexError>)
    ensures
        match r {
            Ok(bytes) => is_hex(text@) && bytes@ == hex_bytes(text@),
            Err(_) => !is_hex(text@),
        },
{
    hex::decode(text)
}

/// Draws a key from the thread's random generator
/// (`rand::RngCore::fill_bytes` on `rand::thread_rng()`). Claimed of it:
/// the key has 32 bytes. Nothing is said of their values.
#[verifier::external_body]
fn random_key() -> (key: Vec<u8>)
    ensures
        key@.len() == 32,
{
    let mut kb = [0u8; 32];
    rand::thread_rng().fill_bytes(&mut kb);
    kb.to_vec()
}

/// The key that `text` configures: 64 hexadecimal digits give the 32 bytes
/// of a key, and nothing else gives one.
pub open spec fn configured_key(text: Seq<u8>) -> Option<Seq<u8>> {
    if is_hex(text) && text.len() == 64 {
        Some(hex_bytes(text))
    } else {
        None
    }
}

/// Reads a key from its hexadecimal form.
pub fn parse_key(text: &str) -> (r: Option<Vec<u8>>)
    ensures
        match r {
            Some(key) => configured_key(text.spec_bytes()) == Some(key@) && key@.len() == 32,
            None => configured_key(text.spec_bytes()) is None,
        },
{
    match hex_decode(text.as_bytes()) {
        Ok(bytes) => {
            if bytes.len() == KEY_LEN {
                Some(bytes)
            } else {
                None
            }
        },
        Err(_) => None,
    }
}

/// The server's key: the configured one, if there is a configuration and
/// it is a key in hexadecimal form, else a random one.
pub fn resolve_key(configured: Option<&str>) -> (key: Vec<u8>)
    ensures
        key@.len() == 32,
        configured is Some && configured_key(configured->0.spec_bytes()) is Some ==> Some(key@)
            == configured_key(configured->0.spec_bytes()),
{
    match configured {
        Some(text) => match parse_key(text) {
            Some(key) => key,
            None => random_key(),
        },
        None => random_key(),
    }
}

} // verus!

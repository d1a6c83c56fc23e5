//! Pre-shared keys, and the text under which an invitation is handed on.

use rand::Rng;
use vstd::prelude::*;
use vstd::string::{StrSliceExecFns, StringExecFns};

verus! {

use vstd::utf8::encode_utf8;

/// Why a text is no Base64.
#[derive(Debug, Clone, Copy, PartialEq, Eq, Structural)]
pub enum DecodeError {
    /// This byte, at this offset, does not belong there.
    InvalidByte { offset: usize, byte: u8 },
    /// The text ends in the middle of a byte.
    InvalidLength,
    /// The last symbol, at this offset, has bits that belong to no byte.
    InvalidLastSymbol { offset: usize, byte: u8 },
}

/// What `base64::encode` makes of `bytes`.
pub uninterp spec fn base64_encoded(bytes: Seq<u8>) -> Seq<char>;

/// What `base64::decode` makes of `text`.
pub uninterp spec fn base64_decoded(text: Seq<char>) -> Result<Seq<u8>, DecodeError>;

/// The bytes that `decoded` holds.
pub open spec fn bytes_of(decoded: Result<Vec<u8>, DecodeError>) -> Result<Seq<u8>, DecodeError> {
    match decoded {
        Ok(bytes) => Ok(bytes@),
        Err(error) => Err(error),
    }
}

/// The outcome of decoding a text that holds `bytes`.
pub open spec fn success(bytes: Seq<u8>) -> Result<Seq<u8>, DecodeError> {
    Ok(bytes)
}

/// The length of the Base64 text of `len` bytes, padding included.
pub open spec fn base64_len(len: nat) -> nat {
    4 * ((len + 2) / 3)
}

/// Calls `base64::encode`, Base64 in the standard alphabet with padding. Claims
/// that the text depends on the bytes alone, that it has four characters for
/// every three bytes begun, and that `base64::decode` takes it back to the same
/// bytes. The text has to fit in memory: its length is at most the largest
/// `isize`.
#[verifier::external_body]
fn to_base64(bytes: &[u8]) -> (r: String)
    requires
        base64_len(bytes@.len()) <= isize::MAX,
    ensures
        r@ == base64_encoded(bytes@),
        r@.len() == base64_len(bytes@.len()),
        base64_decoded(r@) == success(bytes@),
{
    base64::encode(bytes)
}

/// Calls `base64::decode`, for the same alphabet. Claims that the bytes or the
/// error depend on the text alone.
#[verifier::external_body]
fn from_base64(text: &str) -> (r: Result<Vec<u8>, DecodeError>)
    ensures
        bytes_of(r) == base64_decoded(text@),
{
    match base64::decode(text) {
        Ok(bytes) => Ok(bytes),
        Err(base64::DecodeError::InvalidByte(offset, byte)) => {
            Err(DecodeError::InvalidByte { offset, byte })
        },
        Err(base64::DecodeError::InvalidLength) => Err(DecodeError::InvalidLength),
        Err(base64::DecodeError::InvalidLastSymbol(offset, byte)) => {
            Err(DecodeError::InvalidLastSymbol { offset, byte })
        },
    }
}

/// Calls `rand::Rng::fill` on the generator of `rand::thread_rng`. Claims only
/// that as many bytes are there as before: which ones is up to chance.
#[verifier::external_body]
fn fill_random(bytes: &mut [u8])
    ensures
        final(bytes)@.len() == old(bytes)@.len(),
{
    rand::thread_rng().fill(bytes)
}

/// The text that hands on an invitation, whose serialised form is `token`. It
/// reads back as `token`.
pub fn encode_token(token: &[u8]) -> (r: String)
    requires
        base64_len(token@.len()) <= isize::MAX,
    ensures
        r@ == base64_encoded(token@),
        r@.len() == base64_len(token@.len()),
        base64_decoded(r@) == success(token@),
        base64_decoded(r@) matches Ok(bytes) && bytes == token@,
{
    to_base64(token)
}

/// The line that shows the user the text `code` of an invitation.
pub fn invitation_line(code: &str) -> (r: String)
    ensures
        r@ == "invitation-token: "@ + code@,
{
    let mut line: String = "invitation-token: ".to_owned();
    line.append(code);
    line
}

/// Reads the text that hands on an invitation back into its serialised form.
pub fn decode_token(text: &str) -> (r: Result<Vec<u8>, DecodeError>)
    ensures
        bytes_of(r) == base64_decoded(text@),
        match base64_decoded(text@) {
            Ok(bytes) => r matches Ok(v) && v@ == bytes,
            Err(error) => r matches Err(e) && e == error,
        },
{
    from_base64(text)
}

/// Draws `len` bytes: the generator has filled all of them.
fn drawn_bytes(len: usize) -> (r: Vec<u8>)
    ensures
        r@.len() == len,
        exists|slice: &mut [u8]| #[trigger]
            call_ensures(fill_random, (slice,), ()) && final(slice)@ == r@,
{
    let mut bytes: Vec<u8> = vec![0u8; len];
    fill_random(bytes.as_mut_slice());
    bytes
}

/// Whether `key` is what came of drawing `len` bytes from the generator.
pub closed spec fn drawn(len: usize, key: Vec<u8>) -> bool {
    call_ensures(drawn_bytes, (len,), key)
}

/// A key of `len` random bytes.
pub fn random_psk(len: usize) -> (r: Vec<u8>)
    ensures
        r@.len() == len,
        drawn(len, r),
{
    drawn_bytes(len)
}

/// Whether `psk` can be the key of a chat for which `given` was asked for: the
/// UTF-8 bytes of the key that was given, or eight bytes if none was.
pub open spec fn key_for(given: Option<Seq<char>>, psk: Seq<u8>) -> bool {
    match given {
        Some(text) => psk == encode_utf8(text),
        None => psk.len() == 8,
    }
}

/// What `text` holds.
pub open spec fn text_of(text: Option<String>) -> Option<Seq<char>> {
    match text {
        Some(text) => Some(text@),
        None => None,
    }
}

/// The key of a chat for which `given` was asked for and `drawn` was drawn: the
/// UTF-8 bytes of the key that was given, or the drawn bytes if none was.
pub open spec fn key_from(given: Option<Seq<char>>, drawn: Seq<u8>) -> Seq<u8> {
    match given {
        Some(text) => encode_utf8(text),
        None => drawn,
    }
}

/// The pre-shared key of a chat, where `drawn` are the bytes to use if no key
/// was given.
pub fn preshared_key_from(given: &Option<String>, drawn: Vec<u8>) -> (r: Vec<u8>)
    ensures
        r@ == key_from(text_of(*given), drawn@),
        given matches Some(text) ==> r@ == encode_utf8(text@),
        given is None ==> r == drawn,
{
    match given {
        Some(text) => text.as_str().as_bytes_vec(),
        None => drawn,
    }
}

/// The pre-shared key of a chat: the bytes of the one that was given, or eight
/// random ones, drawn only if none was.
pub fn preshared_key(given: &Option<String>) -> (r: Vec<u8>)
    ensures
        key_for(text_of(*given), r@),
        given matches Some(text) ==> r@ == encode_utf8(text@),
        given is None ==> r@.len() == 8,
        given is None ==> exists|key: Vec<u8>|
            key@ == r@ && #[trigger] call_ensures(random_psk, (8usize,), key),
{
    let drawn: Vec<u8> = match given {
        Some(_) => Vec::new(),
        None => random_psk(8),
    };
    preshared_key_from(given, drawn)
}

/// Three bytes take four characters, and a rest of one or two bytes takes four
/// more.
pub proof fn law_base64_takes_four_for_three(groups: nat)
    ensures
        base64_len(3 * groups) == 4 * groups,
        base64_len(3 * groups + 1) == 4 * groups + 4,
        base64_len(3 * groups + 2) == 4 * groups + 4,
{
}

/// A key that was given is used as it is, whatever was drawn, and one that was
/// drawn is used as it is where none was given.
pub proof fn law_keys_are_used_as_they_are(text: Seq<char>, drawn: Seq<u8>)
    ensures
        key_from(Some(text), drawn) == encode_utf8(text),
        key_from(None, drawn) == drawn,
        forall|psk: Seq<u8>| #[trigger] key_for(Some(text), psk) <==> psk == encode_utf8(text),
        forall|psk: Seq<u8>| #[trigger] key_for(None, psk) <==> psk.len() == 8,
{
}

/// Reading what an outcome or an option holds changes nothing about it.
pub proof fn law_views_hold_what_is_there(bytes: Vec<u8>, error: DecodeError, text: String)
    ensures
        success(bytes@) == Ok::<Seq<u8>, DecodeError>(bytes@),
        bytes_of(Ok(bytes)) == Ok::<Seq<u8>, DecodeError>(bytes@),
        bytes_of(Err(error)) == Err::<Seq<u8>, DecodeError>(error),
        text_of(Some(text)) == Some(text@),
        text_of(None) is None,
{
}

/// A drawn key has as many bytes as were asked for, and every one of them is as
/// the generator left it.
proof fn law_every_byte_of_a_key_is_drawn(len: usize, key: Vec<u8>)
    requires
        drawn(len, key),
    ensures
        key@.len() == len,
        exists|slice: &mut [u8]| #[trigger]
            call_ensures(fill_random, (slice,), ()) && final(slice)@ == key@,
{
}

}

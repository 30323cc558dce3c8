//! Reversible obscuring of a short secret for storage at rest.
//!
//! The transform itself is the `short_crypt` cipher in its base-32 text form.
//! It keeps a secret out of a settings file in clear text and resists nobody
//! who looks for it. What this module adds is the handling of what comes
//! back: a rejected text becomes an error, and an error or a recovered value
//! that is no UTF-8 becomes the empty credential.

use short_crypt::ShortCrypt;
use vstd::prelude::*;
use vstd::string::*;
use vstd::utf8::*;

verus! {

/// The text that the cipher gives for `data` under `key`.
pub uninterp spec fn cipher_text(key: Seq<char>, data: Seq<u8>) -> Seq<char>;

/// The bytes that the cipher recovers from `text` under `key`, or `None`
/// where it rejects the text.
pub uninterp spec fn cipher_data(key: Seq<char>, text: Seq<char>) -> Option<Seq<u8>>;

/// A digit or an upper-case letter of ASCII.
pub open spec fn is_displayable_char(c: char) -> bool {
    ('0' <= c && c <= '9') || ('A' <= c && c <= 'Z')
}

/// Every character of `text` is a digit or an upper-case letter of ASCII.
pub open spec fn is_displayable(text: Seq<char>) -> bool {
    forall|i: int| 0 <= i < text.len() ==> is_displayable_char(#[trigger] text[i])
}

/// The length of the text for `n` bytes: their base-32 symbols, five bits
/// each, and one symbol more.
pub open spec fn cipher_text_len(n: nat) -> nat {
    (8 * n + 4) / 5 + 1
}

/// Calls `ShortCrypt::encrypt_to_qr_code_alphanumeric` on the cipher that
/// `ShortCrypt::new` makes of `key`.
///
/// Nothing of this contract is proved; it is taken from the cipher's source.
/// The call returns on every key and all data. The text depends on the key
/// and the data alone. It is the unpadded base-32 form (alphabet `A-Z2-7`) of
/// as many bytes as the data has, with one checksum symbol (`0-9A-V`) put in,
/// which gives the length and the alphabet stated. Decrypting the text under
/// the same key finds the checksum symbol where it was put, undoes the
/// base-32 form, the swaps and the masks in turn, and accepts the checksum:
/// it gives the data back.
#[verifier::external_body]
fn encrypt_alphanumeric(key: &str, data: &[u8]) -> (text: String)
    ensures
        text@ == cipher_text(key@, data@),
        text@.len() == cipher_text_len(data@.len()),
        is_displayable(text@),
        cipher_data(key@, text@) == Some(data@),
{
    ShortCrypt::new(key).encrypt_to_qr_code_alphanumeric(data)
}

/// Calls `ShortCrypt::decrypt_qr_code_alphanumeric` on the cipher that
/// `ShortCrypt::new` makes of `key`.
///
/// Nothing of this contract is proved; it is taken from the cipher's source.
/// The call returns on every key and every text. Whether it accepts the text,
/// and the bytes it then gives, depend on the key and the text alone. The
/// empty text is rejected before the key is looked at.
#[verifier::external_body]
fn decrypt_alphanumeric(key: &str, text: &str) -> (outcome: Result<Vec<u8>, &'static str>)
    ensures
        outcome is Ok <==> cipher_data(key@, text@) is Some,
        outcome matches Ok(data) ==> cipher_data(key@, text@) == Some(data@),
        text@.len() == 0 ==> outcome is Err,
{
    ShortCrypt::new(key).decrypt_qr_code_alphanumeric(text)
}

/// The stored text was not one that the cipher accepts under the key.
#[derive(Clone, Copy, Debug, PartialEq, Eq, Structural)]
pub struct DecodingError;

/// What revealing `text` under `key` gives: the cipher's bytes, or the error
/// where the text is empty or the cipher rejects it.
pub open spec fn spec_reveal(text: Seq<char>, key: Seq<char>) -> Result<Seq<u8>, DecodingError> {
    if text.len() == 0 {
        Err(DecodingError)
    } else {
        match cipher_data(key, text) {
            Some(data) => Ok(data),
            None => Err(DecodingError),
        }
    }
}

/// Obscures `plaintext` under `key` into a text of digits and upper-case
/// letters.
///
/// Every key is accepted: the cipher takes checksums of the key's bytes, so
/// no key is malformed and the transform cannot fail. Revealing the result
/// under the same key gives the bytes of `plaintext` back.
pub fn obscure(plaintext: &str, key: &str) -> (text: String)
    ensures
        text@ == cipher_text(key@, plaintext.spec_bytes()),
        text@.len() == cipher_text_len(plaintext.spec_bytes().len()),
        is_displayable(text@),
        spec_reveal(text@, key@) == Ok::<Seq<u8>, DecodingError>(plaintext.spec_bytes()),
{
    encrypt_alphanumeric(key, plaintext.as_bytes())
}

/// Takes what the cipher answered: its bytes where it accepted the text, and
/// the error of this library where it rejected it, whatever its message.
pub fn decoding_outcome(answer: Result<Vec<u8>, &'static str>) -> (outcome: Result<
    Vec<u8>,
    DecodingError,
>)
    ensures
        answer matches Ok(data) ==> outcome matches Ok(revealed) && revealed@ == data@,
        answer is Err ==> outcome == Err::<Vec<u8>, DecodingError>(DecodingError),
{
    match answer {
        Ok(data) => Ok(data),
        Err(_) => Err(DecodingError),
    }
}

/// Reveals what `text` hides under `key`.
///
/// Fails where the text is empty, as the stored field is before anything was
/// saved, or is otherwise none that the cipher accepts under this key.
pub fn reveal_bytes(text: &str, key: &str) -> (outcome: Result<Vec<u8>, DecodingError>)
    ensures
        outcome matches Ok(data) ==> spec_reveal(text@, key@) == Ok::<Seq<u8>, DecodingError>(data@),
        outcome matches Err(e) ==> spec_reveal(text@, key@) == Err::<Seq<u8>, DecodingError>(e),
{
    decoding_outcome(decrypt_alphanumeric(key, text))
}

/// The revealed bytes, or no bytes where revealing failed.
pub open spec fn spec_bytes_or_empty(outcome: Result<Seq<u8>, DecodingError>) -> Seq<u8> {
    match outcome {
        Ok(data) => data,
        Err(_) => Seq::empty(),
    }
}

/// Absorbs a failure to reveal: the bytes of a success, no bytes otherwise.
pub fn bytes_or_empty(outcome: Result<Vec<u8>, DecodingError>) -> (data: Vec<u8>)
    ensures
        outcome matches Ok(revealed) ==> data@ == revealed@,
        outcome is Err ==> data@ == Seq::<u8>::empty(),
{
    match outcome {
        Ok(revealed) => revealed,
        Err(_) => Vec::new(),
    }
}

/// Reveals what `text` hides under `key`, and gives no bytes where that
/// fails.
pub fn reveal_or_empty(text: &str, key: &str) -> (data: Vec<u8>)
    ensures
        data@ == spec_bytes_or_empty(spec_reveal(text@, key@)),
{
    bytes_or_empty(reveal_bytes(text, key))
}

/// Calls `String::from_utf8`.
///
/// Not proved, taken from its documentation: it gives the text that the bytes
/// encode where they are well-formed UTF-8, and an error where they are not.
#[verifier::external_body]
fn string_from_utf8(bytes: Vec<u8>) -> (text: Option<String>)
    ensures
        text is Some <==> valid_utf8(bytes@),
        text matches Some(s) ==> s@ == decode_utf8(bytes@),
{
    match String::from_utf8(bytes) {
        Ok(s) => Some(s),
        Err(_) => None,
    }
}

/// The credential that revealed bytes stand for: the text they encode, or the
/// empty credential where they are no UTF-8.
pub open spec fn spec_token_of(bytes: Seq<u8>) -> Seq<char> {
    if valid_utf8(bytes) {
        decode_utf8(bytes)
    } else {
        Seq::empty()
    }
}

/// Turns revealed bytes into a credential, the empty one where they are no
/// UTF-8.
pub fn token_of_bytes(bytes: Vec<u8>) -> (token: String)
    ensures
        token@ == spec_token_of(bytes@),
{
    match string_from_utf8(bytes) {
        Some(token) => token,
        None => String::new(),
    }
}

/// The credential that a stored text gives back under `key`.
pub open spec fn spec_recover_token(stored: Seq<char>, key: Seq<char>) -> Seq<char> {
    spec_token_of(spec_bytes_or_empty(spec_reveal(stored, key)))
}

/// Recovers the credential from its stored form. A stored text that is
/// empty, rejected by the cipher or no UTF-8 once revealed gives the empty
/// credential.
pub fn recover_token(stored: &str, key: &str) -> (token: String)
    ensures
        token@ == spec_recover_token(stored@, key@),
{
    token_of_bytes(reveal_or_empty(stored, key))
}

/// Revealing the empty text fails under every key, and the credential
/// recovered from it is empty.
pub proof fn lemma_reveal_of_empty(key: Seq<char>)
    ensures
        spec_reveal(Seq::empty(), key) == Err::<Seq<u8>, DecodingError>(DecodingError),
        spec_bytes_or_empty(spec_reveal(Seq::empty(), key)) == Seq::<u8>::empty(),
        spec_recover_token(Seq::empty(), key) == Seq::<char>::empty(),
{
    assert(valid_utf8(Seq::<u8>::empty()));
}

/// A credential comes back unchanged from its own UTF-8 encoding.
pub proof fn lemma_token_of_encoding(token: Seq<char>)
    ensures
        spec_token_of(encode_utf8(token)) == token,
{
    encode_utf8_valid_utf8(token);
    encode_utf8_decode_utf8(token);
}

/// Where a stored text reveals the UTF-8 encoding of a credential, that
/// credential is what is recovered from it.
pub proof fn lemma_recover_after_obscure(stored: Seq<char>, key: Seq<char>, token: Seq<char>)
    requires
        spec_reveal(stored, key) == Ok::<Seq<u8>, DecodingError>(encode_utf8(token)),
    ensures
        spec_recover_token(stored, key) == token,
{
    lemma_token_of_encoding(token);
}

} // verus!

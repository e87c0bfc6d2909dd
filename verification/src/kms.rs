//! The data path around KMS: what is sent to be encrypted, how the
//! ciphertext is stored as text, and how a decrypted reply becomes text again.
use base64::Engine;
use vstd::prelude::*;
use vstd::utf8::{decode_utf8, encode_utf8, valid_utf8};

verus! {

#[verifier::external_type_specification]
#[verifier::external_body]
pub struct ExDecodeError(base64::DecodeError);

#[verifier::external_type_specification]
#[verifier::external_body]
pub struct ExFromUtf8Error(std::string::FromUtf8Error);

/// The padded standard-alphabet base64 text (RFC 4648) of `bytes`.
pub uninterp spec fn base64_standard(bytes: Seq<u8>) -> Seq<char>;

/// The bytes that the padded standard-alphabet base64 text `text` stands
/// for; `None` when `text` is not canonical base64.
pub uninterp spec fn base64_standard_decoded(text: Seq<char>) -> Option<Seq<u8>>;

/// `base64::engine::general_purpose::STANDARD.encode`: the result is the
/// padded standard-alphabet base64 text of `bytes`; what that text is, is
/// named and not spelled out here.
#[verifier::external_body]
fn encode_base64(bytes: &[u8]) -> (r: String)
    ensures
        r@ == base64_standard(bytes@),
{
    base64::engine::general_purpose::STANDARD.encode(bytes)
}

/// `base64::engine::general_purpose::STANDARD.decode` on the bytes of
/// `text`: succeeds exactly on canonical text, with the bytes it stands for,
/// and gives back the bytes of any text that `encode` produced.
#[verifier::external_body]
fn decode_base64(text: &str) -> (r: Result<Vec<u8>, base64::DecodeError>)
    ensures
        r is Ok == base64_standard_decoded(text@) is Some,
        r matches Ok(v) ==> Some(v@) == base64_standard_decoded(text@),
        forall|b: Seq<u8>| text@ == base64_standard(b) ==> r is Ok && r->Ok_0@ == b,
{
    base64::engine::general_purpose::STANDARD.decode(text)
}

/// `String::from_utf8`: succeeds exactly on valid UTF-8, with the text it encodes.
#[verifier::external_body]
fn string_from_utf8(bytes: Vec<u8>) -> (r: Result<String, std::string::FromUtf8Error>)
    ensures
        r is Ok == valid_utf8(bytes@),
        r matches Ok(s) ==> s@ == decode_utf8(bytes@),
{
    String::from_utf8(bytes)
}

/// Why a KMS reply or a stored ciphertext could not be used.
#[derive(Clone, Copy, Debug, PartialEq, Eq, Structural)]
pub enum KmsError {
    /// KMS encrypted but returned no ciphertext.
    NoCiphertext,
    /// The stored ciphertext is not base64.
    InvalidBase64,
    /// KMS decrypted but returned no plaintext.
    NoPlaintext,
    /// The decrypted bytes are not UTF-8.
    NotUtf8,
}

/// The bytes handed to KMS for encryption: the UTF-8 encoding of `plaintext`.
pub fn plaintext_blob(plaintext: &str) -> (r: Vec<u8>)
    ensures
        r@ == encode_utf8(plaintext@),
{
    vstd::slice::slice_to_vec(plaintext.as_bytes())
}

/// The text stored for the ciphertext that KMS returned: its base64 text, or
/// `NoCiphertext` when KMS returned none.
pub fn ciphertext_to_base64(blob: Option<&[u8]>) -> (r: Result<String, KmsError>)
    ensures
        match blob {
            None => r == Err::<String, KmsError>(KmsError::NoCiphertext),
            Some(b) => r matches Ok(s) && s@ == base64_standard(b@),
        },
{
    match blob {
        None => Err(KmsError::NoCiphertext),
        Some(b) => Ok(encode_base64(b)),
    }
}

/// The ciphertext bytes that stored text stands for, to be handed to KMS
/// for decryption. Text made by `ciphertext_to_base64` gives back the very
/// bytes it was made from.
pub fn ciphertext_from_base64(text: &str) -> (r: Result<Vec<u8>, KmsError>)
    ensures
        r is Ok == base64_standard_decoded(text@) is Some,
        r matches Ok(v) ==> Some(v@) == base64_standard_decoded(text@),
        r matches Err(e) ==> e == KmsError::InvalidBase64,
        forall|b: Seq<u8>| text@ == base64_standard(b) ==> (r matches Ok(v) && v@ == b),
{
    match decode_base64(text) {
        Ok(v) => Ok(v),
        Err(_) => Err(KmsError::InvalidBase64),
    }
}

/// The text of the plaintext KMS returned: `NoPlaintext` when it returned
/// none, `NotUtf8` when its bytes are not UTF-8.
pub fn plaintext_from_blob(blob: Option<Vec<u8>>) -> (r: Result<String, KmsError>)
    ensures
        match blob {
            None => r == Err::<String, KmsError>(KmsError::NoPlaintext),
            Some(b) => if valid_utf8(b@) {
                r matches Ok(s) && s@ == decode_utf8(b@)
            } else {
                r == Err::<String, KmsError>(KmsError::NotUtf8)
            },
        },
{
    match blob {
        None => Err(KmsError::NoPlaintext),
        Some(b) => match string_from_utf8(b) {
            Ok(s) => Ok(s),
            Err(_) => Err(KmsError::NotUtf8),
        },
    }
}

/// The plaintext comes back intact: the bytes `plaintext_blob` hands to KMS
/// are valid UTF-8 and `plaintext_from_blob` turns them back into the same
/// text.
pub proof fn lemma_plaintext_round_trip(plaintext: Seq<char>)
    ensures
        valid_utf8(encode_utf8(plaintext)),
        decode_utf8(encode_utf8(plaintext)) == plaintext,
{
    vstd::utf8::encode_utf8_valid_utf8(plaintext);
    vstd::utf8::encode_utf8_decode_utf8(plaintext);
}

/// The text that reports a KMS data error.
pub open spec fn kms_error_text(e: KmsError) -> Seq<char> {
    match e {
        KmsError::NoCiphertext => "Encrypt returned no ciphertext"@,
        KmsError::InvalidBase64 => "decode base64 ciphertext"@,
        KmsError::NoPlaintext => "Decrypt returned no plaintext"@,
        KmsError::NotUtf8 => "KMS plaintext is not valid UTF-8"@,
    }
}

impl KmsError {
    /// The text that reports this error.
    pub fn message(&self) -> (r: String)
        ensures
            r@ == kms_error_text(*self),
    {
        match self {
            KmsError::NoCiphertext => String::from_str("Encrypt returned no ciphertext"),
            KmsError::InvalidBase64 => String::from_str("decode base64 ciphertext"),
            KmsError::NoPlaintext => String::from_str("Decrypt returned no plaintext"),
            KmsError::NotUtf8 => String::from_str("KMS plaintext is not valid UTF-8"),
        }
    }
}

} // verus!

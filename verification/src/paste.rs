use fitgirl_decrypt::base64::Engine;
use vstd::prelude::*;

verus! {

/// `fitgirl_decrypt::Paste`, a parsed locator with its key; opaque here.
#[verifier::external_type_specification]
#[verifier::external_body]
pub struct ExPaste<'a>(fitgirl_decrypt::Paste<'a>);

/// `fitgirl_decrypt::CipherInfo`, a retrieved paste before decryption;
/// opaque here.
#[verifier::external_type_specification]
#[verifier::external_body]
pub struct ExCipherInfo(fitgirl_decrypt::CipherInfo);

/// `fitgirl_decrypt::Error`; opaque here, told apart by [`classify`].
#[verifier::external_type_specification]
#[verifier::external_body]
pub struct ExPasteError(fitgirl_decrypt::Error);

/// Why a paste could not be turned into a decoded artifact.
#[derive(Clone, Copy, Debug, PartialEq, Eq, Structural)]
pub enum DecodeError {
    /// The key in the locator does not decode to 32 bytes; holds the length found.
    KeyLengthMismatch(usize),
    /// The paste declares zero key-derivation rounds.
    ZeroIterations,
    /// The locator lacks its `?` or `#` part.
    IllFormedUrl,
    /// The paste could not be retrieved.
    Request,
    /// The key in the locator is not base58.
    Base58,
    /// A field of the paste is not base64.
    Base64,
    /// The decrypted paste does not inflate.
    Decompress,
    /// The paste does not decrypt under the key of the locator.
    Decrypt,
    /// The nonce of the paste is not 16 bytes long.
    BadNonce,
    /// The paste decrypts, but holds no attachment.
    AttachmentMissing,
    /// The attachment is not a base64 torrent data URI.
    MalformedPayload,
}

/// What `Paste::parse_url` makes of a locator: the paste with its key, or
/// the error. It splits the locator at `?` and `#` and decodes the key from
/// base58; the result is named here and not restated.
pub uninterp spec fn parsed_paste(url: Seq<char>) -> Result<
    fitgirl_decrypt::Paste<'static>,
    fitgirl_decrypt::Error,
>;

/// Whether `Paste::parse_url` accepts a locator.
pub open spec fn paste_url_parses(url: Seq<char>) -> bool {
    parsed_paste(url) is Ok
}

/// The nonce that a retrieved paste holds, as the base64 text in which it
/// came.
pub uninterp spec fn nonce_of(cipher: fitgirl_decrypt::CipherInfo) -> Seq<char>;

/// What `Paste::decrypt` makes of a retrieved paste: the name and the data
/// URI of the attachment, or the error. Key derivation, decryption, inflation
/// and the reading of the plaintext are the outside crate's; the result is
/// named here and not restated.
pub uninterp spec fn decrypted(
    paste: fitgirl_decrypt::Paste,
    cipher: fitgirl_decrypt::CipherInfo,
) -> Result<(Seq<char>, Seq<char>), fitgirl_decrypt::Error>;

/// The kind of a `fitgirl_decrypt::Error`: its variant, with the length that
/// `KeyLengthMismatch` holds.
pub uninterp spec fn kind_of(error: fitgirl_decrypt::Error) -> DecodeError;

/// The name and the data URI of a decrypted attachment, as contracts see
/// them.
pub open spec fn attachment_view(
    attachment: Result<(String, String), fitgirl_decrypt::Error>,
) -> Result<(Seq<char>, Seq<char>), fitgirl_decrypt::Error> {
    match attachment {
        Ok((name, data_uri)) => Ok((name@, data_uri@)),
        Err(error) => Err(error),
    }
}

/// What the standard base64 engine (standard alphabet, canonical padding
/// required) decodes a text to, `None` where it rejects the text.
pub uninterp spec fn base64_decoded(text: Seq<char>) -> Option<Seq<u8>>;

/// Whether a nonce can be handed to the decryption: a nonce that is base64
/// must decode to 16 bytes.
pub open spec fn nonce_is_sound(nonce: Seq<char>) -> bool {
    base64_decoded(nonce) matches Some(bytes) ==> bytes.len() == 16
}

/// The bytes of an optional vector.
pub open spec fn bytes_view(bytes: Option<Vec<u8>>) -> Option<Seq<u8>> {
    match bytes {
        Some(v) => Some(v@),
        None => None,
    }
}

/// Calls `Paste::parse_url`. The result depends on the locator alone:
/// [`parsed_paste`] names it.
#[verifier::external_body]
pub(crate) fn parse_paste_url<'a>(url: &'a str) -> (parsed: Result<
    fitgirl_decrypt::Paste<'a>,
    fitgirl_decrypt::Error,
>)
    ensures
        parsed == parsed_paste(url@),
{
    fitgirl_decrypt::Paste::parse_url(url)
}

/// Reads the nonce field of a paste, as the base64 text in which it came:
/// the text that [`nonce_of`] names.
#[verifier::external_body]
pub(crate) fn cipher_nonce(cipher: &fitgirl_decrypt::CipherInfo) -> (nonce: String)
    ensures
        nonce@ == nonce_of(*cipher),
{
    cipher.adata.cipher.cipher_iv.clone()
}

/// Calls `Paste::decrypt` and hands back the name and the data URI of the
/// attachment. The decryption takes the decoded nonce of the paste as an
/// array of 16 bytes and panics on any other length, so a nonce that decodes
/// must decode to 16 bytes. The result depends on the key and the paste
/// alone: [`decrypted`] names it.
#[verifier::external_body]
pub(crate) fn decrypt_paste(
    paste: &fitgirl_decrypt::Paste<'_>,
    cipher: fitgirl_decrypt::CipherInfo,
) -> (attachment: Result<(String, String), fitgirl_decrypt::Error>)
    requires
        nonce_is_sound(nonce_of(cipher)),
    ensures
        attachment_view(attachment) == decrypted(*paste, cipher),
{
    paste.decrypt(cipher).map(|a| (a.attachment_name, a.attachment))
}

/// Tells the variants of `fitgirl_decrypt::Error` apart: the kind that
/// [`kind_of`] names.
#[verifier::external_body]
pub(crate) fn classify(error: &fitgirl_decrypt::Error) -> (kind: DecodeError)
    ensures
        kind == kind_of(*error),
{
    match error {
        fitgirl_decrypt::Error::KeyLengthMismatch(n) => DecodeError::KeyLengthMismatch(*n),
        fitgirl_decrypt::Error::ZeroIterations => DecodeError::ZeroIterations,
        fitgirl_decrypt::Error::IllFormedURL => DecodeError::IllFormedUrl,
        fitgirl_decrypt::Error::Nyquest(_) => DecodeError::Request,
        fitgirl_decrypt::Error::Base58(_) => DecodeError::Base58,
        fitgirl_decrypt::Error::Base64(_) => DecodeError::Base64,
        fitgirl_decrypt::Error::DecompressError => DecodeError::Decompress,
        fitgirl_decrypt::Error::AesGcm => DecodeError::Decrypt,
        fitgirl_decrypt::Error::JSONSerialize(_) => DecodeError::AttachmentMissing,
    }
}

/// Calls `Engine::decode` of the standard base64 engine, whose result
/// [`base64_decoded`] names.
#[verifier::external_body]
pub(crate) fn decode_base64(text: &str) -> (bytes: Option<Vec<u8>>)
    ensures
        bytes_view(bytes) == base64_decoded(text@),
{
    fitgirl_decrypt::base64::prelude::BASE64_STANDARD.decode(text).ok()
}

} // verus!

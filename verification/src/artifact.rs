use crate::paste::{
    base64_decoded, bytes_view, cipher_nonce, classify, decode_base64, decrypt_paste, decrypted,
    kind_of, nonce_is_sound, nonce_of, parse_paste_url, parsed_paste, DecodeError,
};
use crate::text::strip_prefix;
use vstd::prelude::*;

verus! {

/// What a [`DecodedArtifact`] stands for in contracts.
pub struct ArtifactView {
    pub name: Seq<char>,
    pub bytes: Seq<u8>,
}

/// A successfully decoded payload: the file name that the paste suggests, and
/// the bytes of the file.
#[derive(Debug)]
pub struct DecodedArtifact {
    pub name: String,
    pub bytes: Vec<u8>,
}

impl View for DecodedArtifact {
    type V = ArtifactView;

    open spec fn view(&self) -> ArtifactView {
        ArtifactView { name: self.name@, bytes: self.bytes@ }
    }
}

impl Clone for DecodedArtifact {
    fn clone(&self) -> (copy: DecodedArtifact)
        ensures
            copy@ == self@,
    {
        DecodedArtifact { name: self.name.clone(), bytes: self.bytes.clone() }
    }
}

/// What a decode attempt stands for in contracts: the artifact, if there is one.
pub open spec fn outcome_view(outcome: Result<DecodedArtifact, DecodeError>) -> Option<
    ArtifactView,
> {
    match outcome {
        Ok(artifact) => Some(artifact@),
        Err(_) => None,
    }
}

/// The marker in front of the base64 text of a torrent attachment.
pub open spec fn torrent_prefix() -> Seq<char> {
    "data:application/x-bittorrent;base64,"@
}

/// The bytes that a data URI carries: the base64 decoding of what follows the
/// torrent marker, where the URI starts with the marker and the rest decodes.
pub open spec fn torrent_bytes_of(data_uri: Seq<char>) -> Option<Seq<u8>> {
    if torrent_prefix().is_prefix_of(data_uri) {
        base64_decoded(data_uri.skip(torrent_prefix().len() as int))
    } else {
        None
    }
}

/// Extracts the torrent bytes from the data URI of an attachment.
pub fn torrent_bytes(data_uri: &str) -> (bytes: Option<Vec<u8>>)
    ensures
        bytes_view(bytes) == torrent_bytes_of(data_uri@),
{
    match strip_prefix(data_uri, "data:application/x-bittorrent;base64,") {
        Some(encoded) => decode_base64(encoded),
        None => None,
    }
}

/// Turns a decrypted attachment into an artifact. Fails with
/// `MalformedPayload`, and with nothing else, exactly when the data URI
/// carries no torrent bytes.
pub fn artifact_from_attachment(name: String, data_uri: &str) -> (outcome: Result<
    DecodedArtifact,
    DecodeError,
>)
    ensures
        match torrent_bytes_of(data_uri@) {
            Some(bytes) => outcome_view(outcome) == Some(
                ArtifactView { name: name@, bytes: bytes },
            ),
            None => outcome == Err::<DecodedArtifact, DecodeError>(DecodeError::MalformedPayload),
        },
{
    match torrent_bytes(data_uri) {
        Some(bytes) => Ok(DecodedArtifact { name, bytes }),
        None => Err(DecodeError::MalformedPayload),
    }
}

/// What decoding makes of a retrieved paste. A locator that does not parse
/// fails with the kind of the parser's error. A nonce that is base64 but not
/// 16 bytes long fails with `BadNonce`, before any decryption. A paste that
/// does not decrypt fails with the kind of the decryption's error. An
/// attachment whose data URI carries no torrent bytes fails with
/// `MalformedPayload`. Otherwise the artifact has the name of the attachment
/// and the torrent bytes of its data URI.
pub open spec fn decoding(paste_url: Seq<char>, cipher: fitgirl_decrypt::CipherInfo) -> Result<
    ArtifactView,
    DecodeError,
> {
    match parsed_paste(paste_url) {
        Err(error) => Err(kind_of(error)),
        Ok(paste) => if !nonce_is_sound(nonce_of(cipher)) {
            Err(DecodeError::BadNonce)
        } else {
            match decrypted(paste, cipher) {
                Err(error) => Err(kind_of(error)),
                Ok((name, data_uri)) => match torrent_bytes_of(data_uri) {
                    Some(bytes) => Ok(ArtifactView { name, bytes }),
                    None => Err(DecodeError::MalformedPayload),
                },
            }
        },
    }
}

/// What a decode attempt stands for in contracts, with its error.
pub open spec fn outcome_with_error(outcome: Result<DecodedArtifact, DecodeError>) -> Result<
    ArtifactView,
    DecodeError,
> {
    match outcome {
        Ok(artifact) => Ok(artifact@),
        Err(error) => Err(error),
    }
}

/// Decodes a retrieved paste: parses the locator for its key, decrypts the
/// paste under it and extracts the torrent bytes of the attachment, as
/// [`decoding`] tells.
pub fn decode(paste_url: &str, cipher: fitgirl_decrypt::CipherInfo) -> (outcome: Result<
    DecodedArtifact,
    DecodeError,
>)
    ensures
        outcome_with_error(outcome) == decoding(paste_url@, cipher),
{
    let paste = match parse_paste_url(paste_url) {
        Ok(paste) => paste,
        Err(e) => {
            return Err(classify(&e));
        },
    };
    let nonce = cipher_nonce(&cipher);
    if let Some(bytes) = decode_base64(nonce.as_str()) {
        if bytes.len() != 16 {
            return Err(DecodeError::BadNonce);
        }
    }
    match decrypt_paste(&paste, cipher) {
        Ok((name, data_uri)) => artifact_from_attachment(name, data_uri.as_str()),
        Err(e) => Err(classify(&e)),
    }
}

} // verus!

use aes_gcm::aead::consts::U16;
use aes_gcm::aead::generic_array::GenericArray;
use aes_gcm::aead::{Aead, KeyInit, Payload};
use aes_gcm::aes::Aes256;
use aes_gcm::AesGcm;
use fitgirl_decrypt::base64::prelude::BASE64_STANDARD;
use fitgirl_decrypt::base64::Engine;
use fitgirl_decrypt::{CipherInfo, Paste};
use fitgirl_torrent_scrap::artifact::{artifact_from_attachment, decode, torrent_bytes};
use fitgirl_torrent_scrap::paste::DecodeError;
use std::num::NonZeroU32;

const URL: &str =
    "https://paste.fitgirl-repacks.site/?225484ced69df1d1#SKYwGaZwZmRbN2fR4R9QQJzLTmzpctbDE7kZNpwesRW";
const URL_SHORT_KEY: &str =
    "https://paste.fitgirl-repacks.site/?225484ced69df1d1#kWYCcn3qmpehWMMBmZ1NJciKNA6eXfK6LPzwgGXFdJ";
const PREFIX: &str = "data:application/x-bittorrent;base64,";

fn paste_json(iv: &str, salt: &str, iterations: u32, ct: &str) -> String {
    format!(
        "{{\"adata\":[[\"{iv}\",\"{salt}\",{iterations},256,128,\"aes\",\"gcm\",\"none\"],\
         \"plaintext\",0,0],\"ct\":\"{ct}\"}}"
    )
}

fn cipher_from(json: &str) -> CipherInfo {
    serde_json::from_str(json).expect("a paste")
}

/// Encrypts `plaintext` the way the paste site does, under the key of `URL`.
fn encrypted(plaintext: &str, nonce: &[u8; 16]) -> CipherInfo {
    encrypted_as(plaintext.as_bytes(), nonce, "none")
}

/// Wraps bytes into one stored block of a deflate stream.
fn stored_block(data: &[u8]) -> Vec<u8> {
    let len = data.len() as u16;
    let mut block = vec![1u8];
    block.extend_from_slice(&len.to_le_bytes());
    block.extend_from_slice(&(!len).to_le_bytes());
    block.extend_from_slice(data);
    block
}

fn encrypted_as(plaintext: &[u8], nonce: &[u8; 16], compression: &str) -> CipherInfo {
    let salt = [7u8; 8];
    let iterations = 1000;
    let iv_text = BASE64_STANDARD.encode(nonce);
    let salt_text = BASE64_STANDARD.encode(salt);
    let adata = format!(
        "[[\"{iv_text}\",\"{salt_text}\",{iterations},256,128,\"aes\",\"gcm\",\
         \"{compression}\"],\"plaintext\",0,0]"
    );
    let paste = Paste::parse_url(URL).expect("a locator");
    let mut key = [0u8; 32];
    ring::pbkdf2::derive(
        ring::pbkdf2::PBKDF2_HMAC_SHA256,
        NonZeroU32::new(iterations).expect("rounds"),
        &salt,
        paste.master_key(),
        &mut key,
    );
    let cipher = AesGcm::<Aes256, U16>::new(GenericArray::from_slice(&key));
    let ct = cipher
        .encrypt(
            GenericArray::from_slice(nonce),
            Payload { msg: plaintext, aad: adata.as_bytes() },
        )
        .expect("encryption");
    let json = format!("{{\"adata\":{adata},\"ct\":\"{}\"}}", BASE64_STANDARD.encode(ct));
    cipher_from(&json)
}

#[test]
fn torrent_bytes_are_the_base64_payload_after_the_marker() {
    assert_eq!(torrent_bytes(&format!("{PREFIX}aGVsbG8gd29ybGQ=")), Some(b"hello world".to_vec()));
    assert_eq!(torrent_bytes(PREFIX), Some(Vec::new()));
    assert_eq!(torrent_bytes(&format!("{PREFIX}AAEC/w==")), Some(vec![0, 1, 2, 255]));
}

#[test]
fn torrent_bytes_need_the_marker() {
    assert_eq!(torrent_bytes("aGVsbG8gd29ybGQ="), None);
    assert_eq!(torrent_bytes(""), None);
    assert_eq!(torrent_bytes("data:application/x-bittorrent;base64"), None);
    assert_eq!(torrent_bytes("data:text/plain;base64,aGVsbG8gd29ybGQ="), None);
    assert_eq!(torrent_bytes(&format!(" {PREFIX}aGVsbG8gd29ybGQ=")), None);
}

#[test]
fn torrent_bytes_need_canonical_base64() {
    assert_eq!(torrent_bytes(&format!("{PREFIX}aGVsbG8gd29ybGQ")), None);
    assert_eq!(torrent_bytes(&format!("{PREFIX}aGVsbG8*d29ybGQ=")), None);
    assert_eq!(torrent_bytes(&format!("{PREFIX}aGVsbG8gd29ybGQ=\n")), None);
}

#[test]
fn attachment_becomes_an_artifact() {
    let artifact =
        artifact_from_attachment("game.torrent".to_string(), &format!("{PREFIX}AAEC/w=="))
            .expect("an artifact");
    assert_eq!(artifact.name, "game.torrent");
    assert_eq!(artifact.bytes, vec![0, 1, 2, 255]);
}

#[test]
fn malformed_attachment_is_a_failed_decode() {
    let outcome = artifact_from_attachment("game.torrent".to_string(), "data:,nothing");
    assert_eq!(outcome.err(), Some(DecodeError::MalformedPayload));
    let outcome = artifact_from_attachment("game.torrent".to_string(), &format!("{PREFIX}***"));
    assert_eq!(outcome.err(), Some(DecodeError::MalformedPayload));
}

#[test]
fn paste_decodes_to_its_named_artifact() {
    let plaintext = format!(
        "{{\"attachment\":\"{PREFIX}dG9ycmVudCBieXRlcw==\",\"attachment_name\":\"game.torrent\"}}"
    );
    let artifact = decode(URL, encrypted(&plaintext, &[3u8; 16])).expect("an artifact");
    assert_eq!(artifact.name, "game.torrent");
    assert_eq!(artifact.bytes, b"torrent bytes".to_vec());
}

#[test]
fn paste_without_attachment_is_reported_as_such() {
    let outcome = decode(URL, encrypted("{\"paste\":\"just text\"}", &[3u8; 16]));
    assert_eq!(outcome.err(), Some(DecodeError::AttachmentMissing));
}

#[test]
fn paste_with_malformed_attachment_fails() {
    let plaintext =
        "{\"attachment\":\"data:text/plain;base64,aGk=\",\"attachment_name\":\"game.torrent\"}";
    let outcome = decode(URL, encrypted(plaintext, &[3u8; 16]));
    assert_eq!(outcome.err(), Some(DecodeError::MalformedPayload));
}

#[test]
fn paste_under_another_key_does_not_decrypt() {
    let plaintext = format!(
        "{{\"attachment\":\"{PREFIX}dG9ycmVudCBieXRlcw==\",\"attachment_name\":\"game.torrent\"}}"
    );
    let other = "https://paste.fitgirl-repacks.site/?225484ced69df1d1#\
                 4vJ9JU1bJJE96FWSJKvHsmmFADCg4gpZQff4P3bkLKi";
    let outcome = decode(other, encrypted(&plaintext, &[3u8; 16]));
    assert_eq!(outcome.err(), Some(DecodeError::Decrypt));
}

#[test]
fn locator_that_does_not_parse_fails_before_decryption() {
    let cipher = || encrypted("{}", &[3u8; 16]);
    assert_eq!(
        decode("https://paste.fitgirl-repacks.site/", cipher()).err(),
        Some(DecodeError::IllFormedUrl)
    );
    assert_eq!(
        decode("https://paste.fitgirl-repacks.site/?225484ced69df1d1", cipher()).err(),
        Some(DecodeError::IllFormedUrl)
    );
    assert_eq!(decode(URL_SHORT_KEY, cipher()).err(), Some(DecodeError::KeyLengthMismatch(31)));
    assert_eq!(
        decode("https://paste.fitgirl-repacks.site/?225484ced69df1d1#0OIl", cipher()).err(),
        Some(DecodeError::Base58)
    );
}

#[test]
fn nonce_of_another_length_is_rejected() {
    let twelve = BASE64_STANDARD.encode([1u8; 12]);
    let salt = BASE64_STANDARD.encode([7u8; 8]);
    let ct = BASE64_STANDARD.encode([0u8; 32]);
    let outcome = decode(URL, cipher_from(&paste_json(&twelve, &salt, 1000, &ct)));
    assert_eq!(outcome.err(), Some(DecodeError::BadNonce));
    let empty = cipher_from(&paste_json("", &salt, 1000, &ct));
    assert_eq!(decode(URL, empty).err(), Some(DecodeError::BadNonce));
}

#[test]
fn fields_that_are_not_base64_fail() {
    let iv = BASE64_STANDARD.encode([1u8; 16]);
    let salt = BASE64_STANDARD.encode([7u8; 8]);
    let ct = BASE64_STANDARD.encode([0u8; 32]);
    let outcome = decode(URL, cipher_from(&paste_json("***", &salt, 1000, &ct)));
    assert_eq!(outcome.err(), Some(DecodeError::Base64));
    let outcome = decode(URL, cipher_from(&paste_json(&iv, &salt, 1000, "***")));
    assert_eq!(outcome.err(), Some(DecodeError::Base64));
}

#[test]
fn zero_rounds_fail() {
    let iv = BASE64_STANDARD.encode([1u8; 16]);
    let salt = BASE64_STANDARD.encode([7u8; 8]);
    let ct = BASE64_STANDARD.encode([0u8; 32]);
    let outcome = decode(URL, cipher_from(&paste_json(&iv, &salt, 0, &ct)));
    assert_eq!(outcome.err(), Some(DecodeError::ZeroIterations));
}

#[test]
fn garbage_ciphertext_does_not_decrypt() {
    let iv = BASE64_STANDARD.encode([1u8; 16]);
    let salt = BASE64_STANDARD.encode([7u8; 8]);
    let ct = BASE64_STANDARD.encode([0u8; 32]);
    let outcome = decode(URL, cipher_from(&paste_json(&iv, &salt, 1000, &ct)));
    assert_eq!(outcome.err(), Some(DecodeError::Decrypt));
}

#[test]
fn compressed_paste_decodes_to_its_named_artifact() {
    let plaintext = format!(
        "{{\"attachment\":\"{PREFIX}AAEC/w==\",\"attachment_name\":\"packed.torrent\"}}"
    );
    let cipher = encrypted_as(&stored_block(plaintext.as_bytes()), &[9u8; 16], "zlib");
    let artifact = decode(URL, cipher).expect("an artifact");
    assert_eq!(artifact.name, "packed.torrent");
    assert_eq!(artifact.bytes, vec![0, 1, 2, 255]);
}

#[test]
fn paste_that_does_not_inflate_fails() {
    let cipher = encrypted_as(&[0xff, 0xff, 0xff, 0xff], &[9u8; 16], "zlib");
    assert_eq!(decode(URL, cipher).err(), Some(DecodeError::Decompress));
}

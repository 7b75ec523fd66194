use auto_shutdown::crypto::{
    ctr_crypt, join_frame, mac_eq, open_bytes, open_frame, seal_bytes, seal_json, split_frame, FrameError,
};
use serde_json::Value;

const PYTHON_FRAME: &str = "HoOyT2EiuDzhoa8ymy6n1GxoIFh8UrTcj+iLw7+2dLwAAQIDBAUGBwgJCgsMDQ4PRsWPDkRICbkgZw1sUBVjl8FQNlwWAWcZ+zE+GNCMckjJ8miE4qCq2yIUUw7BhKj7051CCYiMe28fBvI9tA==";

const IV: [u8; 16] = [0, 1, 2, 3, 4, 5, 6, 7, 8, 9, 10, 11, 12, 13, 14, 15];

fn object(members: &[(&str, Value)]) -> Value {
    let mut map = serde_json::Map::new();
    for (key, value) in members {
        map.insert((*key).to_string(), value.clone());
    }
    Value::Object(map)
}

fn encode(data: &[u8]) -> String {
    base64::Engine::encode(&base64::engine::general_purpose::STANDARD, data)
}

fn decode(text: &str) -> Vec<u8> {
    base64::Engine::decode(&base64::engine::general_purpose::STANDARD, text).unwrap()
}

/// Sealing and opening give the message back.
#[test]
fn seal_open_roundtrip() {
    let msg = object(&[
        ("type", Value::from("ping")),
        ("ts", Value::from(1)),
        ("nonce", Value::from("abc")),
    ]);
    let frame = seal_json(&msg);
    assert_eq!(open_frame(&frame).unwrap(), msg);
}

/// A change of the ciphertext is noticed.
#[test]
fn tampered_frame_rejected() {
    let msg = object(&[("type", Value::from("ping"))]);
    let mut frame = seal_json(&msg);
    let last = frame.pop().unwrap();
    frame.push(if last == 'A' { 'B' } else { 'A' });
    assert!(open_frame(&frame).is_err());
}

/// A frame made by the Python side, with the vector 00..0f, opens here.
#[test]
fn python_frame_opens_in_rust() {
    let frame = PYTHON_FRAME;
    let msg = open_frame(frame).unwrap();
    assert_eq!(msg["type"], "ping");
    assert_eq!(msg["ts"], 1_700_000_000_000u64);
    assert_eq!(msg["nonce"], "0011223344556677");
}

/// Sealing under the same vector gives the frame of the Python side, letter for letter.
#[test]
fn sealing_gives_the_python_frame() {
    let plain = open_bytes(PYTHON_FRAME).unwrap();
    assert_eq!(seal_bytes(&plain, &IV), PYTHON_FRAME);
}

/// The same value is sealed under another vector each time.
#[test]
fn vectors_are_drawn_anew() {
    let msg = object(&[("type", Value::from("discover"))]);
    assert_ne!(seal_json(&msg), seal_json(&msg));
}

#[test]
fn white_space_around_a_frame_is_ignored() {
    let padded = format!(" \t\r\n{}\u{3000}\n", PYTHON_FRAME);
    assert_eq!(open_bytes(&padded).unwrap(), open_bytes(PYTHON_FRAME).unwrap());
}

#[test]
fn text_that_is_not_base64_is_refused() {
    let error = open_frame("!!!!").unwrap_err();
    assert!(matches!(error, FrameError::NotBase64(_)));
    assert_eq!(error.message(), "报文不是合法的 Base64: Invalid symbol 33, offset 0.");
}

#[test]
fn frame_without_ciphertext_is_refused() {
    let error = open_frame(&encode(&[0u8; 48])).unwrap_err();
    assert!(matches!(error, FrameError::TooShort(48)));
    assert_eq!(error.message(), "报文长度不足（48 字节），不是合法的加密帧");
    assert!(matches!(open_frame("").unwrap_err(), FrameError::TooShort(0)));
    // An empty plaintext seals to such a frame, which holds the tag and the vector.
    assert_eq!(decode(&seal_bytes(&[], &IV))[32..], IV);
    assert!(matches!(open_bytes(&seal_bytes(&[], &IV)).unwrap_err(), FrameError::TooShort(48)));
}

#[test]
fn foreign_tag_is_refused() {
    let mut data = decode(PYTHON_FRAME);
    for place in [0usize, 31, 32, 47, 48, 60] {
        data[place] ^= 1;
        let error = open_frame(&encode(&data)).unwrap_err();
        assert!(matches!(error, FrameError::BadMac));
        assert_eq!(
            error.message(),
            "HMAC 校验失败：报文来源不是合法设备（口令不一致或数据被篡改）"
        );
        data[place] ^= 1;
    }
    assert!(open_frame(&encode(&data)).is_ok());
}

#[test]
fn plaintext_that_is_not_json_is_refused() {
    let frame = seal_bytes(b"no json", &IV);
    assert_eq!(open_bytes(&frame).unwrap(), b"no json");
    let error = open_frame(&frame).unwrap_err();
    assert!(matches!(error, FrameError::NotJson(_)));
    assert_eq!(
        error.message(),
        "解密后的报文不是合法 JSON: expected ident at line 1 column 2"
    );
}

/// Encrypting twice gives back what was there.
#[test]
fn key_stream_cancels() {
    let key = [7u8; 32];
    for length in [0usize, 1, 16, 33] {
        let plain: Vec<u8> = (0..length).map(|i| i as u8).collect();
        let mut data = plain.clone();
        ctr_crypt(&key, &IV, &mut data);
        assert_eq!(data.len(), length);
        assert!(length == 0 || data != plain);
        ctr_crypt(&key, &IV, &mut data);
        assert_eq!(data, plain);
    }
}

/// The whole vector is one big-endian counter, which starts over at zero.
#[test]
fn counter_is_big_endian_and_starts_over() {
    let key = [9u8; 32];
    let stream = |iv: [u8; 16], length: usize| {
        let mut data = vec![0u8; length];
        ctr_crypt(&key, &iv, &mut data);
        data
    };
    let mut next = IV;
    next[15] += 1;
    assert_eq!(stream(IV, 32)[16..], stream(next, 16)[..]);
    let mut carry = [0u8; 16];
    carry[15] = 0xff;
    let mut carried = [0u8; 16];
    carried[14] = 1;
    assert_eq!(stream(carry, 32)[16..], stream(carried, 16)[..]);
    assert_eq!(stream([0xff; 16], 32)[16..], stream([0; 16], 16)[..]);
}

/// The tag of a frame is HMAC-SHA256, written out over SHA-256.
#[test]
fn tag_is_two_hashes_of_the_masked_key() {
    let hash = |data: &[u8]| -> Vec<u8> { <sha2::Sha256 as sha2::Digest>::digest(data).to_vec() };
    let key = hash(b"auto-shutdown-v1:mac");
    let masked = |byte: u8| -> Vec<u8> {
        (0..64).map(|i| key.get(i).copied().unwrap_or(0) ^ byte).collect()
    };
    let data = decode(PYTHON_FRAME);
    let inner = hash(&[masked(0x36), data[32..].to_vec()].concat());
    assert_eq!(hash(&[masked(0x5c), inner].concat()), data[..32].to_vec());
}

#[test]
fn tags_are_compared_byte_by_byte() {
    assert!(mac_eq(&[], &[]));
    assert!(mac_eq(&[1, 2, 3], &[1, 2, 3]));
    assert!(!mac_eq(&[1, 2, 3], &[1, 2, 4]));
    assert!(!mac_eq(&[1, 2, 3], &[1, 2]));
    assert!(!mac_eq(&[0, 2, 3], &[1, 2, 3]));
}

#[test]
fn frame_comes_apart_and_together() {
    let data = decode(PYTHON_FRAME);
    let parts = split_frame(&data).unwrap();
    assert_eq!(parts.mac.len(), 32);
    assert_eq!(parts.iv, IV);
    assert_eq!(join_frame(&parts.mac, &parts.iv, &parts.ct), data);
    assert!(split_frame(&data[..48]).is_err());
    assert!(split_frame(&data[..49]).is_ok());
}

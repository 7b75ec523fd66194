//! Frame encryption.
//!
//! Every message travels as the Base64 text of tag, initialization vector and ciphertext. The
//! ciphertext is AES-256 in counter mode, and the tag is HMAC-SHA256 over vector and ciphertext.
//! Both keys come from the passphrase, so a frame that opens was made by someone who has it.
use vstd::arithmetic::div_mod::lemma_mod_breakdown;
use vstd::arithmetic::power::{lemma_pow_positive, pow};
use vstd::prelude::*;
use vstd::slice::slice_to_vec;
use vstd::utf8::encode_utf8;

use crate::json;
use crate::protocol::PASSPHRASE;
use crate::text::{self, Decoded};

verus! {

/// Length of the initialization vector.
pub const IV_LEN: usize = 16;

/// Length of the authentication tag.
pub const MAC_LEN: usize = 32;

/// Length of each derived key.
pub const KEY_LEN: usize = 32;

/// The SHA-256 digest of `data`.
pub uninterp spec fn sha256_digest(data: Seq<u8>) -> Seq<u8>;

/// The block of sixteen bytes that AES-256 makes of a block under `key`.
pub uninterp spec fn aes256_block(key: Seq<u8>, block: Seq<u8>) -> Seq<u8>;

/// The standard Base64 text of `data`, padded.
pub uninterp spec fn base64_encoded(data: Seq<u8>) -> Seq<char>;

/// What the standard Base64 decoder makes of `text`: the bytes, or the text of its error.
pub uninterp spec fn base64_decoded(text: Seq<char>) -> Decoded;

/// The key of HMAC-SHA256 as one block of the hash: a key that is too long is hashed, and zeros
/// follow.
pub open spec fn hmac_block(key: Seq<u8>) -> Seq<u8> {
    let short = if key.len() <= 64 {
        key
    } else {
        sha256_digest(key)
    };
    Seq::new(
        64,
        |i: int|
            if i < short.len() {
                short[i]
            } else {
                0
            },
    )
}

/// A block combined with one byte by exclusive or.
pub open spec fn xor_each(block: Seq<u8>, byte: u8) -> Seq<u8> {
    Seq::new(block.len(), |i: int| block[i] ^ byte)
}

/// The HMAC-SHA256 tag of `message` under `key`: the hash of the key and a hash of the key and the
/// message, the key masked in two ways.
pub open spec fn hmac_sha256_tag(key: Seq<u8>, message: Seq<u8>) -> Seq<u8> {
    let block = hmac_block(key);
    let inner = sha256_digest(xor_each(block, 0x36) + message);
    sha256_digest(xor_each(block, 0x5c) + inner)
}

/// The number that some bytes give, the highest byte first.
pub open spec fn be_value(bytes: Seq<u8>) -> nat
    decreases bytes.len(),
{
    if bytes.len() == 0 {
        0
    } else {
        256 * be_value(bytes.drop_last()) + bytes.last() as nat
    }
}

/// The lowest `len` bytes of a number, the highest byte first.
pub open spec fn be_bytes(n: nat, len: nat) -> Seq<u8>
    decreases len,
{
    if len == 0 {
        Seq::empty()
    } else {
        be_bytes(n / 256, (len - 1) as nat).push((n % 256) as u8)
    }
}

/// The counter block `n` blocks after the vector: the whole vector is one big-endian number, which
/// starts over at zero behind its largest value.
pub open spec fn counter_block(iv: Seq<u8>, n: nat) -> Seq<u8> {
    be_bytes(be_value(iv) + n, 16)
}

/// The byte at `index` of the AES-256-CTR key stream for `key` and `iv`: the encrypted counter
/// blocks, one after the other.
pub open spec fn aes256_ctr_byte(key: Seq<u8>, iv: Seq<u8>, index: nat) -> u8 {
    aes256_block(key, counter_block(iv, index / 16))[(index % 16) as int]
}

/// A character of the standard Base64 alphabet, or its padding.
pub open spec fn is_base64_char(c: char) -> bool {
    ||| 'A' <= c <= 'Z'
    ||| 'a' <= c <= 'z'
    ||| '0' <= c <= '9'
    ||| c == '+'
    ||| c == '/'
    ||| c == '='
}

/// Calls `sha2::Sha256`: the digest of `data`.
#[verifier::external_body]
fn sha256(data: &[u8]) -> (r: [u8; KEY_LEN])
    ensures
        r@ == sha256_digest(data@),
{
    let mut h = <sha2::Sha256 as sha2::Digest>::new();
    sha2::Digest::update(&mut h, data);
    sha2::Digest::finalize(h).into()
}

/// Calls `ctr::Ctr128BE<aes::Aes256>`: every byte of `data` is combined by exclusive or with the
/// byte of the key stream at its place. The key stream is what `aes::Aes256` makes of the counter
/// blocks, sixteen bytes each. The 128-bit block counter outlasts any buffer.
#[verifier::external_body]
fn apply_keystream(key: &[u8; KEY_LEN], iv: &[u8; IV_LEN], data: &mut [u8])
    ensures
        final(data)@.len() == old(data)@.len(),
        forall|i: int|
            0 <= i < old(data)@.len() ==> #[trigger] final(data)@[i] == old(data)@[i]
                ^ aes256_block(key@, counter_block(iv@, i as nat / 16))[i % 16],
{
    let mut cipher = <ctr::Ctr128BE<aes::Aes256> as ctr::cipher::KeyIvInit>::new_from_slices(
        key,
        iv,
    ).expect("the key and the vector have the lengths of the cipher");
    ctr::cipher::StreamCipher::apply_keystream(&mut cipher, data);
}

/// Calls `hmac::Hmac<sha2::Sha256>`, which takes keys of any length, on two pieces in turn: the
/// tag of the pieces joined, which two calls of SHA-256 on the masked key give.
#[verifier::external_body]
fn hmac_sha256(key: &[u8], first: &[u8], second: &[u8]) -> (r: [u8; MAC_LEN])
    ensures
        r@ == hmac_sha256_tag(key@, first@ + second@),
{
    let mut mac = <hmac::Hmac<sha2::Sha256> as hmac::KeyInit>::new_from_slice(key).expect(
        "HMAC takes keys of any length",
    );
    hmac::Mac::update(&mut mac, first);
    hmac::Mac::update(&mut mac, second);
    hmac::Mac::finalize(mac).into_bytes().into()
}

/// Calls `encode` of `base64::engine::general_purpose::STANDARD`. The text holds characters of
/// the alphabet and padding only, and `decode` of the same engine gives the bytes back.
#[verifier::external_body]
fn base64_encode(data: &[u8]) -> (r: String)
    requires
        (data@.len() + 2) / 3 * 4 <= usize::MAX,
    ensures
        r@ == base64_encoded(data@),
        base64_decoded(r@) == Decoded::Ok(data@),
        forall|i: int| 0 <= i < r@.len() ==> is_base64_char(#[trigger] r@[i]),
{
    base64::Engine::encode(&base64::engine::general_purpose::STANDARD, data)
}

/// Calls `decode` of `base64::engine::general_purpose::STANDARD`, with the text of its error
/// where it reports one.
#[verifier::external_body]
fn base64_decode(text: &str) -> (r: Result<Vec<u8>, String>)
    ensures
        match r {
            Ok(data) => base64_decoded(text@) == Decoded::Ok(data@),
            Err(error) => base64_decoded(text@) == Decoded::Err(error@),
        },
{
    base64::Engine::decode(&base64::engine::general_purpose::STANDARD, text).map_err(
        |e| e.to_string(),
    )
}

/// Calls `rand::Rng::fill_bytes` on `rand::rng`. Nothing is claimed of the bytes.
#[verifier::external_body]
pub(crate) fn random_bytes<const N: usize>() -> (r: [u8; N]) {
    let mut buf = [0u8; N];
    rand::Rng::fill_bytes(&mut rand::rng(), &mut buf);
    buf
}

/// `data` combined by exclusive or with the AES-256-CTR key stream for `key` and `iv`.
pub open spec fn keystream_xor(key: Seq<u8>, iv: Seq<u8>, data: Seq<u8>) -> Seq<u8> {
    Seq::new(data.len(), |i: int| data[i] ^ aes256_ctr_byte(key, iv, i as nat))
}

/// Encrypts or decrypts `data` with AES-256-CTR, which is the same operation.
pub fn ctr_crypt(key: &[u8; KEY_LEN], iv: &[u8; IV_LEN], data: &mut [u8])
    ensures
        final(data)@ == keystream_xor(key@, iv@, old(data)@),
{
    apply_keystream(key, iv, data);
    assert(data@ =~= keystream_xor(key@, iv@, old(data)@));
}

/// The encryption key that the passphrase gives.
pub open spec fn enc_key() -> Seq<u8> {
    sha256_digest(encode_utf8(PASSPHRASE@ + ":enc"@))
}

/// The authentication key that the passphrase gives.
pub open spec fn mac_key() -> Seq<u8> {
    sha256_digest(encode_utf8(PASSPHRASE@ + ":mac"@))
}

/// The authentication tag of a frame, over the vector and the ciphertext.
pub open spec fn frame_tag(iv: Seq<u8>, ct: Seq<u8>) -> Seq<u8> {
    hmac_sha256_tag(mac_key(), iv + ct)
}

/// The bytes of the frame that carries `plain` under the vector `iv`: tag, vector, ciphertext.
pub open spec fn frame_bytes(plain: Seq<u8>, iv: Seq<u8>) -> Seq<u8> {
    let ct = keystream_xor(enc_key(), iv, plain);
    frame_tag(iv, ct) + iv + ct
}

/// The text of the frame that carries `plain` under the vector `iv`.
pub open spec fn sealed(plain: Seq<u8>, iv: Seq<u8>) -> Seq<char> {
    base64_encoded(frame_bytes(plain, iv))
}

/// Why a frame is refused, in terms of plain values.
pub enum FrameErrorView {
    NotBase64(Seq<char>),
    TooShort(nat),
    BadMac,
    NotJson(Seq<char>),
}

/// What the bytes of a frame open to.
pub open spec fn opened_data(data: Seq<u8>) -> Result<Seq<u8>, FrameErrorView> {
    if data.len() <= MAC_LEN + IV_LEN {
        Err(FrameErrorView::TooShort(data.len()))
    } else {
        let mac = data.subrange(0, MAC_LEN as int);
        let iv = data.subrange(MAC_LEN as int, MAC_LEN + IV_LEN);
        let ct = data.subrange(MAC_LEN + IV_LEN, data.len() as int);
        if mac != frame_tag(iv, ct) {
            Err(FrameErrorView::BadMac)
        } else {
            Ok(keystream_xor(enc_key(), iv, ct))
        }
    }
}

/// What the text of a frame opens to: the plaintext, or why the frame is refused.
pub open spec fn opened(frame: Seq<char>) -> Result<Seq<u8>, FrameErrorView> {
    match base64_decoded(text::trimmed(frame)) {
        Ok(data) => opened_data(data),
        Err(error) => Err(FrameErrorView::NotBase64(error)),
    }
}

/// The compact text of the JSON value that a frame opens to, or why the frame is refused.
pub open spec fn opened_json(frame: Seq<char>) -> Result<Seq<u8>, FrameErrorView> {
    match opened(frame) {
        Ok(plain) => match json::json_parsed(plain) {
            Ok(value) => Ok(value),
            Err(error) => Err(FrameErrorView::NotJson(error)),
        },
        Err(error) => Err(error),
    }
}

/// Why a frame is refused.
#[derive(Debug)]
pub enum FrameError {
    /// The text is not Base64; the decoder's own words.
    NotBase64(String),
    /// The frame has this many bytes, too few to hold any ciphertext.
    TooShort(usize),
    /// The authentication tag is wrong.
    BadMac,
    /// The plaintext is not JSON; the parser's own words.
    NotJson(String),
}

impl View for FrameError {
    type V = FrameErrorView;

    open spec fn view(&self) -> FrameErrorView {
        match self {
            FrameError::NotBase64(e) => FrameErrorView::NotBase64(e@),
            FrameError::TooShort(n) => FrameErrorView::TooShort(*n as nat),
            FrameError::BadMac => FrameErrorView::BadMac,
            FrameError::NotJson(e) => FrameErrorView::NotJson(e@),
        }
    }
}

impl FrameErrorView {
    /// The words for the user.
    pub open spec fn message(self) -> Seq<char> {
        match self {
            FrameErrorView::NotBase64(e) => "报文不是合法的 Base64: "@ + e,
            FrameErrorView::TooShort(n) => "报文长度不足（"@ + text::decimal_digits(n)
                + " 字节），不是合法的加密帧"@,
            FrameErrorView::BadMac =>
                "HMAC 校验失败：报文来源不是合法设备（口令不一致或数据被篡改）"@,
            FrameErrorView::NotJson(e) => "解密后的报文不是合法 JSON: "@ + e,
        }
    }
}

impl FrameError {
    /// The words for the user.
    pub fn message(&self) -> (r: String)
        ensures
            r@ == self@.message(),
    {
        match self {
            FrameError::NotBase64(e) => text::join("报文不是合法的 Base64: ", e.as_str()),
            FrameError::TooShort(n) => text::join3(
                "报文长度不足（",
                text::decimal(*n as u64).as_str(),
                " 字节），不是合法的加密帧",
            ),
            FrameError::BadMac =>
                "HMAC 校验失败：报文来源不是合法设备（口令不一致或数据被篡改）".to_owned(),
            FrameError::NotJson(e) => text::join("解密后的报文不是合法 JSON: ", e.as_str()),
        }
    }
}

/// The keys that the passphrase gives.
struct Keys {
    /// Encryption key.
    enc: [u8; KEY_LEN],
    /// Authentication key.
    mac: [u8; KEY_LEN],
}

impl Keys {
    /// Derives both keys from the passphrase.
    fn derive() -> (r: Keys)
        ensures
            r.enc@ == enc_key(),
            r.mac@ == mac_key(),
    {
        Keys {
            enc: sha256(text::join(PASSPHRASE, ":enc").as_str().as_bytes()),
            mac: sha256(text::join(PASSPHRASE, ":mac").as_str().as_bytes()),
        }
    }
}

/// Computes the authentication tag of a frame.
fn frame_mac(keys: &Keys, iv: &[u8], ct: &[u8]) -> (r: [u8; MAC_LEN])
    requires
        keys.mac@ == mac_key(),
    ensures
        r@ == frame_tag(iv@, ct@),
{
    hmac_sha256(&keys.mac, iv, ct)
}

/// Compares two tags in time that depends on their lengths alone.
pub fn mac_eq(a: &[u8], b: &[u8]) -> (r: bool)
    ensures
        r == (a@ == b@),
{
    if a.len() != b.len() {
        return false;
    }
    let n: usize = a.len();
    let mut acc: u8 = 0;
    let mut i: usize = 0;
    while i < n
        invariant
            i <= n,
            n == a@.len(),
            n == b@.len(),
            acc == 0 <==> (forall|j: int| 0 <= j < i ==> a@[j] == b@[j]),
        decreases n - i,
    {
        let x: u8 = a[i];
        let y: u8 = b[i];
        let ghost before: u8 = acc;
        assert((before | (x ^ y)) == 0 <==> before == 0 && x == y) by (bit_vector);
        acc = acc | (x ^ y);
        i = i + 1;
        assert(x == a@[i - 1] && y == b@[i - 1]);
    }
    assert(acc == 0 ==> a@ =~= b@);
    acc == 0
}

/// A frame taken apart.
pub struct FrameParts {
    /// Authentication tag.
    pub mac: Vec<u8>,
    /// Initialization vector.
    pub iv: [u8; IV_LEN],
    /// Ciphertext.
    pub ct: Vec<u8>,
}

/// Copies sixteen bytes into an array.
fn to_iv(bytes: &[u8]) -> (r: [u8; IV_LEN])
    requires
        bytes@.len() == IV_LEN,
    ensures
        r@ == bytes@,
{
    let mut iv: [u8; IV_LEN] = [0u8; 16];
    let mut i: usize = 0;
    while i < IV_LEN
        invariant
            i <= IV_LEN,
            bytes@.len() == IV_LEN,
            forall|j: int| 0 <= j < i ==> iv@[j] == bytes@[j],
        decreases IV_LEN - i,
    {
        iv[i] = bytes[i];
        i = i + 1;
    }
    assert(iv@ =~= bytes@);
    iv
}

/// Takes the bytes of a frame apart; a frame without any ciphertext is refused.
pub fn split_frame(data: &[u8]) -> (r: Result<FrameParts, FrameError>)
    ensures
        match r {
            Ok(parts) => {
                &&& parts.mac@.len() == MAC_LEN
                &&& parts.ct@.len() > 0
                &&& data@ == parts.mac@ + parts.iv@ + parts.ct@
            },
            Err(error) => data@.len() <= MAC_LEN + IV_LEN && error@ == FrameErrorView::TooShort(
                data@.len(),
            ),
        },
{
    if data.len() <= MAC_LEN + IV_LEN {
        return Err(FrameError::TooShort(data.len()));
    }
    let (mac, rest) = data.split_at(MAC_LEN);
    let (iv, ct) = rest.split_at(IV_LEN);
    let parts = FrameParts { mac: slice_to_vec(mac), iv: to_iv(iv), ct: slice_to_vec(ct) };
    assert(data@ =~= parts.mac@ + parts.iv@ + parts.ct@);
    Ok(parts)
}

/// Puts the bytes of a frame together: tag, vector, ciphertext.
pub fn join_frame(mac: &[u8], iv: &[u8], ct: &[u8]) -> (r: Vec<u8>)
    ensures
        r@ == mac@ + iv@ + ct@,
{
    let mut frame: Vec<u8> = slice_to_vec(mac);
    frame.extend_from_slice(iv);
    frame.extend_from_slice(ct);
    assert(frame@ =~= mac@ + iv@ + ct@);
    frame
}

/// A text that begins and ends with a character other than white space is its own trimming.
proof fn lemma_trimmed_is_same(s: Seq<char>)
    requires
        s.len() > 0 ==> !text::is_white_space(s.first()) && !text::is_white_space(s.last()),
    ensures
        text::trimmed(s) == s,
{
}

/// The key stream cancels itself: encrypting twice with the same key and vector gives back what was
/// there, and no length changes.
pub proof fn law_keystream_cancels(key: Seq<u8>, iv: Seq<u8>, data: Seq<u8>)
    ensures
        keystream_xor(key, iv, data).len() == data.len(),
        keystream_xor(key, iv, keystream_xor(key, iv, data)) == data,
{
    assert forall|i: int| 0 <= i < data.len() implies #[trigger] keystream_xor(
        key,
        iv,
        keystream_xor(key, iv, data),
    )[i] == data[i] by {
        let x = data[i];
        let k = aes256_ctr_byte(key, iv, i as nat);
        assert((x ^ k) ^ k == x) by (bit_vector);
    }
    assert(keystream_xor(key, iv, keystream_xor(key, iv, data)) =~= data);
}

/// The counter blocks are sixteen bytes that count up from the vector, the highest byte first, and
/// start over at zero behind the largest value.
pub proof fn law_counter_counts_up(iv: Seq<u8>, n: nat)
    requires
        iv.len() == IV_LEN,
    ensures
        counter_block(iv, n).len() == 16,
        be_value(counter_block(iv, n)) == (be_value(iv) + n) as int % pow(256, 16),
        counter_block(iv, 0) == iv,
{
    lemma_be_bytes(be_value(iv) + n, 16);
    lemma_be_value(iv);
}

/// The lowest bytes of a number give what is left of it.
proof fn lemma_be_bytes(n: nat, len: nat)
    ensures
        be_bytes(n, len).len() == len,
        be_value(be_bytes(n, len)) == n as int % pow(256, len),
    decreases len,
{
    reveal(pow);
    if len > 0 {
        let rest = (len - 1) as nat;
        lemma_be_bytes(n / 256, rest);
        lemma_pow_positive(256, rest);
        lemma_mod_breakdown(n as int, 256, pow(256, rest));
        assert(be_bytes(n, len).drop_last() =~= be_bytes(n / 256, rest));
    }
}

/// Bytes are the bytes of their number.
proof fn lemma_be_value(bytes: Seq<u8>)
    ensures
        be_bytes(be_value(bytes), bytes.len()) == bytes,
    decreases bytes.len(),
{
    if bytes.len() > 0 {
        lemma_be_value(bytes.drop_last());
        assert(be_value(bytes) / 256 == be_value(bytes.drop_last()));
        assert(be_value(bytes) % 256 == bytes.last());
        assert(bytes.drop_last().push(bytes.last()) =~= bytes);
    } else {
        assert(bytes =~= Seq::empty());
    }
}

/// The bytes of a frame that was sealed open to its plaintext, where there is any.
proof fn lemma_sealed_bytes_open(plain: Seq<u8>, iv: Seq<u8>)
    requires
        plain.len() > 0,
        iv.len() == IV_LEN,
        frame_tag(iv, keystream_xor(enc_key(), iv, plain)).len() == MAC_LEN,
    ensures
        opened_data(frame_bytes(plain, iv)) == Ok::<Seq<u8>, FrameErrorView>(plain),
{
    let ct = keystream_xor(enc_key(), iv, plain);
    let data = frame_bytes(plain, iv);
    assert(data.subrange(0, MAC_LEN as int) =~= frame_tag(iv, ct));
    assert(data.subrange(MAC_LEN as int, MAC_LEN + IV_LEN) =~= iv);
    assert(data.subrange(MAC_LEN + IV_LEN, data.len() as int) =~= ct);
    law_keystream_cancels(enc_key(), iv, plain);
}

/// Seals `plain` under the vector `iv`.
///
/// A frame with any plaintext opens to that plaintext again, and one without any is too short.
pub fn seal_bytes(plain: &[u8], iv: &[u8; IV_LEN]) -> (r: String)
    requires
        plain@.len() <= isize::MAX,
    ensures
        r@ == sealed(plain@, iv@),
        base64_decoded(r@) == Decoded::Ok(frame_bytes(plain@, iv@)),
        forall|i: int| 0 <= i < r@.len() ==> is_base64_char(#[trigger] r@[i]),
        opened(r@) == if plain@.len() > 0 {
            Ok::<Seq<u8>, FrameErrorView>(plain@)
        } else {
            Err(FrameErrorView::TooShort((MAC_LEN + IV_LEN) as nat))
        },
{
    let keys = Keys::derive();
    let mut ct: Vec<u8> = slice_to_vec(plain);
    ctr_crypt(&keys.enc, iv, ct.as_mut_slice());
    assert(ct@ =~= keystream_xor(enc_key(), iv@, plain@));
    let mac = frame_mac(&keys, iv, ct.as_slice());
    let frame = join_frame(&mac, iv, ct.as_slice());
    let r = base64_encode(frame.as_slice());
    proof {
        if plain@.len() > 0 {
            lemma_sealed_bytes_open(plain@, iv@);
        }
        lemma_trimmed_is_same(r@);
    }
    r
}

/// Opens the text of a frame. The tag is checked before anything is decrypted.
pub fn open_bytes(frame: &str) -> (r: Result<Vec<u8>, FrameError>)
    ensures
        match r {
            Ok(plain) => opened(frame@) == Ok::<Seq<u8>, FrameErrorView>(plain@),
            Err(error) => opened(frame@) == Err::<Seq<u8>, FrameErrorView>(error@),
        },
{
    let data: Vec<u8> = match base64_decode(text::trim(frame)) {
        Ok(data) => data,
        Err(error) => return Err(FrameError::NotBase64(error)),
    };
    let parts = match split_frame(data.as_slice()) {
        Ok(parts) => parts,
        Err(error) => return Err(error),
    };
    proof {
        assert(data@.subrange(0, MAC_LEN as int) =~= parts.mac@);
        assert(data@.subrange(MAC_LEN as int, MAC_LEN + IV_LEN) =~= parts.iv@);
        assert(data@.subrange(MAC_LEN + IV_LEN, data@.len() as int) =~= parts.ct@);
    }
    let keys = Keys::derive();
    let expected = frame_mac(&keys, &parts.iv, parts.ct.as_slice());
    if !mac_eq(parts.mac.as_slice(), &expected) {
        return Err(FrameError::BadMac);
    }
    let mut plain: Vec<u8> = slice_to_vec(parts.ct.as_slice());
    ctr_crypt(&keys.enc, &parts.iv, plain.as_mut_slice());
    assert(plain@ =~= keystream_xor(enc_key(), parts.iv@, parts.ct@));
    Ok(plain)
}

/// Seals a JSON value under a vector drawn at random; the text can be sent as it stands.
///
/// Whatever the vector, the frame opens to the compact text of the value, and so to the value
/// itself where its text parses back to it.
pub fn seal_json(value: &serde_json::Value) -> (r: String)
    ensures
        exists|iv: Seq<u8>|
            iv.len() == IV_LEN && r@ == #[trigger] sealed(json::json_text(*value), iv)
                && base64_decoded(r@) == Decoded::Ok(frame_bytes(json::json_text(*value), iv)),
        forall|i: int| 0 <= i < r@.len() ==> is_base64_char(#[trigger] r@[i]),
        opened(r@) == Ok::<Seq<u8>, FrameErrorView>(json::json_text(*value)),
        json::json_parsed(json::json_text(*value)) == Decoded::Ok(json::json_text(*value))
            ==> opened_json(r@) == Ok::<Seq<u8>, FrameErrorView>(json::json_text(*value)),
{
    let plain: Vec<u8> = json::to_vec(value);
    let iv: [u8; IV_LEN] = random_bytes::<IV_LEN>();
    let r = seal_bytes(plain.as_slice(), &iv);
    assert(iv@.len() == IV_LEN && r@ == sealed(json::json_text(*value), iv@));
    r
}

/// Opens the text of a frame to the JSON value in it.
pub fn open_frame(frame: &str) -> (r: Result<serde_json::Value, FrameError>)
    ensures
        match r {
            Ok(value) => opened_json(frame@) == Ok::<Seq<u8>, FrameErrorView>(
                json::json_text(value),
            ),
            Err(error) => opened_json(frame@) == Err::<Seq<u8>, FrameErrorView>(error@),
        },
{
    match open_bytes(frame) {
        Ok(plain) => match json::from_slice(plain.as_slice()) {
            Ok(value) => Ok(value),
            Err(error) => Err(FrameError::NotJson(error)),
        },
        Err(error) => Err(error),
    }
}

/// A frame opens only if it carries the tag that the passphrase gives for the rest of it, so
/// whoever cannot compute that tag cannot make a frame that opens.
pub proof fn law_only_authentic_frames_open(frame: Seq<char>)
    requires
        opened(frame) is Ok,
    ensures
        exists|mac: Seq<u8>, iv: Seq<u8>, ct: Seq<u8>|
            mac.len() == MAC_LEN && iv.len() == IV_LEN && ct.len() > 0 && mac == frame_tag(iv, ct)
                && base64_decoded(text::trimmed(frame)) == Decoded::Ok(mac + iv + ct) && opened(
                frame,
            )->Ok_0 == keystream_xor(enc_key(), iv, ct),
{
    let data = base64_decoded(text::trimmed(frame))->Ok_0;
    let mac = data.subrange(0, MAC_LEN as int);
    let iv = data.subrange(MAC_LEN as int, MAC_LEN + IV_LEN);
    let ct = data.subrange(MAC_LEN + IV_LEN, data.len() as int);
    assert(data =~= mac + iv + ct);
}

/// Replacing the tag of a frame that opens by any other is noticed.
pub proof fn law_changed_tag_is_refused(mac: Seq<u8>, iv: Seq<u8>, ct: Seq<u8>, other: Seq<u8>)
    requires
        mac.len() == MAC_LEN,
        iv.len() == IV_LEN,
        ct.len() > 0,
        opened_data(mac + iv + ct) is Ok,
        other.len() == MAC_LEN,
        other != mac,
    ensures
        opened_data(other + iv + ct) == Err::<Seq<u8>, FrameErrorView>(FrameErrorView::BadMac),
{
    let data = mac + iv + ct;
    assert(data.subrange(0, MAC_LEN as int) =~= mac);
    assert(data.subrange(MAC_LEN as int, MAC_LEN + IV_LEN) =~= iv);
    assert(data.subrange(MAC_LEN + IV_LEN, data.len() as int) =~= ct);
    let changed = other + iv + ct;
    assert(changed.subrange(0, MAC_LEN as int) =~= other);
    assert(changed.subrange(MAC_LEN as int, MAC_LEN + IV_LEN) =~= iv);
    assert(changed.subrange(MAC_LEN + IV_LEN, changed.len() as int) =~= ct);
}

/// White space around a frame does not matter.
pub proof fn law_white_space_around_a_frame(before: Seq<char>, frame: Seq<char>, after: Seq<char>)
    requires
        forall|i: int| 0 <= i < before.len() ==> text::is_white_space(#[trigger] before[i]),
        forall|i: int| 0 <= i < after.len() ==> text::is_white_space(#[trigger] after[i]),
    ensures
        opened(before + frame + after) == opened(frame),
{
    text::lemma_trimmed_ignores_white_space(before, frame, after);
}

} // verus!

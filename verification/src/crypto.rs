//! The runtime signing identity: SHA-256 digests and Ed25519 signatures,
//! with hex-encoded keys, fingerprints and signatures.

use vstd::prelude::*;
use vstd::string::*;
use vstd::utf8::*;

use crate::system::fill_random;
use crate::encoding::{hex_decode, hex_decode_spec, hex_encode, hex_lower, lemma_hex_lower_ascii, lemma_hex_roundtrip};

use ed25519_dalek::Signer;
use ed25519_dalek::Verifier;

verus! {

/// The SHA-256 digest of `data`.
pub uninterp spec fn sha256_digest(data: Seq<u8>) -> Seq<u8>;

/// The Ed25519 public key (compressed point) that belongs to a 32-byte secret key.
pub uninterp spec fn ed25519_public_key(secret: Seq<u8>) -> Seq<u8>;

/// The Ed25519 signature of `message` under a 32-byte secret key.
pub uninterp spec fn ed25519_signature(secret: Seq<u8>, message: Seq<u8>) -> Seq<u8>;

/// Whether 32 bytes decompress to a curve point, i.e. are accepted as a public key.
pub uninterp spec fn ed25519_key_decodes(public_key: Seq<u8>) -> bool;

/// Whether a 64-byte signature on `message` verifies under a public key.
pub uninterp spec fn ed25519_verifies(public_key: Seq<u8>, message: Seq<u8>, signature: Seq<u8>) -> bool;

/// `sha2::Sha256::digest`: the SHA-256 digest of the bytes, which is 32 bytes long.
#[verifier::external_body]
fn sha256(data: &[u8]) -> (res: Vec<u8>)
    ensures
        res@ == sha256_digest(data@),
        res@.len() == 32,
{
    <sha2::Sha256 as sha2::Digest>::digest(data).to_vec()
}

/// `ed25519_dalek::SigningKey::from_bytes(..).verifying_key().to_bytes()`: the
/// public key of a secret key. It is the compression of a curve point, so
/// `VerifyingKey::from_bytes` accepts it.
#[verifier::external_body]
fn ed25519_derive_public_key(secret: &[u8; 32]) -> (res: [u8; 32])
    ensures
        res@ == ed25519_public_key(secret@),
        ed25519_key_decodes(res@),
{
    ed25519_dalek::SigningKey::from_bytes(secret).verifying_key().to_bytes()
}

/// `ed25519_dalek::SigningKey::sign` (through `Signer`), as bytes: the
/// deterministic Ed25519 signature, which verifies under the key's own public key.
#[verifier::external_body]
fn ed25519_sign(secret: &[u8; 32], message: &[u8]) -> (res: [u8; 64])
    ensures
        res@ == ed25519_signature(secret@, message@),
        ed25519_verifies(ed25519_public_key(secret@), message@, res@),
{
    ed25519_dalek::SigningKey::from_bytes(secret).sign(message).to_bytes()
}

/// `ed25519_dalek::VerifyingKey::from_bytes(..).is_ok()`.
#[verifier::external_body]
fn ed25519_key_is_valid(public_key: &[u8]) -> (res: bool)
    requires
        public_key@.len() == 32,
    ensures
        res == ed25519_key_decodes(public_key@),
{
    let key: &[u8; 32] = public_key.try_into().unwrap();
    ed25519_dalek::VerifyingKey::from_bytes(key).is_ok()
}

/// `ed25519_dalek::VerifyingKey::verify` (through `Verifier`) on a key decoded
/// by `VerifyingKey::from_bytes` and a signature read by `Signature::from_bytes`;
/// false where the key does not decode.
#[verifier::external_body]
fn ed25519_verify(public_key: &[u8], message: &[u8], signature: &[u8]) -> (res: bool)
    requires
        public_key@.len() == 32,
        signature@.len() == 64,
    ensures
        res == (ed25519_key_decodes(public_key@) && ed25519_verifies(public_key@, message@, signature@)),
{
    let key: &[u8; 32] = public_key.try_into().unwrap();
    let sig: &[u8; 64] = signature.try_into().unwrap();
    match ed25519_dalek::VerifyingKey::from_bytes(key) {
        Ok(key) => key.verify(message, &ed25519_dalek::Signature::from_bytes(sig)).is_ok(),
        Err(_) => false,
    }
}

/// Lowercase hex SHA-256 of the UTF-8 bytes of `text`.
pub open spec fn hash_text(text: Seq<char>) -> Seq<char> {
    hex_lower(sha256_digest(encode_utf8(text)))
}

/// The fingerprint of a hex public key: the first 16 characters of its hash.
pub open spec fn fingerprint_of(public_key_hex: Seq<char>) -> Seq<char> {
    hash_text(public_key_hex).take(16)
}

/// What `signer_fingerprint` gives: the fingerprint, where the text is the
/// hex of 32 bytes that decode as an Ed25519 public key; `None` otherwise.
pub open spec fn signer_fingerprint_spec(public_key_hex: Seq<char>) -> Option<Seq<char>> {
    match hex_decode_spec(encode_utf8(public_key_hex)) {
        Some(key) => if key.len() == 32 && ed25519_key_decodes(key) {
            Some(fingerprint_of(public_key_hex))
        } else {
            None
        },
        None => None,
    }
}

/// Whether a hex signature over `data` verifies under a hex public key: both
/// decode, to 32 and 64 bytes, the key is a curve point, and the signature verifies.
pub open spec fn signature_hex_valid(public_key_hex: Seq<char>, data: Seq<u8>, signature_hex: Seq<char>) -> bool {
    match (hex_decode_spec(encode_utf8(public_key_hex)), hex_decode_spec(encode_utf8(signature_hex))) {
        (Some(key), Some(sig)) => key.len() == 32 && sig.len() == 64 && ed25519_key_decodes(key)
            && ed25519_verifies(key, data, sig),
        _ => false,
    }
}

/// Lowercase hex SHA-256 of the UTF-8 bytes of `text` (64 characters).
pub fn compute_hash(text: &str) -> (res: String)
    ensures
        res@ == hash_text(text@),
        res@.len() == 64,
{
    let digest = sha256(text.as_bytes());
    proof {
        lemma_hex_lower_ascii(digest@);
    }
    hex_encode(digest.as_slice())
}

/// The fingerprint of a hex-encoded Ed25519 public key, or `None` when the text
/// is not the hex of 32 bytes that decode as a public key.
pub fn signer_fingerprint(public_key_hex: &str) -> (res: Option<String>)
    ensures
        match res {
            Some(fp) => signer_fingerprint_spec(public_key_hex@) == Some(fp@),
            None => signer_fingerprint_spec(public_key_hex@) is None,
        },
{
    let bytes = match hex_decode(public_key_hex) {
        Some(bytes) => bytes,
        None => return None,
    };
    if bytes.len() != 32 {
        return None;
    }
    if !ed25519_key_is_valid(bytes.as_slice()) {
        return None;
    }
    Some(fingerprint_text(public_key_hex))
}

fn fingerprint_text(public_key_hex: &str) -> (res: String)
    ensures
        res@ == fingerprint_of(public_key_hex@),
{
    let hash = compute_hash(public_key_hex);
    proof {
        lemma_hex_lower_ascii(sha256_digest(encode_utf8(public_key_hex@)));
    }
    String::from_str(hash.as_str().substring_ascii(0, 16))
}

/// Whether the hex signature over `data` verifies under the hex public key.
pub fn verify_signature_hex(public_key_hex: &str, data: &[u8], signature_hex: &str) -> (res: bool)
    ensures
        res == signature_hex_valid(public_key_hex@, data@, signature_hex@),
{
    let key = match hex_decode(public_key_hex) {
        Some(key) => key,
        None => return false,
    };
    if key.len() != 32 {
        return false;
    }
    let sig = match hex_decode(signature_hex) {
        Some(sig) => sig,
        None => return false,
    };
    if sig.len() != 64 {
        return false;
    }
    ed25519_verify(key.as_slice(), data, sig.as_slice())
}

/// The runtime signing identity: an Ed25519 secret key with its hex public key
/// and fingerprint.
pub struct CryptoEngine {
    label: String,
    secret_key: [u8; 32],
    public_key: [u8; 32],
    public_key_hex: String,
    fingerprint: String,
}

impl CryptoEngine {
    #[verifier::type_invariant]
    spec fn consistent(self) -> bool {
        &&& self.public_key@ == ed25519_public_key(self.secret_key@)
        &&& ed25519_key_decodes(self.public_key@)
        &&& self.public_key_hex@ == hex_lower(self.public_key@)
        &&& self.fingerprint@ == fingerprint_of(self.public_key_hex@)
    }

    /// The secret key bytes.
    pub closed spec fn secret(&self) -> Seq<u8> {
        self.secret_key@
    }

    /// The lowercase hex of the public key.
    pub closed spec fn key_hex(&self) -> Seq<char> {
        self.public_key_hex@
    }

    /// The fingerprint of the public key.
    pub closed spec fn key_fingerprint(&self) -> Seq<char> {
        self.fingerprint@
    }

    /// The label the identity was created under.
    pub closed spec fn label_view(&self) -> Seq<char> {
        self.label@
    }

    /// The hex public key is the hex of the secret key's public key, it
    /// decodes back to that key, and the fingerprint is the one
    /// `signer_fingerprint` computes from it.
    pub open spec fn identity_consistent(&self) -> bool {
        &&& self.key_hex() == hex_lower(ed25519_public_key(self.secret()))
        &&& hex_decode_spec(encode_utf8(self.key_hex())) == Some(ed25519_public_key(self.secret()))
        &&& signer_fingerprint_spec(self.key_hex()) == Some(self.key_fingerprint())
    }

    /// A fresh identity with a random secret key, under the given label;
    /// `None` when the operating system's random source cannot be read.
    pub fn new(label: &str) -> (res: Option<Self>)
        ensures
            res matches Some(engine) ==> engine.label_view() == label@,
    {
        let mut secret_key = [0u8; 32];
        if !fill_random(&mut secret_key) {
            return None;
        }
        Some(Self::from_secret_key(label, secret_key))
    }

    /// The identity of a given 32-byte secret key, under the given label.
    pub fn from_secret_key(label: &str, secret_key: [u8; 32]) -> (res: Self)
        ensures
            res.label_view() == label@,
            res.secret() == secret_key@,
    {
        let public_key = ed25519_derive_public_key(&secret_key);
        let public_key_hex = hex_encode(&public_key);
        let fingerprint = fingerprint_text(public_key_hex.as_str());
        CryptoEngine { label: String::from_str(label), secret_key, public_key, public_key_hex, fingerprint }
    }

    /// Lowercase hex SHA-256 of the UTF-8 bytes of `text`.
    pub fn compute_hash(text: &str) -> (res: String)
        ensures
            res@ == hash_text(text@),
            res@.len() == 64,
    {
        compute_hash(text)
    }

    /// The hex public key.
    pub fn verifying_key_hex(&self) -> (res: String)
        ensures
            res@ == self.key_hex(),
            self.identity_consistent(),
    {
        proof {
            use_type_invariant(self);
            lemma_hex_roundtrip(self.public_key@);
        }
        self.public_key_hex.clone()
    }

    /// The public key's fingerprint.
    pub fn verifying_key_fingerprint(&self) -> (res: String)
        ensures
            res@ == self.key_fingerprint(),
            self.identity_consistent(),
    {
        proof {
            use_type_invariant(self);
            lemma_hex_roundtrip(self.public_key@);
        }
        self.fingerprint.clone()
    }

    /// The hex Ed25519 signature of `data`; it verifies under the hex public key.
    pub fn sign(&self, data: &[u8]) -> (res: String)
        ensures
            res@ == hex_lower(ed25519_signature(self.secret(), data@)),
            signature_hex_valid(self.key_hex(), data@, res@),
    {
        proof {
            use_type_invariant(self);
            lemma_hex_roundtrip(self.public_key@);
        }
        let sig = ed25519_sign(&self.secret_key, data);
        proof {
            lemma_hex_roundtrip(sig@);
        }
        hex_encode(&sig)
    }
}

} // verus!

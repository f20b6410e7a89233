use vstd::prelude::*;

use crate::error::ErrorCode;

verus! {

/// Length of a public key on the wire, for either scheme.
pub const PUBLIC_KEY_LEN: usize = 32;

/// What the cryptographic backend hands over for a derivation path.
pub enum KeyMaterial {
    /// Ed25519: the public point as the secure element returns it: a tag
    /// byte, then the x and y coordinates, 32 big-endian bytes each.
    Ed25519Point([u8; 65]),
    /// Sr25519: the 32-byte secret seed derived along the path.
    Sr25519Seed([u8; 32]),
}

/// The compressed Ed25519 encoding of a raw point: the y coordinate in
/// little-endian order, with the parity of x folded into the top bit of the
/// last byte.
pub open spec fn ed25519_compressed(point: Seq<u8>) -> Seq<u8> {
    Seq::new(
        PUBLIC_KEY_LEN as nat,
        |i: int|
            if i == 31 && point[32] & 1u8 != 0u8 {
                point[64 - i] | 0x80u8
            } else {
                point[64 - i]
            },
    )
}

/// The canonical 32-byte Sr25519 public key of a 32-byte seed, as schnorrkel
/// computes it with the Ed25519 expansion mode.
pub uninterp spec fn sr25519_public_of(seed: Seq<u8>) -> Seq<u8>;

#[verifier::external_type_specification]
#[verifier::external_body]
pub struct ExSignatureError(schnorrkel::SignatureError);

/// Relies on schnorrkel's `MiniSecretKey::from_bytes`, which accepts any 32
/// bytes, then `MiniSecretKey::expand_to_public(ExpansionMode::Ed25519)` and
/// `PublicKey::to_bytes`: the 32-byte encoding of the public key, which
/// depends on the seed alone.
#[verifier::external_body]
fn sr25519_public_key(seed: &[u8; 32]) -> (r: Result<[u8; 32], schnorrkel::SignatureError>)
    ensures
        r is Ok,
        r is Ok ==> r->Ok_0@ == sr25519_public_of(seed@),
{
    let mini = schnorrkel::MiniSecretKey::from_bytes(seed)?;
    Ok(mini.expand_to_public(schnorrkel::ExpansionMode::Ed25519).to_bytes())
}

/// Compresses the raw Ed25519 point of the secure element into its 32-byte
/// wire form.
pub fn compress_ed25519(point: &[u8; 65]) -> (key: [u8; 32])
    ensures
        key@ == ed25519_compressed(point@),
{
    let mut key: [u8; 32] = [0; 32];
    let mut i: usize = 0;
    while i < PUBLIC_KEY_LEN
        invariant
            i <= PUBLIC_KEY_LEN,
            forall|k: int| 0 <= k < i ==> key@[k] == point@[64 - k],
        decreases PUBLIC_KEY_LEN - i,
    {
        key[i] = point[64 - i];
        i = i + 1;
    }
    if point[32] & 1 != 0 {
        key[31] = key[31] | 0x80;
    }
    assert(key@ =~= ed25519_compressed(point@));
    key
}

/// The wire form of the public key that `material` stands for.
pub open spec fn public_key_of(material: KeyMaterial) -> Seq<u8> {
    match material {
        KeyMaterial::Ed25519Point(p) => ed25519_compressed(p@),
        KeyMaterial::Sr25519Seed(s) => sr25519_public_of(s@),
    }
}

/// Encodes the public key that the backend's `material` stands for.
pub fn encode_public_key(material: &KeyMaterial) -> (r: Result<[u8; 32], ErrorCode>)
    ensures
        r matches Ok(k) && k@ == public_key_of(*material),
{
    match material {
        KeyMaterial::Ed25519Point(point) => Ok(compress_ed25519(point)),
        KeyMaterial::Sr25519Seed(seed) => match sr25519_public_key(seed) {
            Ok(key) => Ok(key),
            Err(e) => Err(ErrorCode::from(e)),
        },
    }
}

} // verus!

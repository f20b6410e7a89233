use vstd::prelude::*;

use crate::encoding::{encode_public_key, public_key_of, KeyMaterial};
use crate::error::ErrorCode;
use crate::path::{path_is_valid, PATH_LEN};
use crate::signer::{material_fits, scheme_of_byte, Scheme};

verus! {

/// The public key for the scheme byte `scheme` and `path`, without a session,
/// from what the backend derived along `path`. In order of checking:
/// `BadLen` unless the path has five levels, `BadPath` when it fails the
/// policy, `BadP1P2` for an unknown scheme byte, `CryptoError` when the
/// material is not of that scheme.
pub fn get_public_key(scheme: u8, path: &[u32], material: &KeyMaterial) -> (r: Result<
    [u8; 32],
    ErrorCode,
>)
    ensures
        path@.len() != PATH_LEN ==> r == Err::<[u8; 32], ErrorCode>(ErrorCode::BadLen),
        path@.len() == PATH_LEN && !path_is_valid(path@) ==> r == Err::<[u8; 32], ErrorCode>(
            ErrorCode::BadPath,
        ),
        path_is_valid(path@) ==> match scheme_of_byte(scheme) {
            None => r == Err::<[u8; 32], ErrorCode>(ErrorCode::BadP1P2),
            Some(s) => if material_fits(s, *material) {
                r matches Ok(k) && k@ == public_key_of(*material)
            } else {
                r == Err::<[u8; 32], ErrorCode>(ErrorCode::CryptoError)
            },
        },
{
    if path.len() != PATH_LEN {
        return Err(ErrorCode::BadLen);
    }
    if path[0] != crate::path::PURPOSE || path[1] != crate::path::COIN_TYPE {
        return Err(ErrorCode::BadPath);
    }
    let fits = match (Scheme::try_from(scheme), material) {
        (Ok(Scheme::Ed25519), KeyMaterial::Ed25519Point(_)) => true,
        (Ok(Scheme::Sr25519), KeyMaterial::Sr25519Seed(_)) => true,
        (Ok(_), _) => false,
        (Err(e), _) => return Err(e),
    };
    if !fits {
        return Err(ErrorCode::CryptoError);
    }
    encode_public_key(material)
}

} // verus!

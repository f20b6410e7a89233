use vara_signer::encoding::KeyMaterial;
use vara_signer::signer::{Scheme, Signer, MAX_MESSAGE_LEN};
use vara_signer::ErrorCode;

const VALID_PATH: [u32; 5] = [0x8000_002c, 0x8000_0391, 0x8000_0000, 0, 0];

fn started(scheme: u8) -> Signer {
    let mut s = Signer::new();
    s.set_scheme(scheme).unwrap();
    s.set_path(VALID_PATH).unwrap();
    s
}

#[test]
fn path_with_fixed_levels_is_accepted_whatever_the_rest() {
    for rest in [[0u32, 0, 0], [1, 2, 3], [0xffff_ffff, 0x8000_0000, 7]] {
        let mut s = Signer::new();
        let path = [0x8000_002c, 0x8000_0391, rest[0], rest[1], rest[2]];
        assert_eq!(s.set_path(path), Ok(()));
        assert_eq!(s.path(), path);
    }
}

#[test]
fn path_with_wrong_purpose_or_coin_is_refused() {
    let bad = [
        [0x8000_002b, 0x8000_0391, 0, 0, 0],
        [0x8000_002c, 0x8000_0162, 0, 0, 0],
        [0x2c, 0x391, 0, 0, 0],
        [0, 0, 0, 0, 0],
    ];
    for path in bad {
        let mut s = Signer::new();
        assert_eq!(s.set_path(path), Err(ErrorCode::BadPath));
        assert_eq!(s.path(), [0u32; 5]);
    }
}

#[test]
fn scheme_accepts_only_zero_and_one() {
    for b in 0u8..=255 {
        let mut s = Signer::new();
        let r = s.set_scheme(b);
        match b {
            0 => assert_eq!(r, Ok(Scheme::Ed25519)),
            1 => assert_eq!(r, Ok(Scheme::Sr25519)),
            _ => {
                assert_eq!(r, Err(ErrorCode::BadP1P2));
                assert_eq!(s.scheme(), Scheme::Ed25519);
            }
        }
    }
}

#[test]
fn scheme_try_from_wire_byte() {
    assert_eq!(Scheme::try_from(0), Ok(Scheme::Ed25519));
    assert_eq!(Scheme::try_from(1), Ok(Scheme::Sr25519));
    assert_eq!(Scheme::try_from(2), Err(ErrorCode::BadP1P2));
}

#[test]
fn check_scheme_compares_with_session() {
    let s = started(1);
    assert_eq!(s.check_scheme(Scheme::Sr25519), Ok(()));
    assert_eq!(s.check_scheme(Scheme::Ed25519), Err(ErrorCode::BadP1P2));
}

#[test]
fn appends_within_capacity_concatenate() {
    let mut s = started(0);
    let chunks: [&[u8]; 4] = [b"abc", b"", b"defg", &[0u8; 100]];
    let mut expected = Vec::new();
    for c in chunks {
        assert_eq!(s.append_message(c), Ok(()));
        expected.extend_from_slice(c);
        assert_eq!(s.message(), expected.as_slice());
    }
}

#[test]
fn append_past_capacity_is_refused_whole() {
    let mut s = started(0);
    assert_eq!(s.append_message(&[7u8; 200]), Ok(()));
    assert_eq!(s.append_message(&[8u8; 57]), Err(ErrorCode::BadLen));
    assert_eq!(s.message(), &[7u8; 200][..]);
    assert_eq!(s.append_message(&[8u8; 56]), Ok(()));
    assert_eq!(s.message().len(), MAX_MESSAGE_LEN);
    assert_eq!(s.append_message(&[9u8; 1]), Err(ErrorCode::BadLen));
    assert_eq!(&s.message()[..200], &[7u8; 200][..]);
    assert_eq!(&s.message()[200..], &[8u8; 56][..]);
}

#[test]
fn clear_resets_session() {
    let mut s = started(1);
    s.append_message(b"data").unwrap();
    s.clear();
    assert_eq!(s.path(), [0u32; 5]);
    assert_eq!(s.scheme(), Scheme::Ed25519);
    assert!(s.message().is_empty());
}

#[test]
fn cleared_session_cannot_sign_or_derive() {
    let mut s = started(0);
    s.clear();
    assert!(matches!(s.sign(), Err(ErrorCode::BadPath)));
    let point = KeyMaterial::Ed25519Point([4u8; 65]);
    assert_eq!(s.get_public_key(&point), Err(ErrorCode::BadPath));
    s.set_scheme(1).unwrap();
    let seed = KeyMaterial::Sr25519Seed([1u8; 32]);
    assert_eq!(s.get_public_key(&seed), Err(ErrorCode::BadPath));
    assert!(matches!(Signer::default().sign(), Err(ErrorCode::BadPath)));
}

#[test]
fn sign_hands_out_scheme_path_and_message() {
    let mut s = started(1);
    s.append_message(b"hello").unwrap();
    let q = match s.sign() {
        Ok(q) => q,
        Err(e) => panic!("sign failed: {:?}", e),
    };
    assert_eq!(q.scheme, Scheme::Sr25519);
    assert_eq!(q.path, VALID_PATH);
    assert_eq!(q.message, b"hello".to_vec());
    // signing does not end the session by itself
    assert_eq!(s.message(), b"hello");
}

#[test]
fn material_of_other_scheme_is_a_crypto_error() {
    let s = started(0);
    assert_eq!(s.get_public_key(&KeyMaterial::Sr25519Seed([1u8; 32])), Err(ErrorCode::CryptoError));
    let s = started(1);
    assert_eq!(s.get_public_key(&KeyMaterial::Ed25519Point([4u8; 65])), Err(ErrorCode::CryptoError));
}

#[test]
fn clearing_once_or_twice_gives_the_default_session() {
    let mut once = started(1);
    once.append_message(b"secret").unwrap();
    once.clear();
    let mut twice = started(0);
    twice.clear();
    twice.clear();
    let fresh = Signer::default();
    for s in [&once, &twice, &fresh] {
        assert_eq!(s.path(), [0u32; 5]);
        assert_eq!(s.scheme(), Scheme::Ed25519);
        assert!(s.message().is_empty());
    }
}

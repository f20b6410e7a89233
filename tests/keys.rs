use vara_signer::encoding::{compress_ed25519, encode_public_key, KeyMaterial};
use vara_signer::get_public_key::GetPublicKey;
use vara_signer::signer::Signer;
use vara_signer::ErrorCode;

/// The raw form of a point: tag, then x and y big-endian.
fn raw_point(x: &[u8; 32], y: &[u8; 32]) -> [u8; 65] {
    let mut p = [0u8; 65];
    p[0] = 0x04;
    p[1..33].copy_from_slice(x);
    p[33..].copy_from_slice(y);
    p
}

fn from_hex(s: &str) -> [u8; 32] {
    let mut out = [0u8; 32];
    hex::decode_to_slice(s, &mut out).unwrap();
    out
}

#[test]
fn ed25519_base_point_compresses_to_known_key() {
    let x = from_hex("216936d3cd6e53fec0a4e231fdd6dc5c692cc7609525a7b2c9562d608f25d51a");
    let y = from_hex("6666666666666666666666666666666666666666666666666666666666666658");
    let key = compress_ed25519(&raw_point(&x, &y));
    let mut expected = [0x66u8; 32];
    expected[0] = 0x58;
    assert_eq!(key, expected);
}

#[test]
fn ed25519_odd_x_sets_top_bit() {
    let mut x = [0u8; 32];
    x[31] = 0x03;
    let mut y = [0u8; 32];
    for (i, b) in y.iter_mut().enumerate() {
        *b = i as u8 + 1;
    }
    let key = compress_ed25519(&raw_point(&x, &y));
    let mut expected = [0u8; 32];
    for (i, b) in expected.iter_mut().enumerate() {
        *b = 32 - i as u8;
    }
    expected[31] |= 0x80;
    assert_eq!(key, expected);
}

#[test]
fn ed25519_even_x_keeps_top_bit_clear() {
    let mut x = [0xffu8; 32];
    x[31] = 0xfe;
    let mut y = [0u8; 32];
    y[0] = 0x7f;
    y[31] = 0xaa;
    let key = compress_ed25519(&raw_point(&x, &y));
    assert_eq!(key[0], 0xaa);
    assert_eq!(key[31], 0x7f);
    assert!(key[1..31].iter().all(|b| *b == 0));
}

#[test]
fn sr25519_key_matches_schnorrkel() {
    let seed = [42u8; 32];
    let expected = schnorrkel::MiniSecretKey::from_bytes(&seed)
        .unwrap()
        .expand(schnorrkel::ExpansionMode::Ed25519)
        .to_public()
        .to_bytes();
    let key = encode_public_key(&KeyMaterial::Sr25519Seed(seed)).unwrap();
    assert_eq!(key, expected);
    assert_ne!(key, seed);
}

#[test]
fn session_public_key_for_each_scheme() {
    let path = [0x8000_002c, 0x8000_0391, 0x8000_0000, 0, 0];
    let mut s = Signer::new();
    s.set_scheme(1).unwrap();
    s.set_path(path).unwrap();
    let seed = [9u8; 32];
    let expected = schnorrkel::MiniSecretKey::from_bytes(&seed)
        .unwrap()
        .expand(schnorrkel::ExpansionMode::Ed25519)
        .to_public()
        .to_bytes();
    assert_eq!(s.get_public_key(&KeyMaterial::Sr25519Seed(seed)), Ok(expected));

    s.set_scheme(0).unwrap();
    let mut point = [0u8; 65];
    point[32] = 1;
    point[64] = 0x12;
    let mut expected = [0u8; 32];
    expected[0] = 0x12;
    expected[31] = 0x80;
    assert_eq!(s.get_public_key(&KeyMaterial::Ed25519Point(point)), Ok(expected));
}

#[test]
fn review_text_is_0x_and_lowercase_hex() {
    let mut key = [0u8; 32];
    for (i, b) in key.iter_mut().enumerate() {
        *b = (i as u8) * 8 + 0x0a;
    }
    let g = GetPublicKey::new(&key);
    let text = std::str::from_utf8(&g.key_hex).unwrap();
    assert_eq!(text, format!("0x{}", hex::encode(key)));
    assert!(text.starts_with("0x0a121a222a"));
}

#[test]
fn review_text_of_short_key_is_left_blank() {
    let g = GetPublicKey::new(&[1, 2, 3]);
    assert_eq!(&g.key_hex[..2], b"0x");
    assert!(g.key_hex[2..].iter().all(|b| *b == 0));
}

#[test]
fn status_words_of_every_error() {
    let table = [
        (ErrorCode::NothingReceived, 0x6982u16),
        (ErrorCode::Unknown, 0x6d00),
        (ErrorCode::Unimplemented, 0x6d01),
        (ErrorCode::BadCla, 0x6e00),
        (ErrorCode::BadIns, 0x6e01),
        (ErrorCode::BadP1P2, 0x6e02),
        (ErrorCode::BadLen, 0x6e03),
        (ErrorCode::BadPath, 0x6f00),
        (ErrorCode::UserCancelled, 0x6e04),
        (ErrorCode::ParsingError, 0x7f00),
        (ErrorCode::ConversionError, 0x7f01),
        (ErrorCode::CryptoError, 0x7f02),
        (ErrorCode::SignatureError, 0x7f03),
        (ErrorCode::Success, 0x9000),
        (ErrorCode::Panic, 0xe000),
    ];
    for (e, w) in table {
        assert_eq!(e.status_word(), w);
    }
}

#[test]
fn signature_error_maps_to_its_code() {
    let e = ErrorCode::from(schnorrkel::SignatureError::EquationFalse);
    assert_eq!(e, ErrorCode::SignatureError);
}

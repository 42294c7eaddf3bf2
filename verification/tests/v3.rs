use ness_relay::snmp::v3::{
    authenticate_message, decrypt_aes128, decrypt_aes192, decrypt_aes256, decrypt_aes_cfb, decrypt_des,
    derive_priv_key, encrypt_aes128, encrypt_aes192, encrypt_aes256, encrypt_aes_cfb_with_salt, encrypt_des,
    password_to_key, AuthProtocol, PrivProtocol, UsmError, UsmSecurityParams,
};

fn hex(s: &str) -> Vec<u8> {
    (0..s.len()).step_by(2).map(|i| u8::from_str_radix(&s[i..i + 2], 16).unwrap()).collect()
}

const ENGINE: &str = "000000000000000000000002";

#[test]
fn protocol_names() {
    assert_eq!(AuthProtocol::from_str("md5"), AuthProtocol::Md5);
    assert_eq!(AuthProtocol::from_str("sha"), AuthProtocol::Sha1);
    assert_eq!(AuthProtocol::from_str("SHA-256"), AuthProtocol::Sha256);
    assert_eq!(AuthProtocol::from_str("sha256auth"), AuthProtocol::Sha256_192);
    assert_eq!(AuthProtocol::from_str("SHA512"), AuthProtocol::Sha512);
    assert_eq!(AuthProtocol::from_str("none"), AuthProtocol::NoAuth);
    assert_eq!(PrivProtocol::from_str("aes"), PrivProtocol::Aes128);
    assert_eq!(PrivProtocol::from_str("AES-256-CFB"), PrivProtocol::Aes256);
    assert_eq!(PrivProtocol::from_str("des"), PrivProtocol::Des);
    assert_eq!(PrivProtocol::from_str("3des"), PrivProtocol::NoPriv);
}

#[test]
fn protocol_lengths() {
    assert_eq!(AuthProtocol::Md5.digest_length(), 12);
    assert_eq!(AuthProtocol::Sha256.digest_length(), 16);
    assert_eq!(AuthProtocol::Sha512.digest_length(), 32);
    assert_eq!(AuthProtocol::Sha1.key_length(), 20);
    assert_eq!(AuthProtocol::Sha384.key_length(), 48);
    assert_eq!(AuthProtocol::NoAuth.key_length(), 0);
    assert_eq!(PrivProtocol::Des.key_length(), 16);
    assert_eq!(PrivProtocol::Aes192.key_length(), 24);
    assert_eq!(PrivProtocol::NoPriv.key_length(), 0);
}

#[test]
fn password_localisation_known_vectors() {
    let eid = hex(ENGINE);
    assert_eq!(password_to_key("maplesyrup", &eid, &AuthProtocol::Md5), hex("526f5eed9fcce26f8964c2930787d82b"));
    assert_eq!(
        password_to_key("maplesyrup", &eid, &AuthProtocol::Sha1),
        hex("6695febc9288e36282235fc7151f128497b38f3f")
    );
    assert_eq!(
        password_to_key("maplesyrup", &eid, &AuthProtocol::Sha256),
        hex("8982e0e549e866db361a6b625d84cccc11162d453ee8ce3a6445c2d6776f0f8b")
    );
    assert_eq!(
        password_to_key("maplesyrup", &eid, &AuthProtocol::Sha384),
        hex("3b298f16164a11184279d5432bf169e2d2a48307de02b3d3f7e2b4f36eb6f0455a53689a3937eea07319a633d2ccba78")
    );
    assert!(password_to_key("", &eid, &AuthProtocol::Sha1).is_empty());
    assert!(password_to_key("maplesyrup", &eid, &AuthProtocol::NoAuth).is_empty());
}

#[test]
fn privacy_key_extension() {
    let eid = hex(ENGINE);
    let k = derive_priv_key("maplesyrup", &eid, &AuthProtocol::Sha1, &PrivProtocol::Aes256);
    assert_eq!(k, hex("6695febc9288e36282235fc7151f128497b38f3f40b4c080b46c039f9c900ec0"));
    let k = derive_priv_key("maplesyrup", &eid, &AuthProtocol::Sha1, &PrivProtocol::Aes128);
    assert_eq!(k, hex("6695febc9288e36282235fc7151f1284"));
    assert!(derive_priv_key("maplesyrup", &eid, &AuthProtocol::Sha1, &PrivProtocol::NoPriv).is_empty());
    assert!(derive_priv_key("", &eid, &AuthProtocol::Sha1, &PrivProtocol::Aes128).is_empty());
}

#[test]
fn message_authentication() {
    let msg = b"what do ya want for nothing?";
    assert_eq!(
        authenticate_message(msg, b"Jefe", &AuthProtocol::Md5).unwrap(),
        hex("750c783e6ab0b503eaa86e31")
    );
    assert_eq!(
        authenticate_message(msg, b"Jefe", &AuthProtocol::Sha1).unwrap(),
        hex("effcdf6ae5eb2fa2d27416d5")
    );
    assert_eq!(
        authenticate_message(msg, b"Jefe", &AuthProtocol::Sha256).unwrap(),
        hex("5bdcc146bf60754e6a042426089575c7")
    );
    assert_eq!(
        authenticate_message(msg, b"Jefe", &AuthProtocol::Sha512).unwrap(),
        hex("164b7a7bfcf819e2e395fbe73b56e0a387bd64222e831fd610270cd7ea250554")
    );
    assert!(authenticate_message(msg, b"Jefe", &AuthProtocol::NoAuth).is_err());
}

#[test]
fn aes_cfb_known_vector() {
    // NIST SP 800-38A, CFB128-AES128, first block; the IV is boots | time | salt.
    let key = hex("2b7e151628aed2a6abf7158809cf4f3c");
    let salt = hex("08090a0b0c0d0e0f");
    let plain = hex("6bc1bee22e409f96e93d7e117393172a");
    let (cipher, salt_out) = encrypt_aes_cfb_with_salt(&key, 16, 0x00010203, 0x04050607, &salt, &plain).unwrap();
    assert_eq!(cipher, hex("3b3fd92eb72dad20333449f8e83cfb4a"));
    assert_eq!(salt_out, salt);
    let back = decrypt_aes_cfb(&key, 16, 0x00010203, 0x04050607, &salt, &cipher).unwrap();
    assert_eq!(back, plain);
}

#[test]
fn aes_roundtrips() {
    let key = (0u8..32).collect::<Vec<u8>>();
    let data = b"a scopedPDU that is not a whole number of blocks".to_vec();
    let (c, s) = encrypt_aes128(&key, 3, 1000, &data).unwrap();
    assert_eq!(s.len(), 8);
    assert_eq!(c.len(), data.len());
    assert_ne!(c, data);
    assert_eq!(decrypt_aes128(&key, 3, 1000, &s, &c).unwrap(), data);
    let (c, s) = encrypt_aes192(&key, 3, 1000, &data).unwrap();
    assert_eq!(decrypt_aes192(&key, 3, 1000, &s, &c).unwrap(), data);
    let (c, s) = encrypt_aes256(&key, 3, 1000, &data).unwrap();
    assert_eq!(decrypt_aes256(&key, 3, 1000, &s, &c).unwrap(), data);
    // a different engine time gives a different IV
    assert_ne!(decrypt_aes256(&key, 3, 1001, &s, &c).unwrap(), data);
}

#[test]
fn aes_errors() {
    let short = vec![1u8; 15];
    assert_eq!(encrypt_aes128(&short, 0, 0, b"x").unwrap_err(), UsmError::KeyTooShort(16));
    assert_eq!(encrypt_aes256(&vec![0u8; 24], 0, 0, b"x").unwrap_err(), UsmError::KeyTooShort(32));
    assert_eq!(decrypt_aes128(&vec![0u8; 16], 0, 0, &[1, 2, 3], b"x").unwrap_err(), UsmError::IvParamTooShort);
    assert_eq!(
        encrypt_aes_cfb_with_salt(&vec![0u8; 20], 20, 0, 0, &[0u8; 8], b"x").unwrap_err(),
        UsmError::UnsupportedKeyLength(20)
    );
}

#[test]
fn des_roundtrip_and_errors() {
    let key = (1u8..=16).collect::<Vec<u8>>();
    let data = b"thirteen byte".to_vec();
    let (c, salt) = encrypt_des(&key, 7, &data).unwrap();
    assert_eq!(salt.len(), 8);
    assert_eq!(c.len(), 16);
    let back = decrypt_des(&key, &salt, &c).unwrap();
    assert_eq!(&back[..data.len()], &data[..]);
    assert!(back[data.len()..].iter().all(|b| *b == 0));
    assert_eq!(encrypt_des(&[0u8; 7], 0, b"x").unwrap_err(), UsmError::DesKeyTooShort);
    assert_eq!(decrypt_des(&key, &[0u8; 4], &c).unwrap_err(), UsmError::DesInvalidKeyOrIv);
}

#[test]
fn usm_parameters() {
    let eid = hex(ENGINE);
    let p = UsmSecurityParams::new("admin", AuthProtocol::Md5, "maplesyrup", PrivProtocol::Des, "maplesyrup", &eid, 5, 77);
    assert_eq!(p.username, "admin");
    assert_eq!(p.auth_key_localized, hex("526f5eed9fcce26f8964c2930787d82b"));
    assert_eq!(p.priv_key_localized.len(), 16);
    assert_eq!(p.engine_id, eid);
    assert_eq!((p.engine_boots, p.engine_time), (5, 77));
}

#[test]
fn derived_key_lengths_follow_the_protocols() {
    let engine = [0x80u8, 0x00, 0x1f, 0x88, 0x04];
    let auths = [
        (AuthProtocol::Md5, 16usize, 12usize),
        (AuthProtocol::Sha1, 20, 12),
        (AuthProtocol::Sha256, 32, 16),
        (AuthProtocol::Sha256_192, 32, 24),
        (AuthProtocol::Sha384, 48, 24),
        (AuthProtocol::Sha512, 64, 32),
    ];
    for (auth, key_len, digest_len) in auths.iter() {
        let k = password_to_key("secretpass", &engine, auth);
        assert_eq!(k.len(), *key_len);
        assert_eq!(k.len(), auth.key_length());
        let tag = authenticate_message(b"message", &k, auth).unwrap();
        assert_eq!(tag.len(), *digest_len);
        assert_eq!(tag.len(), auth.digest_length());
        for privp in [PrivProtocol::Des, PrivProtocol::Aes128, PrivProtocol::Aes192, PrivProtocol::Aes256].iter() {
            let pk = derive_priv_key("secretpass", &engine, auth, privp);
            assert_eq!(pk.len(), privp.key_length());
        }
        assert!(derive_priv_key("secretpass", &engine, auth, &PrivProtocol::NoPriv).is_empty());
        assert!(derive_priv_key("", &engine, auth, &PrivProtocol::Aes256).is_empty());
    }
    assert!(password_to_key("secretpass", &engine, &AuthProtocol::NoAuth).is_empty());
}

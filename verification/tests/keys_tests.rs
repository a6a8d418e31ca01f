use pubky_vanity::keys::{
    get_keypair_from_secret_key, get_secret_key_from_keypair, save_recovery_file,
};

const SECRET_HEX: &str = "0000000000000000000000000000000000000000000000000000000000000001";

#[test]
fn secret_key_round_trips_through_hex() {
    let keypair = get_keypair_from_secret_key(SECRET_HEX).unwrap();
    let hex = get_secret_key_from_keypair(&keypair);
    assert_eq!(hex, SECRET_HEX);
}

#[test]
fn uppercase_hex_decodes_to_the_same_keypair() {
    let upper = SECRET_HEX.to_uppercase();
    let a = get_keypair_from_secret_key(&upper).unwrap();
    let b = get_keypair_from_secret_key(SECRET_HEX).unwrap();
    assert_eq!(get_secret_key_from_keypair(&a), get_secret_key_from_keypair(&b));
}

#[test]
fn malformed_hex_is_reported() {
    let r = get_keypair_from_secret_key("zz00");
    assert_eq!(r.err().unwrap(), "Failed to decode secret key");
    let r = get_keypair_from_secret_key("abc");
    assert_eq!(r.err().unwrap(), "Failed to decode secret key");
}

#[test]
fn wrong_length_hex_is_reported() {
    let r = get_keypair_from_secret_key("abcd");
    assert_eq!(r.err().unwrap(), "Failed to convert secret key to 32-byte array");
}

#[test]
fn secret_hex_is_64_lowercase_digits() {
    let keypair = pubky::Keypair::random();
    let hex = get_secret_key_from_keypair(&keypair);
    assert_eq!(hex.len(), 64);
    assert!(hex.chars().all(|c| c.is_ascii_hexdigit() && !c.is_ascii_uppercase()));
}

#[test]
fn recovery_file_decrypts_back_to_the_keypair() {
    let keypair = get_keypair_from_secret_key(SECRET_HEX).unwrap();
    let blob = save_recovery_file(&keypair, "hunter's passphrase");
    assert!(blob.len() > 19);
    let restored = pubky::recovery_file::decrypt_recovery_file(&blob, "hunter's passphrase")
        .unwrap();
    assert_eq!(get_secret_key_from_keypair(&restored), SECRET_HEX);
}

#[test]
fn recovery_file_rejects_the_wrong_passphrase() {
    let keypair = get_keypair_from_secret_key(SECRET_HEX).unwrap();
    let blob = save_recovery_file(&keypair, "right");
    assert!(pubky::recovery_file::decrypt_recovery_file(&blob, "wrong").is_err());
}

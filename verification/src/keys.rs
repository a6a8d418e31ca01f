//! Keypair handling: random sampling, the z-base-32 public encoding, and
//! the hex form of the secret key. The cryptography itself is pubky's; the
//! hex codec is the hex crate's. Both stand behind trusted wrappers here.

use vstd::prelude::*;
use vstd::string::StringExecFns;
use crate::alphabet::{is_zbase32_char, lower_seq};

verus! {

#[verifier::external_type_specification]
#[verifier::external_body]
pub struct ExKeypair(pubky::Keypair);

/// Relies on pubky's `Keypair::random`: a fresh keypair from the operating
/// system's CSPRNG. Nothing can be promised of a random value.
#[verifier::external_body]
pub fn random_keypair() -> pubky::Keypair {
    pubky::Keypair::random()
}

/// Relies on pubky's `Keypair::to_z32`: the bare z-base-32 rendering of the
/// keypair's 32-byte public key, 52 characters long, every character from
/// the alphabet.
#[verifier::external_body]
pub fn public_encoding_of(keypair: &pubky::Keypair) -> (r: String)
    ensures
        r@.len() == 52,
        forall|i: int| 0 <= i < r@.len() ==> is_zbase32_char(#[trigger] r@[i]),
{
    keypair.to_z32()
}

/// Relies on pubky's `Keypair::secret`: the 32 secret bytes of the keypair.
#[verifier::external_body]
pub fn secret_bytes_of(keypair: &pubky::Keypair) -> (r: Vec<u8>)
    ensures
        r@.len() == 32,
{
    keypair.secret().to_vec()
}

/// Relies on pubky's `Keypair::from_secret`, which derives the keypair of a
/// 32-byte secret.
#[verifier::external_body]
pub fn keypair_from_secret_bytes(bytes: &Vec<u8>) -> pubky::Keypair
    requires
        bytes@.len() == 32,
{
    let arr: [u8; 32] = bytes.as_slice().try_into().unwrap();
    pubky::Keypair::from_secret(&arr)
}

/// Relies on pubky's `recovery_file::create_recovery_file`: a spec line,
/// a newline, then the passphrase-encrypted secret key — a blob of more
/// than 19 bytes. Decryption is the callers' affair.
#[verifier::external_body]
pub fn save_recovery_file(keypair: &pubky::Keypair, passphrase: &str) -> (r: Vec<u8>)
    ensures
        r@.len() > 19,
{
    pubky::recovery_file::create_recovery_file(keypair, passphrase)
}

/// The lowercase hex digit of a value below sixteen.
pub open spec fn hex_digit(n: u8) -> char
    recommends
        n < 16,
{
    if n < 10 {
        (('0' as u8) + n) as char
    } else {
        (('a' as u8) + (n - 10)) as char
    }
}

/// The lowercase hex spelling of a byte sequence: two digits per byte,
/// high digit first.
pub open spec fn hex_of(bytes: Seq<u8>) -> Seq<char>
    decreases bytes.len(),
{
    if bytes.len() == 0 {
        Seq::empty()
    } else {
        seq![hex_digit(bytes[0] / 16), hex_digit(bytes[0] % 16)] + hex_of(bytes.drop_first())
    }
}

/// A hex digit of either case.
pub open spec fn is_hex_digit_char(c: char) -> bool {
    ('0' <= c && c <= '9') || ('a' <= c && c <= 'f') || ('A' <= c && c <= 'F')
}

/// A decodable hex string: even length, hex digits throughout.
pub open spec fn valid_hex(s: Seq<char>) -> bool {
    s.len() % 2 == 0 && forall|i: int| 0 <= i < s.len() ==> is_hex_digit_char(#[trigger] s[i])
}

/// Relies on `hex::encode`: the lowercase hex spelling of the bytes.
#[verifier::external_body]
pub fn hex_encode(bytes: &Vec<u8>) -> (r: String)
    ensures
        r@ == hex_of(bytes@),
{
    hex::encode(bytes)
}

/// Relies on `hex::decode`: it succeeds exactly on even-length strings of
/// hex digits of either case, and returns the bytes those digit pairs spell.
#[verifier::external_body]
pub fn hex_decode(s: &str) -> (r: Option<Vec<u8>>)
    ensures
        r is Some <==> valid_hex(s@),
        r matches Some(b) ==> 2 * b@.len() == s@.len() && hex_of(b@) == lower_seq(s@),
{
    hex::decode(s).ok()
}

/// Two digits per byte.
pub proof fn lemma_hex_of_len(bytes: Seq<u8>)
    ensures
        hex_of(bytes).len() == 2 * bytes.len(),
    decreases bytes.len(),
{
    if bytes.len() > 0 {
        lemma_hex_of_len(bytes.drop_first());
    }
}

/// Every character of a hex spelling is a hex digit.
pub proof fn lemma_hex_of_digits(bytes: Seq<u8>)
    ensures
        forall|i: int| 0 <= i < hex_of(bytes).len() ==> is_hex_digit_char(#[trigger] hex_of(bytes)[i]),
    decreases bytes.len(),
{
    if bytes.len() > 0 {
        lemma_hex_of_digits(bytes.drop_first());
        assert forall|i: int| 0 <= i < hex_of(bytes).len() implies is_hex_digit_char(
            #[trigger] hex_of(bytes)[i],
        ) by {
            if i >= 2 {
                assert(hex_of(bytes)[i] == hex_of(bytes.drop_first())[i - 2]);
            } else {
                assert(is_hex_digit_char(hex_digit(bytes[0] / 16)));
                assert(is_hex_digit_char(hex_digit(bytes[0] % 16)));
            }
        }
    }
}

/// The hex form of the keypair's secret key: 64 lowercase hex digits.
pub fn get_secret_key_from_keypair(keypair: &pubky::Keypair) -> (r: String)
    ensures
        r@.len() == 64,
        valid_hex(r@),
        exists|b: Seq<u8>| b.len() == 32 && r@ == hex_of(b),
{
    let bytes = secret_bytes_of(keypair);
    let r = hex_encode(&bytes);
    proof {
        lemma_hex_of_len(bytes@);
        lemma_hex_of_digits(bytes@);
        assert(bytes@.len() == 32 && r@ == hex_of(bytes@));
    }
    r
}

/// Rebuilds a keypair from the hex form of its secret key. Succeeds exactly
/// on 64-digit hex strings; a malformed hex string and a hex string of the
/// wrong length are told apart in the error message.
pub fn get_keypair_from_secret_key(secret_key: &str) -> (r: Result<pubky::Keypair, String>)
    ensures
        r is Ok <==> valid_hex(secret_key@) && secret_key@.len() == 64,
        r matches Err(m) ==> if !valid_hex(secret_key@) {
            m@ == "Failed to decode secret key"@
        } else {
            m@ == "Failed to convert secret key to 32-byte array"@
        },
{
    let bytes = match hex_decode(secret_key) {
        Some(bytes) => bytes,
        None => {
            return Err(String::from_str("Failed to decode secret key"));
        },
    };
    if bytes.len() != 32 {
        return Err(String::from_str("Failed to convert secret key to 32-byte array"));
    }
    Ok(keypair_from_secret_bytes(&bytes))
}

} // verus!

//! Secret keys, and the addresses of public keys.
use crate::network::Network;
use vstd::prelude::*;

verus! {

/// A secret key with what is needed to write it down for a wallet.
#[derive(Clone, Copy, Debug, PartialEq, Eq)]
pub struct PrivateKey {
    /// Whether the public key is used in its compressed form.
    pub compressed: bool,
    /// The network on which the key is used.
    pub network: Network,
    /// The bytes of the secret key.
    pub inner: [u8; 32],
}

/// The number that some bytes stand for, most significant byte first.
pub open spec fn big_endian(bytes: Seq<u8>) -> nat
    decreases bytes.len(),
{
    if bytes.len() == 0 {
        0
    } else {
        big_endian(bytes.drop_last()) * 256 + bytes.last() as nat
    }
}

/// The order of the curve secp256k1.
pub open spec fn curve_order() -> nat {
    0xffff_ffff_ffff_ffff_ffff_ffff_ffff_fffe_baae_dce6_af48_a03b_bfd2_5e8c_d036_4141nat
}

/// A secret key is a number above zero and below the order of the curve, in 32 bytes.
pub open spec fn is_secret_key(bytes: Seq<u8>) -> bool {
    bytes.len() == 32 && 0 < big_endian(bytes) < curve_order()
}

/// The prime of the field over which the curve secp256k1 is defined.
pub open spec fn field_prime() -> nat {
    0xffff_ffff_ffff_ffff_ffff_ffff_ffff_ffff_ffff_ffff_ffff_ffff_ffff_fffe_ffff_fc2fnat
}

/// A point of the curve secp256k1: the square of `y` is the cube of `x` plus seven, modulo the prime
/// of the field.
pub open spec fn on_curve(x: nat, y: nat) -> bool {
    &&& x < field_prime()
    &&& y < field_prime()
    &&& (y * y) % field_prime() == (x * x * x + 7) % field_prime()
}

/// A public key in its compressed form: a byte that tells the sign of the second coordinate of a
/// point of the curve, and the first coordinate in 32 bytes.
pub open spec fn is_public_key(bytes: Seq<u8>) -> bool {
    &&& bytes.len() == 33
    &&& bytes[0] == 2 || bytes[0] == 3
    &&& exists|y: nat| #[trigger] on_curve(big_endian(bytes.skip(1)), y)
}

/// Calls `bitcoin::secp256k1::SecretKey::new` with the random number generator of the thread. The
/// contract claims that the result is a secret key; which one rests on chance.
#[verifier::external_body]
pub(crate) fn new_secret_key() -> (r: [u8; 32])
    ensures
        is_secret_key(r@),
{
    bitcoin::secp256k1::SecretKey::new(&mut bitcoin::secp256k1::rand::thread_rng()).secret_bytes()
}

/// The address that pays to the witness program of a public key on a network: what
/// `bitcoin::Address::p2wpkh` makes of the key, as text. `None` if the bytes are not a public key.
pub uninterp spec fn p2wpkh_address(pubkey: Seq<u8>, network: Network) -> Option<Seq<char>>;

/// Calls `bitcoin::Address::p2wpkh` on the key that `bitcoin::PublicKey::from_slice` reads from the
/// bytes, in its compressed form. The contract claims that there is an address exactly if the bytes
/// are a public key in its compressed form, and that the address is a function of the key and the
/// network; how it is computed is left to that crate.
#[verifier::external_body]
pub(crate) fn p2wpkh(pubkey: &[u8; 33], network: Network) -> (r: Option<String>)
    ensures
        p2wpkh_address(pubkey@, network) == match r {
            Some(address) => Some(address@),
            None => None,
        },
        r is Some <==> is_public_key(pubkey@),
{
    let network = match network {
        Network::Bitcoin => bitcoin::Network::Bitcoin,
        Network::Testnet => bitcoin::Network::Testnet,
        Network::Signet => bitcoin::Network::Signet,
        Network::Regtest => bitcoin::Network::Regtest,
    };
    let key = bitcoin::PublicKey::from_slice(pubkey).ok()?;
    let address = bitcoin::Address::p2wpkh(&key, network).ok()?;
    Some(address.to_string())
}

/// Appending a byte multiplies the number that bytes stand for by 256 and adds the byte. No bytes stand
/// for zero.
pub proof fn law_bytes_count_in_256(bytes: Seq<u8>, b: u8)
    ensures
        big_endian(Seq::empty()) == 0,
        big_endian(bytes.push(b)) == big_endian(bytes) * 256 + b,
{
    assert(bytes.push(b).drop_last() =~= bytes);
}

/// The secret keys are the numbers above zero and below the order of the curve, in 32 bytes.
pub proof fn law_secret_keys(bytes: Seq<u8>)
    ensures
        is_secret_key(bytes) <==> bytes.len() == 32 && 0 < big_endian(bytes)
            < 0xffff_ffff_ffff_ffff_ffff_ffff_ffff_fffe_baae_dce6_af48_a03b_bfd2_5e8c_d036_4141nat,
{
}

/// The public keys are a sign, 2 or 3, and the first coordinate of a point of the curve in 32 bytes.
pub proof fn law_public_keys(bytes: Seq<u8>)
    ensures
        is_public_key(bytes) ==> bytes.len() == 33 && (bytes[0] == 2 || bytes[0] == 3),
        is_public_key(bytes) ==> exists|y: nat| #[trigger] on_curve(big_endian(bytes.skip(1)), y),
        forall|y: nat|
            bytes.len() == 33 && (bytes[0] == 2 || bytes[0] == 3) && #[trigger] on_curve(
                big_endian(bytes.skip(1)),
                y,
            ) ==> is_public_key(bytes),
{
}

/// The points of the curve: the square of the second coordinate is the cube of the first plus seven,
/// modulo the prime 2^256 - 2^32 - 977.
pub proof fn law_points_of_the_curve(x: nat, y: nat)
    ensures
        field_prime()
            == 0x1_0000_0000_0000_0000_0000_0000_0000_0000_0000_0000_0000_0000_0000_0000_0000_0000int
            - 0x1_0000_0000 - 977,
        on_curve(x, y) <==> x < field_prime() && y < field_prime() && (y * y) % field_prime() == (x
            * x * x + 7) % field_prime(),
{
}

} // verus!

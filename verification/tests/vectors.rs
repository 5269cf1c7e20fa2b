//! Golden regression vectors: each family's one-shot output on a fixed
//! input, and the output after a chained absorb, against the published
//! reference bytes of the underlying permutations.

use xoflib::{
    ascon_xof, ascona_xof, shake128, shake256, turbo_shake128, turbo_shake256, Ascon, AsconA,
    Shaker128, Shaker256, TurboShaker128, TurboShaker256,
};

const SEED: &[u8] = b"bytes to absorb";
const MORE: &[u8] = b"Ooh just a little bit more data";

#[test]
fn shake128_one_shot_vector() {
    let mut sponge = shake128(SEED);
    assert_eq!(hex::encode(sponge.read(16)), "250ef380a0f0c92e9506af9893f640fa");
}

#[test]
fn shake256_one_shot_vector() {
    let mut sponge = shake256(SEED);
    assert_eq!(hex::encode(sponge.read(16)), "1e54f9f0cbacb3573a05dd5d48ea4104");
}

#[test]
fn turbo_shake128_one_shot_vector() {
    let mut sponge = turbo_shake128(1, SEED).unwrap();
    assert_eq!(hex::encode(sponge.read(16)), "4bb4e35b21335fcc6ae6cd3d0a5fe005");
}

#[test]
fn turbo_shake256_one_shot_vector() {
    let mut sponge = turbo_shake256(1, SEED).unwrap();
    assert_eq!(hex::encode(sponge.read(16)), "d671d0021e9f22293d062259e68e6e89");
}

#[test]
fn ascon_xof_one_shot_vector() {
    let mut sponge = ascon_xof(SEED);
    assert_eq!(hex::encode(sponge.read(16)), "d7bbe757e53015382e3ee13a2207fafc");
}

#[test]
fn ascona_xof_one_shot_vector() {
    let mut sponge = ascona_xof(SEED);
    assert_eq!(hex::encode(sponge.read(16)), "ae7ba96550a57300da1e2ba31335d922");
}

#[test]
fn shake128_absorb_chain_vector() {
    let mut shaker = Shaker128::new(Some(SEED));
    shaker.absorb(MORE);
    let mut sponge = shaker.finalize();
    assert_eq!(hex::encode(sponge.read(16)), "2c67a3c30e75de37d30e3f6d94e05a00");
}

#[test]
fn shake256_absorb_chain_vector() {
    let mut shaker = Shaker256::new(Some(SEED));
    shaker.absorb(MORE);
    let mut sponge = shaker.finalize();
    assert_eq!(hex::encode(sponge.read(16)), "82786e027034dccb6f41224c22a227c9");
}

#[test]
fn turbo_shake128_absorb_chain_vector() {
    let mut shaker = TurboShaker128::new(1, Some(SEED)).unwrap();
    shaker.absorb(MORE);
    let mut sponge = shaker.finalize();
    assert_eq!(hex::encode(sponge.read(16)), "b6be317e80aa741b9f0ac9330d584506");
}

#[test]
fn turbo_shake256_absorb_chain_vector() {
    let mut shaker = TurboShaker256::new(1, Some(SEED)).unwrap();
    shaker.absorb(MORE);
    let mut sponge = shaker.finalize();
    assert_eq!(hex::encode(sponge.read(16)), "2e9d18d326438ea968b071ab958f6260");
}

#[test]
fn ascon_absorb_chain_vector() {
    let mut shaker = Ascon::new(Some(SEED));
    shaker.absorb(MORE);
    let mut sponge = shaker.finalize();
    assert_eq!(hex::encode(sponge.read(16)), "202e12280fb6781470016dc067d3b213");
}

#[test]
fn ascona_absorb_chain_vector() {
    let mut shaker = AsconA::new(Some(SEED));
    shaker.absorb(MORE);
    let mut sponge = shaker.finalize();
    assert_eq!(hex::encode(sponge.read(16)), "e3d5593d0e08c5a7c6cbf751fb817f0a");
}

#[test]
fn ascon_xof_short_vector() {
    let mut sponge = ascon_xof(b"some bytes");
    assert_eq!(hex::encode(sponge.read(5)), "c21972fde9");
}

//! Scenario tests for the sponge state machine: prefix and split reads,
//! absorb concatenation, domain-separation boundaries, one-shot
//! equivalence, and the reset that finalize performs.

use xoflib::{
    ascon_xof, ascona_xof, shake128, shake256, turbo_shake128, turbo_shake256, Shaker128,
    Shaker256, TurboShaker128, TurboShaker256, XofError,
};

const DATA: &[u8] = b"the quick brown fox jumps over the lazy dog";

#[test]
fn prefix_of_longer_read_matches_shorter_read() {
    let mut a = shake128(DATA);
    let mut b = shake128(DATA);
    let short = a.read(16);
    let long = b.read(48);
    assert_eq!(short[..], long[..16]);
}

#[test]
fn prefix_property_holds_for_every_family() {
    let mut pairs: Vec<(Vec<u8>, Vec<u8>)> = Vec::new();
    pairs.push((shake128(DATA).read(11), shake128(DATA).read(29)));
    pairs.push((shake256(DATA).read(11), shake256(DATA).read(29)));
    pairs.push((
        turbo_shake128(7, DATA).unwrap().read(11),
        turbo_shake128(7, DATA).unwrap().read(29),
    ));
    pairs.push((
        turbo_shake256(7, DATA).unwrap().read(11),
        turbo_shake256(7, DATA).unwrap().read(29),
    ));
    pairs.push((ascon_xof(DATA).read(11), ascon_xof(DATA).read(29)));
    pairs.push((ascona_xof(DATA).read(11), ascona_xof(DATA).read(29)));
    for (short, long) in pairs {
        assert_eq!(short[..], long[..11]);
    }
}

#[test]
fn split_read_equals_one_read() {
    let mut split = shake256(DATA);
    let mut whole = shake256(DATA);
    let mut first = split.read(7);
    let second = split.read(9);
    first.extend_from_slice(&second);
    assert_eq!(first, whole.read(16));
}

#[test]
fn zero_length_read_is_a_no_op() {
    let mut a = shake128(DATA);
    let mut b = shake128(DATA);
    let empty = a.read(0);
    assert!(empty.is_empty());
    assert_eq!(a.read(24), b.read(24));
}

#[test]
fn absorb_twice_equals_absorb_of_concatenation() {
    let mut piecewise = Shaker128::new(None);
    piecewise.absorb(b"the quick brown fox ");
    piecewise.absorb(b"jumps over the lazy dog");
    let mut whole = Shaker128::new(None);
    whole.absorb(DATA);
    assert_eq!(piecewise.finalize().read(32), whole.finalize().read(32));
}

#[test]
fn absorbing_nothing_changes_nothing() {
    let mut padded = Shaker256::new(Some(DATA));
    padded.absorb(b"");
    let mut plain = Shaker256::new(Some(DATA));
    assert_eq!(padded.finalize().read(32), plain.finalize().read(32));
}

#[test]
fn domain_separator_boundaries() {
    assert_eq!(
        TurboShaker128::new(0x00, None).err(),
        Some(XofError::InvalidDomainSeparator)
    );
    assert_eq!(
        TurboShaker128::new(0x80, None).err(),
        Some(XofError::InvalidDomainSeparator)
    );
    assert!(TurboShaker128::new(0x01, None).is_ok());
    assert!(TurboShaker128::new(0x7f, None).is_ok());
    assert_eq!(
        TurboShaker256::new(0x00, None).err(),
        Some(XofError::InvalidDomainSeparator)
    );
    assert_eq!(
        TurboShaker256::new(0xff, None).err(),
        Some(XofError::InvalidDomainSeparator)
    );
    assert!(TurboShaker256::new(0x01, None).is_ok());
    assert!(TurboShaker256::new(0x7f, None).is_ok());
}

#[test]
fn one_shot_turbo_rejects_invalid_domain_separator() {
    assert_eq!(
        turbo_shake128(0x00, DATA).err(),
        Some(XofError::InvalidDomainSeparator)
    );
    assert_eq!(
        turbo_shake256(0x80, DATA).err(),
        Some(XofError::InvalidDomainSeparator)
    );
}

#[test]
fn distinct_domain_separators_give_distinct_streams() {
    let mut one = turbo_shake128(0x01, DATA).unwrap();
    let mut two = turbo_shake128(0x02, DATA).unwrap();
    assert_ne!(one.read(32), two.read(32));
}

#[test]
fn one_shot_equals_two_step() {
    let mut one_shot = shake128(DATA);
    let mut shaker = Shaker128::new(Some(DATA));
    let mut two_step = shaker.finalize();
    assert_eq!(one_shot.read(64), two_step.read(64));
}

#[test]
fn one_shot_turbo_equals_two_step() {
    let mut one_shot = turbo_shake256(0x2a, DATA).unwrap();
    let mut shaker = TurboShaker256::new(0x2a, Some(DATA)).unwrap();
    let mut two_step = shaker.finalize();
    assert_eq!(one_shot.read(64), two_step.read(64));
}

#[test]
fn finalize_resets_the_absorber() {
    let mut reused = Shaker128::new(Some(b"first message"));
    let _ = reused.finalize();
    reused.absorb(b"second message");
    let mut fresh = Shaker128::new(Some(b"second message"));
    assert_eq!(reused.finalize().read(32), fresh.finalize().read(32));
}

#[test]
fn finalize_resets_turbo_but_keeps_the_domain() {
    let mut reused = TurboShaker128::new(0x1f, Some(b"first message")).unwrap();
    let _ = reused.finalize();
    reused.absorb(b"second message");
    let mut fresh = TurboShaker128::new(0x1f, Some(b"second message")).unwrap();
    assert_eq!(reused.finalize().read(32), fresh.finalize().read(32));
}

#[test]
fn read_into_fills_the_buffer_exactly() {
    let mut by_read = shake256(DATA);
    let mut by_read_into = shake256(DATA);
    let mut buf = vec![0u8; 10];
    by_read_into.read_into(&mut buf);
    assert_eq!(buf, by_read.read(10));
    let mut next = vec![0u8; 6];
    by_read_into.read_into(&mut next);
    assert_eq!(next, by_read.read(6));
}

#[test]
fn sponges_are_independent_of_their_absorber() {
    let mut shaker = Shaker128::new(Some(b"first"));
    let mut first = shaker.finalize();
    shaker.absorb(b"second");
    let mut second = shaker.finalize();
    let mut first_again = shake128(b"first");
    let mut second_again = shake128(b"second");
    assert_eq!(first.read(24), first_again.read(24));
    assert_eq!(second.read(24), second_again.read(24));
}

use yield_vault::amount::{amount_from_words, amount_to_words};

#[test]
fn narrow_small_value() {
    assert_eq!(amount_from_words(&[5, 0, 0, 0, 0, 0, 0, 0]), Some(5));
}

#[test]
fn narrow_two_words() {
    assert_eq!(amount_from_words(&[1, 2, 0, 0, 0, 0, 0, 0]), Some((2u128 << 64) + 1));
    assert_eq!(amount_from_words(&[u64::MAX, u64::MAX, 0, 0, 0, 0, 0, 0]), Some(u128::MAX));
}

#[test]
fn narrow_rejects_wide_value() {
    assert_eq!(amount_from_words(&[0, 0, 1, 0, 0, 0, 0, 0]), None);
    assert_eq!(amount_from_words(&[0, 0, 0, 0, 0, 0, 0, 1]), None);
}

#[test]
fn widen_and_narrow_round_trip() {
    let a: u128 = (7u128 << 64) + 9;
    let w = amount_to_words(a);
    assert_eq!(w, [9, 7, 0, 0, 0, 0, 0, 0]);
    assert_eq!(amount_from_words(&w), Some(a));
    assert_eq!(amount_from_words(&amount_to_words(u128::MAX)), Some(u128::MAX));
}

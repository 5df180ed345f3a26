use poseidon2::field::FieldElem;

fn fe(x: u64) -> FieldElem {
    FieldElem::from_u64(x)
}

#[test]
fn add_small_integers() {
    assert_eq!(fe(2).add(&fe(3)), fe(5));
    assert_eq!(fe(0).add(&fe(9)), fe(9));
}

#[test]
fn mul_small_integers() {
    assert_eq!(fe(2).mul(&fe(3)), fe(6));
    assert_eq!(fe(7).mul(&fe(0)), fe(0));
}

#[test]
fn sbox_is_fifth_power() {
    assert_eq!(fe(2).sbox(), fe(32));
    assert_eq!(fe(3).sbox(), fe(243));
    assert_eq!(fe(1).sbox(), fe(1));
}

#[test]
fn zero_is_the_zero_element() {
    assert_eq!(FieldElem::zero(), fe(0));
    assert_eq!(fe(11).add(&FieldElem::zero()), fe(11));
}

#[test]
fn to_bytes_is_little_endian_canonical() {
    let b = fe(5).to_bytes();
    assert_eq!(b[0], 5);
    for i in 1..32 {
        assert_eq!(b[i], 0);
    }
    let c = fe(256).to_bytes();
    assert_eq!(c[0], 0);
    assert_eq!(c[1], 1);
}

#[test]
fn canonical_bytes_round_trip() {
    let b = fe(123456789).to_bytes();
    let back = FieldElem::from_canonical_bytes(&b);
    assert_eq!(back, Some(fe(123456789)));
}

#[test]
fn non_canonical_bytes_are_rejected() {
    let b = [0xffu8; 32];
    assert_eq!(FieldElem::from_canonical_bytes(&b), None);
}

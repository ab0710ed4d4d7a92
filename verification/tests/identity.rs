use bank::Identity;

#[test]
fn identity_keeps_its_bytes() {
    let mut bytes = [0u8; 32];
    for (i, b) in bytes.iter_mut().enumerate() {
        *b = (i as u8) * 3;
    }
    let id = Identity::new(bytes);
    assert_eq!(id.to_bytes(), bytes);
    assert_eq!(id.bytes, bytes);
}

#[test]
fn identities_with_the_same_bytes_are_equal() {
    let a = Identity::new([7u8; 32]);
    let b = Identity::new([7u8; 32]);
    assert!(a == b);
    assert!(!(a != b));
    assert_eq!(a, b);
}

#[test]
fn identities_differing_in_one_byte_are_different() {
    let base = [5u8; 32];
    for place in 0..32 {
        let mut other = base;
        other[place] = 6;
        assert!(Identity::new(base) != Identity::new(other), "byte {}", place);
        assert!(!(Identity::new(base) == Identity::new(other)), "byte {}", place);
    }
}

#[test]
fn identity_equality_sees_the_first_and_the_last_byte() {
    let zero = Identity::new([0u8; 32]);
    let mut first = [0u8; 32];
    first[0] = 1;
    let mut last = [0u8; 32];
    last[31] = 1;
    assert_ne!(zero, Identity::new(first));
    assert_ne!(zero, Identity::new(last));
    assert_ne!(Identity::new(first), Identity::new(last));
}

use nft_marketplace::Identity;

#[test]
fn identities_are_their_bytes() {
    let bytes = [9u8; 32];
    let id = Identity::new(bytes);
    assert_eq!(id.to_bytes(), bytes);
    assert_eq!(id.bytes, bytes);
}

#[test]
fn identities_with_the_same_bytes_are_the_same() {
    let a = Identity::new([4; 32]);
    let b = Identity::new([4; 32]);
    assert!(a.same_as(&b));
    assert!(a == b);
    assert_eq!(a, b);
}

#[test]
fn one_differing_byte_makes_another_identity() {
    let a = Identity::new([4; 32]);
    for position in 0..32 {
        let mut bytes = [4u8; 32];
        bytes[position] = 5;
        let b = Identity::new(bytes);
        assert!(!a.same_as(&b));
        assert!(!b.same_as(&a));
        assert!(a != b);
    }
}

use app_handler::identity::{AppIdentity, IDENTITY_LEN};

#[test]
fn identity_holds_the_bytes_it_was_made_of() {
    let mut bytes = [0u8; 64];
    bytes[0] = 1;
    bytes[63] = 255;
    let id = AppIdentity::new(bytes);
    assert_eq!(id.get_id(), bytes);
    assert_eq!(id.bytes.len(), IDENTITY_LEN);
}

#[test]
fn identities_of_equal_bytes_are_the_same() {
    let a = AppIdentity::new([9u8; 64]);
    let b = AppIdentity::new([9u8; 64]);
    assert!(a.same_as(&b));
    assert!(a.same_as(&a));
}

#[test]
fn identities_differ_where_one_byte_differs() {
    let a = AppIdentity::new([9u8; 64]);
    let mut first = [9u8; 64];
    first[0] = 8;
    let mut last = [9u8; 64];
    last[63] = 10;
    assert!(!a.same_as(&AppIdentity::new(first)));
    assert!(!a.same_as(&AppIdentity::new(last)));
    assert!(!AppIdentity::new(last).same_as(&a));
}

use obs_farm::keys::{key_eq, key_for};

#[test]
fn derived_key_is_stable() {
    let id = b"alice.near".to_vec();
    let k1 = key_for(&id);
    let k2 = key_for(&id);
    assert!(key_eq(&k1, &k2));
    assert_eq!(k1.0, k2.0);
}

#[test]
fn derived_key_is_twenty_bytes_of_the_digest() {
    // sha256("The phrase that will be hashed") ==
    //   7fc38bc74a0d0e592d2b8381839adc2649007d5bca11f92eeddef78681b4e3a3
    let id = b"The phrase that will be hashed".to_vec();
    let k = key_for(&id);
    let expected: [u8; 20] = [
        0x7f, 0xc3, 0x8b, 0xc7, 0x4a, 0x0d, 0x0e, 0x59, 0x2d, 0x2b, 0x83, 0x81, 0x83, 0x9a, 0xdc,
        0x26, 0x49, 0x00, 0x7d, 0x5b,
    ];
    assert_eq!(k.0, expected);
}

#[test]
fn distinct_identifiers_get_distinct_keys() {
    let k1 = key_for(&b"alice.near".to_vec());
    let k2 = key_for(&b"bob.near".to_vec());
    assert!(!key_eq(&k1, &k2));
}

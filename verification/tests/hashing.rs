use occlum_ratls::measurement::bytes_equal;
use occlum_ratls::utils::hash_sha512;

fn hex(bytes: &[u8]) -> String {
    let mut text = String::new();
    for byte in bytes {
        text.push_str(&format!("{:02x}", byte));
    }
    text
}

#[test]
fn sha512_of_abc() {
    assert_eq!(
        hex(&hash_sha512(b"abc".to_vec())),
        "ddaf35a193617abacc417349ae20413112e6fa4e89a97ea20a9eeee64b55d39a\
         2192992a274fc1a836ba3c23a3feebbd454d4423643ce80e2a9ac94fa54ca49f"
    );
}

#[test]
fn sha512_of_nothing() {
    assert_eq!(
        hex(&hash_sha512(Vec::new())),
        "cf83e1357eefb8bdf1542850d66d8007d620e4050b5715dc83f4a921d36ce9ce\
         47d0d13c5d85f2b0ff8318d2877eec2f63b931bd47417a81a538327af927da3e"
    );
}

#[test]
fn sha512_of_a_digest_sized_input_differs_from_the_input() {
    let input = vec![7u8; 64];
    assert_ne!(hash_sha512(input.clone()).to_vec(), input);
}

#[test]
fn byte_strings_are_compared_by_length_and_content() {
    assert!(bytes_equal(&[], &[]));
    assert!(bytes_equal(&[1, 2, 3], &[1, 2, 3]));
    assert!(!bytes_equal(&[1, 2, 3], &[1, 2, 4]));
    assert!(!bytes_equal(&[1, 2, 3], &[1, 2]));
    assert!(!bytes_equal(&[], &[0]));
}

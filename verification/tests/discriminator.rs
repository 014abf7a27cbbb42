use sealevel_tools::discriminator::{digest_prefix, Discriminator};

fn defined_discriminator() -> [u8; 8] {
    Discriminator::Defined([1, 2, 3, 4, 5, 6, 7, 8]).to_bytes()
}

fn keccak_discriminator() -> [u8; 8] {
    Discriminator::Keccak(b"a thing").to_bytes()
}

fn sha2_discriminator() -> [u8; 8] {
    Discriminator::Sha2(b"a thing").to_bytes()
}

fn sha3_discriminator() -> [u8; 8] {
    Discriminator::Sha3(b"a thing").to_bytes()
}

#[test]
fn test_constants() {
    assert_eq!(defined_discriminator(), [1, 2, 3, 4, 5, 6, 7, 8]);
    assert_eq!(keccak_discriminator(), [229, 125, 11, 200, 40, 184, 43, 53]);
    assert_eq!(sha2_discriminator(), [184, 38, 71, 117, 18, 58, 226, 106]);
    assert_eq!(sha3_discriminator(), [42, 209, 81, 98, 71, 17, 253, 121]);
}

#[test]
fn test_defined() {
    let discriminator = Discriminator::Defined([1, 2, 3, 4, 5, 6, 7, 8, 9]);
    let bytes = discriminator.to_bytes();
    assert_eq!(bytes, [1, 2, 3, 4, 5, 6, 7, 8, 9]);
    assert_eq!(&bytes[..8], &defined_discriminator());
}

#[test]
fn test_keccak() {
    let discriminator = Discriminator::Keccak(b"a thing");
    let bytes = discriminator.to_bytes();
    assert_eq!(bytes, [229, 125, 11, 200, 40, 184, 43, 53, 164]);
    assert_eq!(&bytes[..8], &keccak_discriminator());
}

#[test]
fn test_sha2() {
    let discriminator = Discriminator::Sha2(b"a thing");
    let bytes = discriminator.to_bytes();
    assert_eq!(bytes, [184, 38, 71, 117, 18, 58, 226, 106, 248]);
    assert_eq!(&bytes[..8], &sha2_discriminator());
}

#[test]
fn test_sha3() {
    let discriminator = Discriminator::Sha3(b"a thing");
    let bytes = discriminator.to_bytes();
    assert_eq!(bytes, [42, 209, 81, 98, 71, 17, 253, 121, 134]);
    assert_eq!(&bytes[..8], &sha3_discriminator());
}

#[test]
fn test_longer_than_digest_is_zero_padded() {
    let bytes: [u8; 40] = Discriminator::Sha2(b"a thing").to_bytes();
    let digest: [u8; 32] = Discriminator::Sha2(b"a thing").to_bytes();
    assert_eq!(&bytes[..32], &digest);
    assert_eq!(&bytes[32..], &[0u8; 8]);
}

#[test]
fn digest_prefix_truncates_and_pads() {
    let mut digest = [0u8; 32];
    for (i, b) in digest.iter_mut().enumerate() {
        *b = i as u8 + 1;
    }
    assert_eq!(digest_prefix::<4>(digest), [1, 2, 3, 4]);
    let long: [u8; 34] = digest_prefix(digest);
    assert_eq!(&long[..32], &digest[..]);
    assert_eq!(&long[32..], &[0, 0]);
}

#[test]
fn test_spl_discriminator_equivalence() {
    // What `#[derive(SplDiscriminate)]` with `#[discriminator_hash_input("a thing")]` computes.
    let spl_discriminator =
        spl_discriminator::ArrayDiscriminator::new_with_hash_input("a thing");

    assert_eq!(spl_discriminator.as_slice(), &sha2_discriminator());
}

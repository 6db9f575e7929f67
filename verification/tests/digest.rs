use solana_verify::digest::{get_binary_hash, strip_trailing_zeros, DIGEST_HEX_LEN};

const EMPTY_DIGEST: &str = "e3b0c44298fc1c149afbf4c8996fb92427ae41e4649b934ca495991b7852b855";
const ABC_DIGEST: &str = "ba7816bf8f01cfea414140de5dae2223b00361a396177a9cb410ff61f20015ad";

#[test]
fn empty_buffer_has_the_well_known_digest() {
    assert_eq!(get_binary_hash(vec![]), EMPTY_DIGEST);
}

#[test]
fn digest_is_sha256_in_lower_case_hex() {
    let hash = get_binary_hash(b"abc".to_vec());
    assert_eq!(hash, ABC_DIGEST);
    assert_eq!(hash.len(), DIGEST_HEX_LEN);
    assert!(hash.chars().all(|c| c.is_ascii_digit() || ('a'..='f').contains(&c)));
}

#[test]
fn trailing_zeros_are_stripped() {
    assert_eq!(strip_trailing_zeros(vec![1, 2, 0, 0, 0]), vec![1, 2]);
    assert_eq!(strip_trailing_zeros(vec![7]), vec![7]);
    assert_eq!(strip_trailing_zeros(vec![]), Vec::<u8>::new());
}

#[test]
fn leading_and_interior_zeros_stay() {
    assert_eq!(strip_trailing_zeros(vec![0, 0, 1, 0, 2, 0]), vec![0, 0, 1, 0, 2]);
    assert_ne!(get_binary_hash(vec![0, 1]), get_binary_hash(vec![1]));
    assert_ne!(get_binary_hash(vec![1, 0, 2]), get_binary_hash(vec![1, 2]));
}

#[test]
fn normalization_is_idempotent() {
    let once = strip_trailing_zeros(vec![9, 0, 8, 0, 0]);
    let twice = strip_trailing_zeros(strip_trailing_zeros(vec![9, 0, 8, 0, 0]));
    assert_eq!(once, vec![9, 0, 8]);
    assert_eq!(twice, once);
}

#[test]
fn zero_suffix_does_not_change_the_digest() {
    let plain = get_binary_hash(b"abc".to_vec());
    for padding in [0usize, 1, 2, 45, 1000] {
        let mut padded = b"abc".to_vec();
        padded.extend(std::iter::repeat(0u8).take(padding));
        assert_eq!(get_binary_hash(padded), plain);
    }
    assert_eq!(plain, ABC_DIGEST);
}

#[test]
fn all_zero_buffer_has_the_digest_of_the_empty_buffer() {
    assert_eq!(strip_trailing_zeros(vec![0; 17]), Vec::<u8>::new());
    assert_eq!(get_binary_hash(vec![0]), EMPTY_DIGEST);
    assert_eq!(get_binary_hash(vec![0; 4096]), EMPTY_DIGEST);
}

#[test]
fn different_images_have_different_digests() {
    assert_ne!(get_binary_hash(vec![1, 2]), get_binary_hash(vec![1, 3]));
    assert_ne!(get_binary_hash(vec![1, 2]), "0102");
}

use modpack_installer::digest::{content_matches, digest_matches, sha256_hex};
use modpack_installer::download::{check_digest, verify_download, Download};
use modpack_installer::error::UpdateError;
use modpack_installer::hex::to_hex_lower;

const ABC_SHA256: &str = "ba7816bf8f01cfea414140de5dae2223b00361a396177a9cb410ff61f20015ad";
const EMPTY_SHA256: &str = "e3b0c44298fc1c149afbf4c8996fb92427ae41e4649b934ca495991b7852b855";

#[test]
fn hex_of_no_bytes_is_empty() {
    assert_eq!(to_hex_lower(&[]), "");
}

#[test]
fn hex_writes_two_lowercase_digits_per_byte() {
    assert_eq!(to_hex_lower(&[10, 20, 30]), "0a141e");
    assert_eq!(to_hex_lower(&[0x00, 0x09, 0x0f, 0x10, 0x9a, 0xff]), "00090f109aff");
}

#[test]
fn hex_of_every_byte_value() {
    let all: Vec<u8> = (0..=255u8).collect();
    let text = to_hex_lower(&all);
    assert_eq!(text.len(), 512);
    for (i, b) in all.iter().enumerate() {
        assert_eq!(&text[2 * i..2 * i + 2], format!("{:02x}", b));
    }
}

#[test]
fn hex_keeps_different_bytes_apart() {
    assert_ne!(to_hex_lower(&[0x01, 0x10]), to_hex_lower(&[0x10, 0x01]));
    assert_ne!(to_hex_lower(&[0x00]), to_hex_lower(&[0x00, 0x00]));
}

#[test]
fn sha256_hex_of_known_inputs() {
    assert_eq!(sha256_hex(b"abc"), ABC_SHA256);
    assert_eq!(sha256_hex(b""), EMPTY_SHA256);
}

#[test]
fn sha256_hex_is_not_the_input() {
    let input = b"0123456789abcdef0123456789abcdef";
    let text = sha256_hex(input);
    assert_eq!(text.len(), 64);
    assert_ne!(text, to_hex_lower(input));
    assert_eq!(text, "3eb1bd439947eb762998e566ccc2e099c791118b2f40579cc4f7da2b5061b7f9");
}

#[test]
fn digest_matches_compares_exactly() {
    assert!(digest_matches(&[0xab, 0xcd], "abcd"));
    assert!(!digest_matches(&[0xab, 0xcd], "ABCD"));
    assert!(!digest_matches(&[0xab, 0xcd], "abcd "));
    assert!(!digest_matches(&[0xab, 0xcd], "abc"));
    assert!(digest_matches(&[], ""));
}

#[test]
fn content_matches_its_own_checksum_only() {
    assert!(content_matches(b"abc", ABC_SHA256));
    assert!(!content_matches(b"abd", ABC_SHA256));
    assert!(!content_matches(b"abc", EMPTY_SHA256));
    assert!(!content_matches(b"abc", &ABC_SHA256.to_uppercase()));
}

#[test]
fn check_digest_hands_the_body_back_or_refuses() {
    assert_eq!(check_digest(vec![1, 2, 3], &[0x0f, 0xf0], "0ff0"), Ok(vec![1, 2, 3]));
    assert_eq!(check_digest(vec![1, 2, 3], &[0x0f, 0xf0], "0ff1"), Err(UpdateError::Integrity));
}

#[test]
fn verified_download_returns_exactly_the_bytes() {
    assert_eq!(verify_download(b"abc".to_vec(), ABC_SHA256), Ok(b"abc".to_vec()));
    assert_eq!(verify_download(Vec::new(), EMPTY_SHA256), Ok(Vec::new()));
}

#[test]
fn any_single_byte_mutation_is_refused() {
    let intact = b"abc".to_vec();
    for position in 0..intact.len() {
        for bit in 0..8 {
            let mut changed = intact.clone();
            changed[position] ^= 1 << bit;
            assert_eq!(verify_download(changed, ABC_SHA256), Err(UpdateError::Integrity));
        }
    }
}

#[test]
fn thousand_bytes_with_another_digest_are_refused() {
    let mut download = Download::new(1000);
    let body = vec![7u8; 1000];
    assert_eq!(download.accept(&body), 1000);
    assert_eq!(download.received_len(), 1000);
    assert_eq!(download.declared_size(), 1000);
    assert_eq!(download.finish(ABC_SHA256), Err(UpdateError::Integrity));
}

#[test]
fn download_gathers_chunks_in_order() {
    let mut download = Download::new(3);
    assert_eq!(download.received_len(), 0);
    assert_eq!(download.accept(b"a"), 1);
    assert_eq!(download.accept(b""), 0);
    assert_eq!(download.accept(b"bc"), 2);
    assert_eq!(download.received_len(), 3);
    assert_eq!(download.finish(ABC_SHA256), Ok(b"abc".to_vec()));
}

#[test]
fn download_in_another_order_is_refused() {
    let mut download = Download::new(3);
    download.accept(b"bc");
    download.accept(b"a");
    assert_eq!(download.finish(ABC_SHA256), Err(UpdateError::Integrity));
}

#[test]
fn declared_size_does_not_decide() {
    let mut download = Download::new(1000);
    download.accept(b"abc");
    assert_eq!(download.finish(ABC_SHA256), Ok(b"abc".to_vec()));
}

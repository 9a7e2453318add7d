use rensen::hash::{hash_window, to_hex, WINDOW_LEN};

#[test]
fn hash_of_empty_window() {
    // SHA3-256 of the empty input, a published test vector.
    assert_eq!(
        hash_window(&[]),
        "a7ffc6f8bf1ed76651c14756a061d662f580ff4de43b49fa82d80a4b80f8434a"
    );
}

#[test]
fn hash_of_small_window() {
    // SHA3-256 of "abc", a published test vector.
    assert_eq!(
        hash_window(b"abc"),
        "3a985da74fe225b2045c172d6bd390bd855f086e3e9d525b46bfe24511431532"
    );
}

#[test]
fn hashes_distinguish_content() {
    assert_ne!(hash_window(b"abc"), hash_window(b"abd"));
}

#[test]
fn hex_rendering() {
    assert_eq!(to_hex(&vec![0xbe, 0xef]), "beef");
    assert_eq!(to_hex(&vec![0x00, 0x0f, 0xa0]), "000fa0");
    assert_eq!(to_hex(&vec![]), "");
}

#[test]
fn window_length_is_1024() {
    assert_eq!(WINDOW_LEN, 1024);
}

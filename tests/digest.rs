use ytdlp_guard::digest::{bytes_equal, compare_images, get_hash, Comparison, DigestError};

#[test]
fn hash_of_abc_is_the_known_sha256() {
    let expected: Vec<u8> = vec![
        0xba, 0x78, 0x16, 0xbf, 0x8f, 0x01, 0xcf, 0xea, 0x41, 0x41, 0x40, 0xde, 0x5d, 0xae, 0x22, 0x23,
        0xb0, 0x03, 0x61, 0xa3, 0x96, 0x17, 0x7a, 0x9c, 0xb4, 0x10, 0xff, 0x61, 0xf2, 0x00, 0x15, 0xad,
    ];
    assert_eq!(get_hash(b"abc"), expected);
}

#[test]
fn hash_of_empty_input() {
    let h = get_hash(b"");
    assert_eq!(h.len(), 32);
    assert_eq!(h[0], 0xe3);
    assert_eq!(h[31], 0x55);
}

#[test]
fn identical_images_are_consistent() {
    let img = vec![1u8, 2, 3, 4];
    assert_eq!(compare_images(Ok(img.clone()), Ok(img)), Comparison::Consistent);
}

#[test]
fn overwritten_image_has_drifted() {
    assert_eq!(compare_images(Ok(vec![9u8; 100]), Ok(vec![1u8, 2, 3])), Comparison::Drifted);
    assert_eq!(compare_images(Ok(vec![]), Ok(vec![0u8])), Comparison::Drifted);
}

#[test]
fn missing_impersonated_file_is_unavailable() {
    let e = DigestError::CannotOpen("not found".to_string());
    assert_eq!(compare_images(Err(e.clone()), Ok(vec![1u8])), Comparison::Unavailable(e));
}

#[test]
fn read_error_of_own_image_is_unavailable() {
    let e = DigestError::ReadFailed("device error".to_string());
    assert_eq!(compare_images(Ok(vec![1u8]), Err(e.clone())), Comparison::Unavailable(e));
}

#[test]
fn byte_equality() {
    assert!(bytes_equal(&[1, 2, 3], &[1, 2, 3]));
    assert!(!bytes_equal(&[1, 2, 3], &[1, 2, 4]));
    assert!(!bytes_equal(&[1, 2], &[1, 2, 3]));
    assert!(bytes_equal(&[], &[]));
}

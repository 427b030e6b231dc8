use base64::Engine;
use lexicog::encoding::{base64_fits, encode_base64, fetch_selected_image};

#[test]
fn base64_of_known_texts() {
    assert_eq!(encode_base64(b"").unwrap(), "");
    assert_eq!(encode_base64(b"M").unwrap(), "TQ==");
    assert_eq!(encode_base64(b"Ma").unwrap(), "TWE=");
    assert_eq!(encode_base64(b"Man").unwrap(), "TWFu");
    assert_eq!(encode_base64(b"hello").unwrap(), "aGVsbG8=");
    assert_eq!(encode_base64(&[0xff, 0xfe, 0xfd, 0xfc]).unwrap(), "//79/A==");
}

#[test]
fn base64_length_is_four_per_started_group() {
    for n in 0..20usize {
        let bytes = vec![0xabu8; n];
        let text = encode_base64(&bytes).unwrap();
        assert_eq!(text.len(), 4 * ((n + 2) / 3));
    }
}

#[test]
fn base64_of_concatenated_groups() {
    let a = encode_base64(b"abc").unwrap();
    let b = encode_base64(b"de").unwrap();
    assert_eq!(encode_base64(b"abcde").unwrap(), format!("{}{}", a, b));
}

#[test]
fn fetch_selected_image_encodes_bytes() {
    let bin = vec![0x89, b'P', b'N', b'G'];
    assert_eq!(fetch_selected_image(&bin), "iVBORw==");
    assert_eq!(fetch_selected_image(&Vec::new()), "");
}

#[test]
fn base64_fits_small_and_rejects_huge() {
    assert!(base64_fits(0));
    assert!(base64_fits(1 << 20));
    assert!(!base64_fits(usize::MAX));
    assert!(!base64_fits(usize::MAX / 4 * 3 + 3));
}

#[test]
fn base64_decodes_back_to_bytes() {
    for n in 0..12usize {
        let bytes: Vec<u8> = (0..n).map(|i| (i * 37 + 11) as u8).collect();
        let text = fetch_selected_image(&bytes);
        let back = base64::engine::general_purpose::STANDARD.decode(text).unwrap();
        assert_eq!(back, bytes);
    }
}

use model_provider::base64::{decode_bytes, decode_text};

#[test]
fn decodes_full_and_padded_groups() {
    assert_eq!(decode_text("TWFu").unwrap(), b"Man".to_vec());
    assert_eq!(decode_text("TWE=").unwrap(), b"Ma".to_vec());
    assert_eq!(decode_text("TQ==").unwrap(), b"M".to_vec());
    assert_eq!(decode_text("").unwrap(), Vec::<u8>::new());
    assert_eq!(decode_text("aGVsbG8gd29ybGQ=").unwrap(), b"hello world".to_vec());
    assert_eq!(decode_text("+/8=").unwrap(), vec![0xfb, 0xff]);
}

#[test]
fn rejects_text_that_is_not_base64() {
    assert!(decode_text("TWF").is_none());
    assert!(decode_text("TW=u").is_none());
    assert!(decode_text("TQ==TWFu").is_none());
    assert!(decode_text("T*Fu").is_none());
    assert!(decode_text("TWFué").is_none());
    assert!(decode_bytes(b"====").is_none());
}

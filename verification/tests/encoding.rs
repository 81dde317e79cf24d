use wxdat::encoding::to_base64;

#[test]
fn base64_of_short_payloads() {
    assert_eq!(to_base64(b"").unwrap(), "");
    assert_eq!(to_base64(b"f").unwrap(), "Zg==");
    assert_eq!(to_base64(b"fo").unwrap(), "Zm8=");
    assert_eq!(to_base64(b"foo").unwrap(), "Zm9v");
    assert_eq!(to_base64(b"foob").unwrap(), "Zm9vYg==");
    assert_eq!(to_base64(b"fooba").unwrap(), "Zm9vYmE=");
    assert_eq!(to_base64(b"foobar").unwrap(), "Zm9vYmFy");
}

#[test]
fn base64_uses_the_standard_alphabet() {
    assert_eq!(to_base64(&[0xFB, 0xFF, 0xBF]).unwrap(), "+/+/");
    assert_eq!(to_base64(&[0xFF, 0xD8, 0xFF, 0xE0]).unwrap(), "/9j/4A==");
    assert_eq!(to_base64(&[0, 0, 0]).unwrap(), "AAAA");
}

#[test]
fn base64_length() {
    for len in 0usize..50 {
        let data = vec![0x5Au8; len];
        let text = to_base64(&data).unwrap();
        assert_eq!(text.len(), (len / 3) * 4 + if len % 3 > 0 { 4 } else { 0 });
    }
}

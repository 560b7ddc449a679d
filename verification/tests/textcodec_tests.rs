use essential_wallet::decode_str;
use essential_wallet::encode_str;
use essential_wallet::Encoding;
use essential_wallet::Error;

#[test]
fn hex_round_trip() {
    assert_eq!(encode_str(vec![0x01, 0xff], Encoding::Hex), "01ff");
    assert_eq!(decode_str("01ff".to_string(), Encoding::Hex), Ok(vec![0x01, 0xff]));
}

#[test]
fn hex_rejects_invalid_text() {
    assert_eq!(decode_str("zz".to_string(), Encoding::Hex), Err(Error::InvalidEncoding));
    assert_eq!(decode_str("abc".to_string(), Encoding::Hex), Err(Error::InvalidEncoding));
}

#[test]
fn base64_round_trip() {
    assert_eq!(encode_str(b"hello".to_vec(), Encoding::Base64), "aGVsbG8=");
    assert_eq!(
        decode_str("aGVsbG8=".to_string(), Encoding::Base64),
        Ok(b"hello".to_vec())
    );
    assert_eq!(
        decode_str("!!!".to_string(), Encoding::Base64),
        Err(Error::InvalidEncoding)
    );
}

#[test]
fn base64_url_no_pad_round_trip() {
    // No padding characters; URL-safe alphabet.
    assert_eq!(encode_str(b"hello".to_vec(), Encoding::Base64UrlNoPad), "aGVsbG8");
    assert_eq!(
        decode_str("aGVsbG8".to_string(), Encoding::Base64UrlNoPad),
        Ok(b"hello".to_vec())
    );
    assert_eq!(encode_str(vec![0xfb, 0xff], Encoding::Base64UrlNoPad), "-_8");
}

#[test]
fn json_byte_arrays_round_trip() {
    assert_eq!(encode_str(vec![104, 22, 33], Encoding::Bytes), "[104,22,33]");
    assert_eq!(
        decode_str("[104, 22, 33]".to_string(), Encoding::Bytes),
        Ok(vec![104, 22, 33])
    );
    assert_eq!(
        decode_str("not json".to_string(), Encoding::Bytes),
        Err(Error::InvalidEncoding)
    );
}

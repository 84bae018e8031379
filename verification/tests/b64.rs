use rcli::process::b64::decoded_text;
use rcli::{file_reply, process_decode, process_encode, Base64Format, ProcessError};

#[test]
fn encode_known_values() {
    assert_eq!(process_encode(b"hello", Base64Format::Standard), "aGVsbG8=");
    assert_eq!(process_encode(b"hell", Base64Format::Standard), "aGVsbA==");
    assert_eq!(process_encode(b"hel", Base64Format::Standard), "aGVs");
    assert_eq!(process_encode(b"", Base64Format::Standard), "");
    assert_eq!(process_encode(&[0xfb, 0xff], Base64Format::Standard), "+/8=");
    assert_eq!(process_encode(&[0xfb, 0xff], Base64Format::UrlSafe), "-_8=");
}

#[test]
fn decode_known_values() {
    assert_eq!(process_decode(b"aGVsbG8=", Base64Format::Standard).unwrap(), b"hello".to_vec());
    assert_eq!(process_decode(b"-_8=", Base64Format::UrlSafe).unwrap(), vec![0xfb, 0xff]);
    assert_eq!(process_decode(b"", Base64Format::UrlSafe).unwrap(), Vec::<u8>::new());
}

#[test]
fn decode_rejects_what_no_encoding_produces() {
    for text in [
        &b"aGVsbG8"[..],
        b"aGVsbA=",
        b"aGVsbG9=",
        b"aGVsbG8=\n",
        b"a",
        b"aG=sbG8=",
    ] {
        assert_eq!(
            process_decode(text, Base64Format::Standard),
            Err(ProcessError::InvalidBase64)
        );
    }
    assert_eq!(
        process_decode(b"-_8=", Base64Format::Standard),
        Err(ProcessError::InvalidBase64)
    );
    assert_eq!(
        process_decode(b"+/8=", Base64Format::UrlSafe),
        Err(ProcessError::InvalidBase64)
    );
}

#[test]
fn decode_after_encode_gives_back_the_data() {
    let data: Vec<u8> = (0u8..=255).collect();
    for len in 0..data.len() {
        for format in [Base64Format::Standard, Base64Format::UrlSafe] {
            let text = process_encode(&data[..len], format);
            assert_eq!(process_decode(text.as_bytes(), format).unwrap(), data[..len].to_vec());
        }
    }
}

#[test]
fn file_reply_codes() {
    assert_eq!(file_reply(None), (404, "File not found".to_owned()));
    assert_eq!(file_reply(Some("abc".to_owned())), (200, "abc".to_owned()));
}

#[test]
fn decoded_text_reads_utf8() {
    assert_eq!(decoded_text(b"hi".to_vec()).unwrap(), "hi".to_owned());
    assert_eq!(decoded_text(vec![0xff, 0x41]), Err(ProcessError::InvalidUtf8));
    assert_eq!(decoded_text(vec![0xed, 0xa0, 0x80]), Err(ProcessError::InvalidUtf8));
    let text = "你好, world";
    for format in [Base64Format::Standard, Base64Format::UrlSafe] {
        let encoded = process_encode(text.as_bytes(), format);
        let bytes = process_decode(encoded.as_bytes(), format).unwrap();
        assert_eq!(decoded_text(bytes).unwrap(), text.to_owned());
    }
}

#[test]
fn url_safe_text_is_standard_text_with_two_symbols_replaced() {
    let data: Vec<u8> = (0u8..=255).rev().chain(0u8..=255).collect();
    for len in [0, 1, 2, 3, 62, 63, 64, 100, 511] {
        let standard = process_encode(&data[..len], Base64Format::Standard);
        let url_safe = process_encode(&data[..len], Base64Format::UrlSafe);
        assert_eq!(url_safe, standard.replace('+', "-").replace('/', "_"));
    }
}

//! Tests for the base64 codec, the data-URL export, text utilities, and the
//! error type.

use signature_pad::base64::base64_decode;
use signature_pad::base64::base64_encode;
use signature_pad::error::SigError;
use signature_pad::export::png_data_url;
use signature_pad::export::to_png_bytes;
use signature_pad::text;

#[test]
fn base64_decode_known_values() {
    assert_eq!(base64_decode(""), Some(vec![]));
    assert_eq!(base64_decode("QQ=="), Some(vec![b'A']));
    assert_eq!(base64_decode("TWE="), Some(vec![b'M', b'a']));
    assert_eq!(base64_decode("TWFu"), Some(vec![b'M', b'a', b'n']));
    assert_eq!(
        base64_decode("TWFuTWFu"),
        Some(vec![b'M', b'a', b'n', b'M', b'a', b'n'])
    );
    assert_eq!(base64_decode("+/+/"), Some(vec![251, 255, 191]));
}

#[test]
fn base64_decode_rejects_malformed_text() {
    assert_eq!(base64_decode("A"), None);
    assert_eq!(base64_decode("AB"), None);
    assert_eq!(base64_decode("ABCDE"), None);
    assert_eq!(base64_decode("===="), None);
    assert_eq!(base64_decode("QQ=A"), None);
    assert_eq!(base64_decode("Q Q=="), None);
    assert_eq!(base64_decode("QQ==QQ=="), None);
}

#[test]
fn base64_encode_known_values() {
    assert_eq!(base64_encode(&vec![]), "");
    assert_eq!(base64_encode(&vec![b'A']), "QQ==");
    assert_eq!(base64_encode(&vec![b'M', b'a']), "TWE=");
    assert_eq!(base64_encode(&vec![b'M', b'a', b'n']), "TWFu");
    assert_eq!(base64_encode(&vec![251, 255, 191]), "+/+/");
}

#[test]
fn base64_round_trips_on_sample_bytes() {
    let samples: Vec<Vec<u8>> = vec![
        vec![],
        vec![0],
        vec![255],
        vec![1, 2],
        vec![137, 80, 78, 71, 13, 10, 26, 10],
        (0u8..=255).collect(),
    ];
    for bytes in samples {
        let encoded = base64_encode(&bytes);
        assert_eq!(base64_decode(&encoded), Some(bytes));
    }
}

#[test]
fn png_data_url_has_expected_shape() {
    let bytes = vec![137, 80, 78, 71, 13, 10, 26, 10];
    let url = png_data_url(&bytes);
    assert!(url.starts_with("data:image/png;base64,"));
    assert_eq!(url, "data:image/png;base64,iVBORw0KGgo=");
}

#[test]
fn export_round_trips_through_data_url() {
    let bytes = vec![137, 80, 78, 71, 13, 10, 26, 10, 0, 0, 0, 13];
    let url = png_data_url(&bytes);
    let back = to_png_bytes(&url).unwrap();
    assert!(!back.is_empty());
    assert_eq!(back, bytes);
}

#[test]
fn to_png_bytes_rejects_wrong_prefix() {
    let r = to_png_bytes("data:image/jpeg;base64,QQ==");
    match r {
        Err(SigError::OpFailed(m)) => assert_eq!(m, "unexpected data URL"),
        _ => panic!("expected a prefix error"),
    }
    let r = to_png_bytes("");
    assert!(matches!(r, Err(SigError::OpFailed(_))));
}

#[test]
fn to_png_bytes_rejects_bad_payload() {
    let r = to_png_bytes("data:image/png;base64,ABC");
    match r {
        Err(SigError::OpFailed(m)) => assert_eq!(m, "base64 decode"),
        _ => panic!("expected a decode error"),
    }
}

#[test]
fn to_png_bytes_decodes_handwritten_url() {
    assert_eq!(to_png_bytes("data:image/png;base64,QQ=="), Ok(vec![b'A']));
    assert_eq!(to_png_bytes("data:image/png;base64,"), Ok(vec![]));
}

#[test]
fn decimal_formatting_exact() {
    assert_eq!(text::i32_to_string(0), "0");
    assert_eq!(text::i32_to_string(7), "7");
    assert_eq!(text::i32_to_string(120), "120");
    assert_eq!(text::i32_to_string(-42), "-42");
    assert_eq!(text::i32_to_string(i32::MAX), "2147483647");
    assert_eq!(text::i32_to_string(i32::MIN), "-2147483648");
}

#[test]
fn find_and_contains_basics() {
    assert_eq!(text::find("left:5px;", "left:"), Some(0));
    assert_eq!(text::find("top:1px;left:5px;", "left:"), Some(8));
    assert_eq!(text::find("top:1px;", "left:"), None);
    assert!(text::contains("a;b;c", ";"));
    assert!(!text::contains("abc", ";"));
    assert_eq!(text::find_from("a;b;c", ";", 2), Some(3));
    assert_eq!(text::find_from("a;b;c", ";", 4), None);
}

#[test]
fn trim_and_str_eq_basics() {
    assert_eq!(text::trim("  color:red \t\n"), "color:red");
    assert_eq!(text::trim(""), "");
    assert_eq!(text::trim("   "), "");
    assert!(text::str_eq("abc", "abc"));
    assert!(!text::str_eq("abc", "abd"));
    assert!(!text::str_eq("abc", "ab"));
}

#[test]
fn error_messages_exact() {
    assert_eq!(SigError::DomUnavailable.message(), "DOM not available");
    assert_eq!(
        SigError::ElementNotFound("contract-box".to_string()).message(),
        "Element not found: contract-box"
    );
    assert_eq!(SigError::NoContext2d.message(), "Canvas context unavailable");
    assert_eq!(
        SigError::OpFailed("eval".to_string()).message(),
        "Operation failed: eval"
    );
}

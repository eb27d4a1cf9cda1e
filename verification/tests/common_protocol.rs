use bc_harness::decimal::{push_i64, push_u64};
use bc_harness::hexcodec::{error_text, HexError};
use bc_harness::poly::{coeffs_from_le_bytes, coeffs_to_le_bytes};
use bc_harness::protocol::{err, get_bytes, get_param, ok, unsupported, Request};
use bc_harness::text::{joined, with_count, with_integer};

fn request(function: &str, inputs: &[(&str, &str)], params: &[(&str, i64)]) -> Request {
    Request {
        function: function.to_string(),
        inputs: inputs.iter().map(|(k, v)| (k.to_string(), v.to_string())).collect(),
        params: params.iter().map(|(k, v)| (k.to_string(), *v)).collect(),
    }
}

#[test]
fn get_param_reads_value() {
    let r = request("x", &[], &[("d", 7), ("eta", -3)]);
    assert_eq!(get_param(&r, "d"), Ok(7));
    assert_eq!(get_param(&r, "eta"), Ok(-3));
}

#[test]
fn get_param_missing_message() {
    let r = request("x", &[], &[("d", 7)]);
    assert_eq!(get_param(&r, "param_set"), Err("missing param 'param_set'".to_string()));
}

#[test]
fn get_bytes_decodes_both_cases() {
    let r = request("x", &[("seed", "00ff10Ab")], &[]);
    assert_eq!(get_bytes(&r, "seed"), Ok(vec![0x00, 0xff, 0x10, 0xab]));
}

#[test]
fn get_bytes_empty_text_is_empty_bytes() {
    let r = request("x", &[("m", "")], &[]);
    assert_eq!(get_bytes(&r, "m"), Ok(vec![]));
}

#[test]
fn get_bytes_missing_message() {
    let r = request("x", &[("seed", "00")], &[]);
    assert_eq!(get_bytes(&r, "sk"), Err("missing 'sk'".to_string()));
}

#[test]
fn get_bytes_odd_length_message() {
    let r = request("x", &[("seed", "abc")], &[]);
    assert_eq!(get_bytes(&r, "seed"), Err("bad hex 'seed': Odd number of digits".to_string()));
}

#[test]
fn get_bytes_bad_character_message() {
    let r = request("x", &[("seed", "0g")], &[]);
    assert_eq!(
        get_bytes(&r, "seed"),
        Err("bad hex 'seed': Invalid character 'g' at position 1".to_string())
    );
}

#[test]
fn get_bytes_finds_the_named_entry() {
    let r = request("x", &[("a", "01"), ("k", "02"), ("z", "03")], &[("p", 1), ("k", 2)]);
    assert_eq!(get_bytes(&r, "k"), Ok(vec![2]));
    assert_eq!(get_param(&r, "k"), Ok(2));
}

#[test]
fn error_texts_of_length_errors() {
    assert_eq!(error_text(&HexError::OddLength), "Odd number of digits");
    assert_eq!(error_text(&HexError::InvalidStringLength), "Invalid string length");
    assert_eq!(
        error_text(&HexError::InvalidHexCharacter { c: '\n', index: 5 }),
        "Invalid character '\\n' at position 5"
    );
}

#[test]
fn ok_err_unsupported_responses() {
    let r = ok(vec![("a".to_string(), "01".to_string())]);
    assert_eq!(r.outputs, Some(vec![("a".to_string(), "01".to_string())]));
    assert_eq!(r.error, None);
    assert!(!r.unsupported);
    let e = err("boom".to_string());
    assert_eq!(e.outputs, None);
    assert_eq!(e.error, Some("boom".to_string()));
    assert!(!e.unsupported);
    let u = unsupported();
    assert_eq!(u.outputs, None);
    assert_eq!(u.error, None);
    assert!(u.unsupported);
}

#[test]
fn decimal_numerals() {
    let mut s = String::from("n=");
    push_u64(&mut s, 0);
    assert_eq!(s, "n=0");
    let mut s = String::new();
    push_u64(&mut s, u64::MAX);
    assert_eq!(s, u64::MAX.to_string());
    let mut s = String::new();
    push_i64(&mut s, i64::MIN);
    assert_eq!(s, i64::MIN.to_string());
    let mut s = String::new();
    push_i64(&mut s, -42);
    assert_eq!(s, "-42");
    assert_eq!(with_count("got ", 1312), "got 1312");
    assert_eq!(with_integer("p: ", -1), "p: -1");
    assert_eq!(joined("a: ", "b"), "a: b");
}

#[test]
fn polynomial_wire_form() {
    let mut bytes = vec![0u8; 512];
    bytes[0] = 0x01;
    bytes[1] = 0x0d; // 0x0d01 = 3329
    bytes[2] = 0xff;
    bytes[3] = 0xff; // -1
    bytes[4] = 0x00;
    bytes[5] = 0x80; // -32768
    let coeffs = coeffs_from_le_bytes(&bytes);
    assert_eq!(coeffs.len(), 256);
    assert_eq!(coeffs[0], 3329);
    assert_eq!(coeffs[1], -1);
    assert_eq!(coeffs[2], i16::MIN);
    assert_eq!(coeffs[3], 0);
    assert_eq!(coeffs_to_le_bytes(&coeffs), bytes);
}

#[test]
fn polynomial_wire_form_ignores_extra_bytes() {
    let mut bytes = vec![7u8; 514];
    bytes[512] = 1;
    let coeffs = coeffs_from_le_bytes(&bytes);
    assert_eq!(coeffs.len(), 256);
    assert_eq!(coeffs[255], 0x0707);
    assert_eq!(coeffs_to_le_bytes(&coeffs), bytes[..512].to_vec());
}

#[test]
fn polynomial_wire_form_matches_std() {
    let coeffs: Vec<i16> = (0..256).map(|i| (i as i16) * 251 - 30000).collect();
    let bytes = coeffs_to_le_bytes(&coeffs);
    let expected: Vec<u8> = coeffs.iter().flat_map(|w| w.to_le_bytes()).collect();
    assert_eq!(bytes, expected);
    assert_eq!(coeffs_from_le_bytes(&bytes), coeffs);
}

#[test]
fn hex_answer_reads_back_as_input() {
    // An answer's hexadecimal text, handed back as an input, gives the same bytes.
    let bytes: Vec<u8> = (0..=255).collect();
    let r = ok(vec![("x".to_string(), hex::encode(&bytes))]);
    let text = r.outputs.unwrap()[0].1.clone();
    let back = request("y", &[("x", &text)], &[]);
    assert_eq!(get_bytes(&back, "x"), Ok(bytes));
}

#[test]
fn bad_character_message_gives_decimal_position() {
    let text = format!("{}x1", "00".repeat(6));
    let r = request("x", &[("sk", &text)], &[]);
    assert_eq!(
        get_bytes(&r, "sk"),
        Err("bad hex 'sk': Invalid character 'x' at position 12".to_string())
    );
}

use rustlens::convert::{DecoderWindow, Yaml2JsonWindow};
use rustlens::jwt::JwtDecoderWindow;
use rustlens::tools::{calculate_input, CidrError, IpCalculatorWindow, UUIDGenWindow};

const HEADER_B64: &str = "eyJhbGciOiJIUzI1NiIsInR5cCI6IkpXVCJ9";
const PAYLOAD_B64: &str = "eyJuYW1lIjoieCIsInN1YiI6IjEifQ";
const SIGNATURE: &str = "xYy5GASu8h_U-pFuugz2rB6Aop6czfYAYb9f_M5efO0";

#[test]
fn jwt_default_is_empty() {
    let w = JwtDecoderWindow::default();
    assert!(!w.show);
    assert!(w.token.is_empty() && w.header.is_empty() && w.payload.is_empty());
    assert!(w.signature.is_empty() && w.secret.is_empty());
    assert!(w.header_err.is_none() && w.payload_err.is_none());
    assert!(!w.updating_from_token && !w.updating_from_fields);
}

#[test]
fn jwt_encode_signs_compact_json() {
    let mut w = JwtDecoderWindow::default();
    w.header = " { \"typ\": \"JWT\", \"alg\": \"HS256\" } ".to_string();
    w.payload = "{\"sub\":\"1\",\"name\":\"x\"}".to_string();
    w.secret = "secret".to_string();
    w.encode_parts();
    assert_eq!(w.signature, SIGNATURE);
    assert_eq!(w.token, format!("{}.{}.{}", HEADER_B64, PAYLOAD_B64, SIGNATURE));
    assert!(!w.updating_from_fields);
}

#[test]
fn jwt_encode_without_secret_has_two_parts() {
    let mut w = JwtDecoderWindow::default();
    w.header = "{\"alg\":\"HS256\",\"typ\":\"JWT\"}".to_string();
    w.payload = "{\"name\":\"x\",\"sub\":\"1\"}".to_string();
    w.encode_parts();
    assert_eq!(w.signature, "");
    assert_eq!(w.token, format!("{}.{}", HEADER_B64, PAYLOAD_B64));
}

#[test]
fn jwt_encode_keeps_text_that_is_not_json() {
    let mut w = JwtDecoderWindow::default();
    w.header = "  hi  ".to_string();
    w.payload = "".to_string();
    w.encode_parts();
    assert_eq!(w.token, "aGk.");
}

#[test]
fn jwt_decode_token_into_fields() {
    let mut w = JwtDecoderWindow::default();
    w.token = format!(" {}.{}.{} ", HEADER_B64, PAYLOAD_B64, SIGNATURE);
    w.decode_parts();
    assert_eq!(w.header, "{\n  \"alg\": \"HS256\",\n  \"typ\": \"JWT\"\n}");
    assert_eq!(w.payload, "{\n  \"name\": \"x\",\n  \"sub\": \"1\"\n}");
    assert_eq!(w.signature, SIGNATURE);
    assert!(w.header_err.is_none() && w.payload_err.is_none());
    assert!(!w.updating_from_token);
}

#[test]
fn jwt_written_token_reads_back() {
    let mut w = JwtDecoderWindow::default();
    w.header = "{\"alg\":\"HS256\"}".to_string();
    w.payload = "{\"a\":[1,2]}".to_string();
    w.secret = "k".to_string();
    w.encode_parts();
    let sig = w.signature.clone();
    w.decode_parts();
    assert_eq!(w.header, "{\n  \"alg\": \"HS256\"\n}");
    assert_eq!(w.payload, "{\n  \"a\": [\n    1,\n    2\n  ]\n}");
    assert_eq!(w.signature, sig);
}

#[test]
fn jwt_decode_reports_too_few_parts() {
    let mut w = JwtDecoderWindow::default();
    w.header = "kept".to_string();
    w.token = "abc".to_string();
    w.decode_parts();
    assert_eq!(w.header, "kept");
    assert_eq!(w.header_err.as_deref(), Some("Invalid token: expected at least 2 parts"));
    assert_eq!(w.payload_err.as_deref(), Some("Invalid token: expected at least 2 parts"));
}

#[test]
fn jwt_decode_reports_each_part() {
    let mut w = JwtDecoderWindow::default();
    w.token = "%%%.e30".to_string();
    w.decode_parts();
    assert_eq!(w.header, "");
    assert!(w.header_err.as_deref().unwrap().starts_with("Base64url decode error: "));
    assert_eq!(w.payload, "{}");
    assert!(w.payload_err.is_none());
    assert_eq!(w.signature, "");
}

#[test]
fn jwt_decode_empty_part_and_plain_text() {
    let mut w = JwtDecoderWindow::default();
    w.token = ".aGk".to_string();
    w.decode_parts();
    assert_eq!(w.header_err.as_deref(), Some("Empty part"));
    assert_eq!(w.payload, "hi");
    assert_eq!(w.payload_err.as_deref(), Some("Decoded but not valid JSON"));
}

#[test]
fn jwt_decode_not_utf8() {
    let mut w = JwtDecoderWindow::default();
    w.token = "_w.e30".to_string();
    w.decode_parts();
    assert_eq!(w.header_err.as_deref(), Some("Decoded bytes are not valid UTF-8"));
}

#[test]
fn jwt_decode_blank_token_clears_fields() {
    let mut w = JwtDecoderWindow::default();
    w.header = "h".to_string();
    w.payload = "p".to_string();
    w.signature = "s".to_string();
    w.token = "  \n ".to_string();
    w.decode_parts();
    assert_eq!((w.header.as_str(), w.payload.as_str(), w.signature.as_str()), ("", "", ""));
}

#[test]
fn jwt_updating_flags_block_the_other_direction() {
    let mut w = JwtDecoderWindow::default();
    w.updating_from_fields = true;
    w.token = "abc".to_string();
    w.decode_parts();
    assert!(w.header_err.is_none());
    let mut v = JwtDecoderWindow::default();
    v.updating_from_token = true;
    v.header = "{}".to_string();
    v.encode_parts();
    assert_eq!(v.token, "");
}

#[test]
fn decoder_encodes_and_decodes() {
    let mut d = DecoderWindow::new();
    assert!(!d.show && d.plain_text_content.is_empty() && d.encrypted_content.is_empty());
    d.plain_text_content = "héllo wörld".to_string();
    d.plain_text_changed();
    assert_eq!(d.encrypted_content, "aMOpbGxvIHfDtnJsZA==");
    d.plain_text_content.clear();
    d.encoded_text_changed();
    assert_eq!(d.plain_text_content, "héllo wörld");
}

#[test]
fn decoder_reports_bad_input() {
    let mut d = DecoderWindow::new();
    d.encrypted_content = "!!!".to_string();
    d.encoded_text_changed();
    assert_eq!(d.plain_text_content, "Invalid input...");
    d.encrypted_content = "/w==".to_string();
    d.encoded_text_changed();
    assert_eq!(d.plain_text_content, "Wrong input...");
}

#[test]
fn yaml_to_json_and_back() {
    let mut w = Yaml2JsonWindow::new();
    assert!(!w.show);
    w.yaml_content = "a: 1\nb: [x, y]\n".to_string();
    w.yaml_changed();
    assert_eq!(w.json_content, "{\n  \"a\": 1,\n  \"b\": [\n    \"x\",\n    \"y\"\n  ]\n}");
    w.json_content = "{\"k\": \"v\"}".to_string();
    w.json_changed();
    assert_eq!(w.yaml_content, "k: v\n");
}

#[test]
fn yaml_to_json_keeps_panes_on_bad_input() {
    let mut w = Yaml2JsonWindow::new();
    w.json_content = "old".to_string();
    w.yaml_content = "a: [1, 2".to_string();
    w.yaml_changed();
    assert_eq!(w.json_content, "old");
    w.yaml_content = "keep".to_string();
    w.json_content = "{not json".to_string();
    w.json_changed();
    assert_eq!(w.yaml_content, "keep");
}

fn is_uuid_v4(s: &str) -> bool {
    let b: Vec<char> = s.chars().collect();
    b.len() == 36
        && b.iter().enumerate().all(|(i, c)| {
            if i == 8 || i == 13 || i == 18 || i == 23 {
                *c == '-'
            } else {
                c.is_ascii_digit() || ('a'..='f').contains(c)
            }
        })
        && b[14] == '4'
        && "89ab".contains(b[19])
}

#[test]
fn uuid_window_generates_v4() {
    let mut w = UUIDGenWindow::default();
    assert!(!w.show);
    assert!(is_uuid_v4(&w.uuid));
    let first = w.uuid.clone();
    w.generate();
    assert!(is_uuid_v4(&w.uuid));
    assert_ne!(first, w.uuid);
}

#[test]
fn ip_calculator_default_block() {
    let w = IpCalculatorWindow::new();
    assert!(!w.show);
    assert_eq!(w.input_cidr, "10.10.10.10/27");
    assert_eq!(w.status_lines(), vec!["Range:  10.10.10.0 - 10.10.10.31".to_string(), "Hosts count:  32".to_string()]);
}

#[test]
fn ip_calculator_input_changes() {
    let mut w = IpCalculatorWindow::new();
    w.input_cidr = " 192.168.1.0/24 ".to_string();
    w.input_changed();
    assert_eq!(w.status_lines(), vec!["Range:  192.168.1.0 - 192.168.1.255".to_string(), "Hosts count:  256".to_string()]);
    w.input_cidr = "abc".to_string();
    w.input_changed();
    assert_eq!(w.status_lines(), vec!["Error: invalid address: abc".to_string()]);
    w.input_cidr = "this text is far too long to be a network address at all".to_string();
    w.input_changed();
    assert_eq!(w.status_lines(), vec!["Error in input".to_string()]);
}

#[test]
fn calculate_input_results() {
    let c = calculate_input("10.0.0.1/30").ok().unwrap();
    assert_eq!((c.first_addr.as_str(), c.last_addr.as_str(), c.host_count.as_str()), ("10.0.0.0", "10.0.0.3", "4"));
    match calculate_input("10.0.0.1/33") {
        Err(CidrError::InvalidAddr(s)) => assert_eq!(s, "10.0.0.1/33"),
        Ok(_) => panic!("accepted an invalid prefix"),
    }
    let e = CidrError::InvalidAddr("x".to_string());
    assert_eq!(e.message(), "invalid address: x");
}

#[test]
fn jwt_signature_is_a_full_hmac_tag() {
    let mut w = JwtDecoderWindow::default();
    w.header = " {\"alg\": \"HS256\", \"typ\": \"JWT\"} ".to_string();
    w.payload = "{}".to_string();
    w.secret = "s".to_string();
    w.encode_parts();
    assert_eq!(w.signature.len(), 43);
    assert_eq!(w.token.split('.').count(), 3);
    assert!(w.token.ends_with(&w.signature));
    w.decode_parts();
    assert_eq!(w.header, "{\n  \"alg\": \"HS256\",\n  \"typ\": \"JWT\"\n}");
    assert_eq!(w.payload, "{}");
    assert!(w.header_err.is_none() && w.payload_err.is_none());
}

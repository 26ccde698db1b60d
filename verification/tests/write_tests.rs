use matc_ui::write::{encode_write_value, int_encoding, IntEncoding, JsonScalar};

fn num(v: i64) -> JsonScalar {
    JsonScalar { as_i64: Some(v), as_u64: if v >= 0 { Some(v as u64) } else { None }, as_str: None }
}

fn text(s: &str) -> JsonScalar {
    JsonScalar { as_i64: None, as_u64: None, as_str: Some(s.to_string()) }
}

#[test]
fn narrowest_encodings() {
    assert_eq!(int_encoding(0), Some(IntEncoding::U8(0)));
    assert_eq!(int_encoding(255), Some(IntEncoding::U8(255)));
    assert_eq!(int_encoding(256), Some(IntEncoding::U16(256)));
    assert_eq!(int_encoding(70000), Some(IntEncoding::U32(70000)));
    assert_eq!(int_encoding(u64::MAX as i128), Some(IntEncoding::U64(u64::MAX)));
    assert_eq!(int_encoding(u64::MAX as i128 + 1), None);
    assert_eq!(int_encoding(-1), Some(IntEncoding::I8(-1)));
    assert_eq!(int_encoding(-129), Some(IntEncoding::I16(-129)));
    assert_eq!(int_encoding(-40000), Some(IntEncoding::I32(-40000)));
    assert_eq!(int_encoding(i64::MIN as i128), Some(IntEncoding::I64(i64::MIN)));
    assert_eq!(int_encoding(i64::MIN as i128 - 1), None);
}

#[test]
fn integer_payloads() {
    assert_eq!(encode_write_value("integer", &num(5)), Ok(vec![0x24, 2, 5]));
    assert_eq!(encode_write_value("integer", &num(300)), Ok(vec![0x25, 2, 0x2c, 0x01]));
    assert_eq!(encode_write_value("integer", &num(-1)), Ok(vec![0x20, 2, 0xff]));
    assert_eq!(encode_write_value("integer", &num(-200)), Ok(vec![0x21, 2, 0x38, 0xff]));
    assert_eq!(encode_write_value("integer", &text("70000")), Ok(vec![0x26, 2, 0x70, 0x11, 0x01, 0x00]));
    let big = JsonScalar { as_i64: None, as_u64: Some(u64::MAX), as_str: None };
    assert_eq!(encode_write_value("integer", &big), Ok(vec![0x27, 2, 255, 255, 255, 255, 255, 255, 255, 255]));
    assert_eq!(
        encode_write_value("integer", &num(i64::MIN)),
        Ok(vec![0x23, 2, 0, 0, 0, 0, 0, 0, 0, 0x80])
    );
}

#[test]
fn payloads_match_the_tlv_writer() {
    let mut b = matc::tlv::TlvBuffer::new();
    b.write_int32(2, -70000).unwrap();
    assert_eq!(encode_write_value("integer", &num(-70000)), Ok(b.data));
    let mut b = matc::tlv::TlvBuffer::new();
    b.write_string(2, "héllo").unwrap();
    assert_eq!(encode_write_value("string", &text("héllo")), Ok(b.data));
}

#[test]
fn string_payloads() {
    assert_eq!(encode_write_value("string", &text("hi")), Ok(vec![0x2C, 2, 2, b'h', b'i']));
    assert_eq!(encode_write_value("string", &text("")), Ok(vec![0x2C, 2, 0]));
}

#[test]
fn write_errors() {
    assert_eq!(encode_write_value("string", &num(3)), Err("expected string value".to_string()));
    assert_eq!(encode_write_value("integer", &text("1e3")), Err("invalid integer string".to_string()));
    assert_eq!(encode_write_value("integer", &text(" 5")), Err("invalid integer string".to_string()));
    let nothing = JsonScalar { as_i64: None, as_u64: None, as_str: None };
    assert_eq!(encode_write_value("integer", &nothing), Err("expected integer value".to_string()));
    assert_eq!(
        encode_write_value("integer", &text("99999999999999999999")),
        Err("integer value out of range".to_string())
    );
    assert_eq!(
        encode_write_value("integer", &text("-99999999999999999999")),
        Err("integer value out of range".to_string())
    );
    assert_eq!(encode_write_value("float", &num(1)), Err("unsupported value_type: float".to_string()));
    assert_eq!(encode_write_value("String", &text("a")), Err("unsupported value_type: String".to_string()));
    assert_eq!(encode_write_value("integer", &text("+42")), Ok(vec![0x24, 2, 42]));
}

use matc_ui::invoke::{format_invoke_result, log_result, parse_invoke_statuses, payload_bytes, InvokeResultDto};
use matc_ui::logging::Level;
use matc_ui::tlv::{TlvItem, TlvValue};

fn item(tag: u8, value: TlvValue) -> TlvItem {
    TlvItem { tag, value }
}

fn response(common: Option<u64>, cluster: Option<u64>) -> TlvItem {
    let mut status = vec![];
    if let Some(c) = common {
        status.push(item(0, TlvValue::Int(c)));
    }
    if let Some(c) = cluster {
        status.push(item(1, TlvValue::Int(c)));
    }
    item(
        0,
        TlvValue::List(vec![item(
            1,
            TlvValue::List(vec![item(
                0,
                TlvValue::List(vec![item(1, TlvValue::List(vec![item(1, TlvValue::List(status))]))]),
            )]),
        )]),
    )
}

#[test]
fn status_responses_are_recognised() {
    match format_invoke_result(&response(Some(0x87), None)) {
        InvokeResultDto::Status { code } => assert_eq!(code, 0x87),
        other => panic!("{:?}", other),
    }
    match format_invoke_result(&response(Some(0x1_0005), None)) {
        InvokeResultDto::Status { code } => assert_eq!(code, 5),
        other => panic!("{:?}", other),
    }
    match format_invoke_result(&item(5, TlvValue::Int(3))) {
        InvokeResultDto::Data { tlv } => {
            let raw = matc::tlv::TlvItem { tag: 5, value: matc::tlv::TlvItemValue::Int(3) };
            assert_eq!(tlv, format!("{:#?}", raw));
            assert!(tlv.contains("tag: 5"));
        }
        other => panic!("{:?}", other),
    }
}

#[test]
fn invoke_statuses() {
    assert_eq!(parse_invoke_statuses(&response(Some(0), None)), Ok((0, 0)));
    assert_eq!(parse_invoke_statuses(&response(Some(1), Some(0x85))), Ok((1, 0x85)));
    assert_eq!(
        parse_invoke_statuses(&response(Some(1), None)),
        Err("parse_im_invoke_resp: unexpected response".to_string())
    );
    assert_eq!(
        parse_invoke_statuses(&response(None, Some(1))),
        Err("parse_im_invoke_resp: status not found".to_string())
    );
}

#[test]
fn result_log_lines() {
    let (l, t) = log_result("invoke", 5, &InvokeResultDto::Status { code: 0 });
    assert_eq!(l, Level::Info);
    assert_eq!(t, "invoke: node=5 -> status=0x0000 SUCCESS");
    let (l, t) = log_result("invoke_typed", 12, &InvokeResultDto::Status { code: 0x87 });
    assert_eq!(l, Level::Warn);
    assert_eq!(t, "invoke_typed: node=12 -> status=0x0087 FAILURE");
    let (l, t) = log_result("invoke", 1, &InvokeResultDto::Data { tlv: "x".to_string() });
    assert_eq!(l, Level::Info);
    assert_eq!(t, "invoke: node=1 -> data response");
}

#[test]
fn hex_payloads() {
    assert_eq!(payload_bytes(""), Ok(vec![]));
    assert_eq!(payload_bytes(" 0aFF \n"), Ok(vec![0x0a, 0xff]));
    assert_eq!(payload_bytes("   "), Ok(vec![]));
    assert_eq!(payload_bytes("abc"), Err("hex decode: Odd number of digits".to_string()));
    let e = payload_bytes("zz").unwrap_err();
    assert!(e.starts_with("hex decode: Invalid character"));
}

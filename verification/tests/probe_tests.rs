use matc_ui::devices::DeviceInfoDto;
use matc_ui::probe::{probe_start, probe_step, read_string, ProbeAction, ProbeEvent, ProbePhase};
use matc_ui::state::AppState;
use matc_ui::tlv::TlvValue;

fn found() -> ProbeEvent {
    ProbeEvent::DeviceFound { name: "lamp".to_string(), address: "10.0.0.9:5540".to_string() }
}

fn outcome(a: ProbeAction) -> (Result<DeviceInfoDto, String>, bool) {
    match a {
        ProbeAction::Finish { outcome, drop_connection } => (outcome, drop_connection),
        other => panic!("not finished: {:?}", other),
    }
}

fn details() -> ProbeEvent {
    ProbeEvent::DetailsRead {
        product_name: "Bulb".to_string(),
        hw_version: "1.0".to_string(),
        sw_version: "2.1".to_string(),
        has_aggregator: true,
    }
}

#[test]
fn string_reads() {
    assert_eq!(read_string(Some(TlvValue::String("Acme".to_string()))), "Acme");
    assert_eq!(read_string(Some(TlvValue::Int(7))), "Int(7)");
    assert_eq!(read_string(Some(TlvValue::Bool(true))), "Bool(true)");
    assert_eq!(read_string(Some(TlvValue::OctetString(vec![0xAB, 0x01]))), "OctetString(\"ab01\")");
    assert_eq!(read_string(None), "");
}

#[test]
fn full_probe_reads_and_caches_details() {
    let mut st = AppState::new();
    let (p, a) = probe_start();
    assert!(matches!(a, ProbeAction::LookUpDevice));
    let (p, a) = probe_step(&mut st, 4, false, p, found());
    assert!(matches!(a, ProbeAction::Connect));
    let (p, a) = probe_step(&mut st, 4, false, p, ProbeEvent::Connected);
    assert!(matches!(a, ProbeAction::ReadVendorName));
    let vendor = TlvValue::String("Acme".to_string());
    let (p, a) = probe_step(&mut st, 4, false, p, ProbeEvent::VendorRead { value: vendor });
    assert!(matches!(a, ProbeAction::Connect));
    let (p, a) = probe_step(&mut st, 4, false, p, ProbeEvent::Connected);
    assert!(matches!(a, ProbeAction::ReadDetails));
    let (p, a) = probe_step(&mut st, 4, false, p, details());
    assert!(matches!(p, ProbePhase::Done));
    let (r, drop) = outcome(a);
    let info = r.unwrap();
    assert!(!drop);
    assert_eq!(info.vendor_name, "Acme");
    assert_eq!(info.product_name, "Bulb");
    assert!(info.has_aggregator);
    assert_eq!(st.cache_get_info(4).unwrap().sw_version, "2.1");
}

#[test]
fn cached_details_get_fresh_identity() {
    let mut st = AppState::new();
    st.cache_set_info(
        4,
        DeviceInfoDto {
            node_id: 4,
            name: "old".to_string(),
            address: "old".to_string(),
            vendor_name: "Acme".to_string(),
            product_name: "Bulb".to_string(),
            hw_version: "1".to_string(),
            sw_version: "2".to_string(),
            has_aggregator: false,
        },
    );
    let (p, _) = probe_start();
    let (p, _) = probe_step(&mut st, 4, false, p, found());
    let (_, a) = probe_step(&mut st, 4, false, p, ProbeEvent::Connected);
    let info = outcome(a).0.unwrap();
    assert_eq!(info.name, "lamp");
    assert_eq!(info.address, "10.0.0.9:5540");
    assert_eq!(info.vendor_name, "Acme");
    let (p, _) = probe_start();
    let (p, _) = probe_step(&mut st, 4, true, p, found());
    let (_, a) = probe_step(&mut st, 4, true, p, ProbeEvent::Connected);
    assert!(matches!(a, ProbeAction::ReadVendorName));
}

#[test]
fn probe_failures() {
    let mut st = AppState::new();
    let (p, _) = probe_start();
    let (_, a) = probe_step(&mut st, 42, false, p, ProbeEvent::DeviceMissing);
    assert_eq!(outcome(a).0.unwrap_err(), "device 42 not found");
    let (p, _) = probe_start();
    let (_, a) = probe_step(&mut st, 42, false, p, ProbeEvent::LookupFailed { message: "io".to_string() });
    assert_eq!(outcome(a).0.unwrap_err(), "io");
    let (p, _) = probe_start();
    let (p, _) = probe_step(&mut st, 42, false, p, found());
    let (_, a) = probe_step(&mut st, 42, false, p, ProbeEvent::ConnectFailed { message: "no route".to_string() });
    assert_eq!(outcome(a).0.unwrap_err(), "no route");
    let (p, _) = probe_start();
    let (p, _) = probe_step(&mut st, 42, false, p, found());
    let (p, _) = probe_step(&mut st, 42, false, p, ProbeEvent::Connected);
    let (_, a) = probe_step(&mut st, 42, false, p, ProbeEvent::VendorTimedOut);
    let (r, drop) = outcome(a);
    assert_eq!(r.unwrap_err(), "read timed out");
    assert!(drop);
    assert!(st.cache_get_info(42).is_none());
}

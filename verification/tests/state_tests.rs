use matc_ui::devices::DeviceInfoDto;
use matc_ui::state::{AppState, DeviceStatus};
use matc_ui::tree::EndpointTree;

fn info(node_id: u64, vendor: &str) -> DeviceInfoDto {
    DeviceInfoDto {
        node_id,
        name: "lamp".to_string(),
        address: "10.0.0.2:5540".to_string(),
        vendor_name: vendor.to_string(),
        product_name: "P".to_string(),
        hw_version: "1".to_string(),
        sw_version: "2".to_string(),
        has_aggregator: false,
    }
}

#[test]
fn set_status_reports_changes_only() {
    let mut s = AppState::new();
    assert!(!s.set_status(1, DeviceStatus::Unknown, None));
    assert!(s.set_status(1, DeviceStatus::Connected, None));
    assert!(!s.set_status(1, DeviceStatus::Connected, None));
    assert!(s.set_status(1, DeviceStatus::Failed, Some("boom".to_string())));
    assert!(!s.set_status(1, DeviceStatus::Failed, Some("boom".to_string())));
    assert!(s.set_status(1, DeviceStatus::Failed, Some("other".to_string())));
    assert_eq!(s.status_of(1), (DeviceStatus::Failed, Some("other".to_string())));
    assert_eq!(s.status_of(2), (DeviceStatus::Unknown, None));
}

#[test]
fn removed_status_reads_unknown() {
    let mut s = AppState::new();
    s.set_status(3, DeviceStatus::Connected, None);
    s.remove_status(3);
    assert_eq!(s.status_of(3), (DeviceStatus::Unknown, None));
}

#[test]
fn sweep_probes_unknown_and_failed() {
    let mut s = AppState::new();
    s.set_status(2, DeviceStatus::Connected, None);
    s.set_status(3, DeviceStatus::Failed, Some("x".to_string()));
    s.set_status(4, DeviceStatus::Checking, None);
    s.set_status(5, DeviceStatus::Unknown, None);
    assert_eq!(s.needs_probe(&vec![1, 2, 3, 4, 5]), vec![1, 3, 5]);
    assert!(s.needs_probe(&vec![]).is_empty());
}

#[test]
fn statuses_carry_details_of_connected_devices() {
    let mut s = AppState::new();
    s.set_status(1, DeviceStatus::Connected, None);
    s.cache_set_info(1, info(1, "Acme"));
    s.cache_set_info(2, info(2, "Other"));
    s.set_status(2, DeviceStatus::Failed, Some("gone".to_string()));
    let r = s.device_statuses(&vec![1, 2, 9]);
    assert_eq!(r.len(), 3);
    assert_eq!(r[0].status, DeviceStatus::Connected);
    assert_eq!(r[0].info.as_ref().unwrap().vendor_name, "Acme");
    assert_eq!(r[1].status, DeviceStatus::Failed);
    assert_eq!(r[1].error.as_deref(), Some("gone"));
    assert!(r[1].info.is_none());
    assert_eq!(r[2].node_id, 9);
    assert_eq!(r[2].status, DeviceStatus::Unknown);
}

#[test]
fn mark_failed_announces_once_and_forgets_details() {
    let mut s = AppState::new();
    s.set_status(7, DeviceStatus::Connected, None);
    s.cache_set_info(7, info(7, "Acme"));
    s.cache_set_structure(7, EndpointTree { endpoints: vec![] });
    let d = s.mark_failed_and_emit(7, "session defunct: x".to_string()).unwrap();
    assert_eq!(d.status, DeviceStatus::Failed);
    assert_eq!(d.error.as_deref(), Some("session defunct: x"));
    assert!(s.cache_get_info(7).is_none());
    assert!(s.cache_get_structure(7).is_some());
    assert!(s.mark_failed_and_emit(7, "session defunct: x".to_string()).is_none());
    let c = s.mark_connected_and_emit(7).unwrap();
    assert_eq!(c.status, DeviceStatus::Connected);
    assert!(s.mark_connected_and_emit(7).is_none());
}

#[test]
fn cache_reads_back_and_drops() {
    let mut s = AppState::new();
    assert!(s.cache_get_info(1).is_none());
    s.cache_set_info(1, info(1, "A"));
    s.cache_set_device_tree(1, EndpointTree { endpoints: vec![] });
    s.cache_set_attributes(1, EndpointTree { endpoints: vec![] });
    assert_eq!(s.cache_get_info(1).unwrap().vendor_name, "A");
    s.cache_set_info(1, info(1, "B"));
    assert_eq!(s.cache_get_info(1).unwrap().vendor_name, "B");
    assert!(s.cache_get_device_tree(1).is_some());
    assert!(s.cache_get_attributes(1).is_some());
    assert!(s.cache_get_structure(1).is_none());
    assert!(s.cache_get_info(2).is_none());
    s.drop_cache(1);
    assert!(s.cache_get_info(1).is_none());
    assert!(s.cache_get_device_tree(1).is_none());
}

#[test]
fn probe_status_transitions() {
    let mut s = AppState::new();
    let d = s.probe_started(4).unwrap();
    assert_eq!(d.status, DeviceStatus::Checking);
    assert!(s.probe_started(4).is_none());
    let ok = s.probe_finished(4, &Ok(info(4, "V")));
    assert_eq!(ok.status, DeviceStatus::Connected);
    assert_eq!(ok.info.unwrap().vendor_name, "V");
    let err = s.probe_finished(4, &Err("read timed out".to_string()));
    assert_eq!(err.status, DeviceStatus::Failed);
    assert_eq!(s.status_of(4), (DeviceStatus::Failed, Some("read timed out".to_string())));
}

#[test]
fn forgetting_a_device() {
    let mut s = AppState::new();
    s.set_status(8, DeviceStatus::Connected, None);
    s.cache_set_info(8, info(8, "A"));
    let d = s.forget_device(8);
    assert_eq!(d.status, DeviceStatus::Removed);
    assert_eq!(s.status_of(8), (DeviceStatus::Unknown, None));
    assert!(s.cache_get_info(8).is_none());
}

#[test]
fn failed_device_is_swept_and_read_again() {
    let mut s = AppState::new();
    s.set_status(3, DeviceStatus::Connected, None);
    s.set_status(4, DeviceStatus::Connected, None);
    s.cache_set_info(3, info(3, "Acme"));
    assert_eq!(s.needs_probe(&vec![3, 4]), Vec::<u64>::new());
    s.mark_failed_and_emit(3, "session defunct: timeout".to_string());
    assert_eq!(s.needs_probe(&vec![3, 4]), vec![3]);
    assert!(s.cache_get_info(3).is_none());
}

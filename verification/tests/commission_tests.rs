use matc_ui::commission::{commissioning_window_payload, commissioning_window_result};
use matc_ui::discovery::{discovered_port, scan_timeout_secs};

#[test]
fn window_payload_matches_the_codec() {
    let salt: Vec<u8> = (0u8..32).collect();
    let payload = commissioning_window_payload(20202021, 3840, 1000, 180, &salt).unwrap();
    let key = matc::controller::pin_to_passcode(20202021).unwrap();
    let verifier = matc::spake2p::Engine::create_passcode_verifier(&key, &salt, 1000);
    let expected = matc::clusters::codec::admin_commissioning_cluster::encode_open_commissioning_window(
        180,
        verifier.clone(),
        3840,
        1000,
        salt.clone(),
    )
    .unwrap();
    assert_eq!(payload, expected);
    assert_eq!(&payload[..4], &[0x25, 0, 180, 0]);
    assert_eq!(&payload[4..7], &[0x30, 1, verifier.len() as u8]);
    assert!(payload.ends_with(&salt));
}

#[test]
fn window_result_carries_the_pairing_code() {
    let r = commissioning_window_result(0, 20202021, 3840, 1000, 180);
    assert_eq!(r.manual_pairing_code.replace('-', ""), "34970112332");
    assert_eq!(r.status, 0);
    assert_eq!(r.pin, 20202021);
    assert_eq!(r.discriminator, 3840);
    assert_eq!(r.iterations, 1000);
    assert_eq!(r.timeout_secs, 180);
}

#[test]
fn scan_lengths_are_clamped() {
    assert_eq!(scan_timeout_secs(0), 2);
    assert_eq!(scan_timeout_secs(2), 2);
    assert_eq!(scan_timeout_secs(10), 10);
    assert_eq!(scan_timeout_secs(30), 30);
    assert_eq!(scan_timeout_secs(1000), 30);
}

#[test]
fn default_port() {
    assert_eq!(discovered_port(None), 5540);
    assert_eq!(discovered_port(Some(1234)), 1234);
}

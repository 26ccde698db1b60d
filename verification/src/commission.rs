use vstd::prelude::*;

use crate::write::{int_element, le_bytes, IntEncoding};

verus! {

/// The result of opening a commissioning window, as shown to the user.
#[derive(Clone, Debug)]
pub struct OpenCommissioningWindowResultDto {
    pub status: u32,
    pub manual_pairing_code: String,
    pub pin: u32,
    pub discriminator: u16,
    pub iterations: u32,
    pub timeout_secs: u16,
}

/// The PASE verifier that the SPAKE2+ engine derives from a passcode key,
/// a salt and an iteration count.
pub uninterp spec fn passcode_verifier(key: Seq<u8>, salt: Seq<u8>, iterations: u32) -> Seq<u8>;

/// The eleven-digit manual pairing code, with dashes, for a discriminator and passcode.
pub uninterp spec fn manual_pairing_code_of(discriminator: u16, passcode: u32) -> Seq<char>;

/// Calls `matc::controller::pin_to_passcode`, which writes the pin as four
/// little-endian bytes into a vector and so cannot fail.
#[verifier::external_body]
fn pin_key(pin: u32) -> (r: Result<Vec<u8>, String>)
    ensures
        r is Ok && r->Ok_0@ == le_bytes(pin as int, 4),
{
    matc::controller::pin_to_passcode(pin).map_err(|e| e.to_string())
}

/// Calls `matc::spake2p::Engine::create_passcode_verifier` (PBKDF2 and
/// P-256 arithmetic). The contract names its result.
#[verifier::external_body]
fn create_passcode_verifier(key: &Vec<u8>, salt: &Vec<u8>, iterations: u32) -> (r: Vec<u8>)
    ensures
        r@ == passcode_verifier(key@, salt@, iterations),
{
    matc::spake2p::Engine::create_passcode_verifier(key, salt, iterations)
}

/// The TLV element with context tag `tag` for an octet string: control byte
/// 0x30 and a one-byte length up to 255 bytes, else 0x31 and a two-byte
/// little-endian length (cut to 16 bits); then the bytes.
pub open spec fn octet_element(tag: u8, data: Seq<u8>) -> Seq<u8> {
    if data.len() > 0xff {
        seq![0x31u8, tag] + le_bytes((data.len() % 0x10000) as int, 2) + data
    } else {
        seq![0x30u8, tag, data.len() as u8] + data
    }
}

/// The fields of an OpenCommissioningWindow command, in order and without
/// an enclosing structure: timeout, verifier, discriminator, iterations, salt.
pub open spec fn window_payload(
    timeout_secs: u16,
    verifier: Seq<u8>,
    discriminator: u16,
    iterations: u32,
    salt: Seq<u8>,
) -> Seq<u8> {
    int_element(0, IntEncoding::U16(timeout_secs)) + octet_element(1, verifier) + int_element(
        2,
        IntEncoding::U16(discriminator),
    ) + int_element(3, IntEncoding::U32(iterations)) + octet_element(4, salt)
}

/// Calls `encode_open_commissioning_window` of the Matter library's
/// administrator-commissioning codec, which writes the five fields into a
/// vector and so cannot fail.
#[verifier::external_body]
fn encode_open_commissioning_window(
    timeout_secs: u16,
    verifier: Vec<u8>,
    discriminator: u16,
    iterations: u32,
    salt: Vec<u8>,
) -> (r: Result<Vec<u8>, String>)
    ensures
        r is Ok && r->Ok_0@ == window_payload(timeout_secs, verifier@, discriminator, iterations, salt@),
{
    matc::clusters::codec::admin_commissioning_cluster::encode_open_commissioning_window(
        timeout_secs,
        verifier,
        discriminator,
        iterations,
        salt,
    ).map_err(|e| e.to_string())
}

/// Calls `matc::onboarding::encode_manual_pairing_code` for a full
/// discriminator and a passcode, with no vendor, product or discovery data.
/// The contract names its result.
#[verifier::external_body]
fn encode_manual_pairing_code(discriminator: u16, passcode: u32) -> (r: String)
    ensures
        r@ == manual_pairing_code_of(discriminator, passcode),
{
    matc::onboarding::encode_manual_pairing_code(
        &matc::onboarding::OnboardingInfo {
            discriminator,
            passcode,
            is_short_discriminator: false,
            vendor_id: None,
            product_id: None,
            discovery_capabilities: None,
        },
    )
}

/// The payload of an OpenCommissioningWindow command for a pin, a
/// discriminator, a PBKDF2 iteration count, a timeout and a salt: the
/// verifier is derived from the pin's four little-endian bytes.
pub fn commissioning_window_payload(
    pin: u32,
    discriminator: u16,
    iterations: u32,
    timeout_secs: u16,
    salt: &Vec<u8>,
) -> (r: Result<Vec<u8>, String>)
    ensures
        r is Ok,
        r->Ok_0@ == window_payload(
            timeout_secs,
            passcode_verifier(le_bytes(pin as int, 4), salt@, iterations),
            discriminator,
            iterations,
            salt@,
        ),
{
    let key: Vec<u8> = match pin_key(pin) {
        Ok(k) => k,
        Err(e) => {
            return Err(e);
        },
    };
    let verifier: Vec<u8> = create_passcode_verifier(&key, salt, iterations);
    encode_open_commissioning_window(timeout_secs, verifier, discriminator, iterations, salt.clone())
}

/// The answer to the user once the device accepted the command with `status`.
pub fn commissioning_window_result(
    status: u32,
    pin: u32,
    discriminator: u16,
    iterations: u32,
    timeout_secs: u16,
) -> (r: OpenCommissioningWindowResultDto)
    ensures
        r.status == status,
        r.manual_pairing_code@ == manual_pairing_code_of(discriminator, pin),
        r.pin == pin,
        r.discriminator == discriminator,
        r.iterations == iterations,
        r.timeout_secs == timeout_secs,
{
    OpenCommissioningWindowResultDto {
        status,
        manual_pairing_code: encode_manual_pairing_code(discriminator, pin),
        pin,
        discriminator,
        iterations,
        timeout_secs,
    }
}

} // verus!

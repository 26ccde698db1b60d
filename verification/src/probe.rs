use vstd::prelude::*;

use crate::devices::DeviceInfoDto;
use crate::state::{cache_in, AppState, DeviceCache};
use crate::text::{decimal, decimal_text};
use crate::tlv::{debug_text, value_debug_text, TlvValue};

verus! {

/// The text of a string attribute: the string itself, or the Matter
/// library's debug rendering of a value of another kind.
pub open spec fn value_text(v: TlvValue) -> Seq<char> {
    match v {
        TlvValue::String(s) => s@,
        _ => value_debug_text(v),
    }
}

/// The text of a string attribute that was read, or empty when the read failed.
pub fn read_string(read: Option<TlvValue>) -> (r: String)
    ensures
        r@ == match read {
            Some(v) => value_text(v),
            None => Seq::<char>::empty(),
        },
{
    match read {
        Some(v) => text_of_value(v),
        None => String::new(),
    }
}

fn text_of_value(v: TlvValue) -> (r: String)
    ensures
        r@ == value_text(v),
{
    match v {
        TlvValue::String(s) => s,
        other => debug_text(&other),
    }
}

/// Where a probe of a device stands.
#[derive(Debug)]
pub enum ProbePhase {
    /// Looking the device up in the registry.
    LookingUp,
    /// Establishing a session, which is also the liveness check.
    Connecting { name: String, address: String },
    /// Reading the vendor name, with a time limit and session recovery.
    ReadingVendor { name: String, address: String },
    /// Getting the session again, which recovery may have replaced.
    Reconnecting { name: String, address: String, vendor_name: String },
    /// Reading product name, versions and whether the device is a bridge.
    ReadingDetails { name: String, address: String, vendor_name: String },
    /// The probe has its outcome.
    Done,
}

/// What happened since the last action of a probe.
#[derive(Debug)]
pub enum ProbeEvent {
    DeviceFound { name: String, address: String },
    DeviceMissing,
    LookupFailed { message: String },
    Connected,
    ConnectFailed { message: String },
    VendorRead { value: TlvValue },
    VendorFailed { message: String },
    VendorTimedOut,
    DetailsRead { product_name: String, hw_version: String, sw_version: String, has_aggregator: bool },
}

/// What a probe does next.
#[derive(Debug)]
pub enum ProbeAction {
    LookUpDevice,
    Connect,
    ReadVendorName,
    ReadDetails,
    /// End the probe; when `drop_connection`, the cached session is dropped first.
    Finish { outcome: Result<DeviceInfoDto, String>, drop_connection: bool },
}

/// Whether `event` can follow the action that led to `phase`.
pub open spec fn probe_expects(phase: ProbePhase, event: ProbeEvent) -> bool {
    match phase {
        ProbePhase::LookingUp => event is DeviceFound || event is DeviceMissing || event is LookupFailed,
        ProbePhase::Connecting { .. } | ProbePhase::Reconnecting { .. } => event is Connected
            || event is ConnectFailed,
        ProbePhase::ReadingVendor { .. } => event is VendorRead || event is VendorFailed
            || event is VendorTimedOut,
        ProbePhase::ReadingDetails { .. } => event is DetailsRead,
        ProbePhase::Done => false,
    }
}

/// A measure that every probe step lowers.
pub open spec fn probe_steps_left(phase: ProbePhase) -> nat {
    match phase {
        ProbePhase::LookingUp => 5,
        ProbePhase::Connecting { .. } => 4,
        ProbePhase::ReadingVendor { .. } => 3,
        ProbePhase::Reconnecting { .. } => 2,
        ProbePhase::ReadingDetails { .. } => 1,
        ProbePhase::Done => 0,
    }
}

/// The message for a device that the registry does not know.
pub open spec fn not_found_text(node_id: u64) -> Seq<char> {
    "device "@ + decimal(node_id as nat) + " not found"@
}

/// The start of a probe: look the device up.
pub fn probe_start() -> (r: (ProbePhase, ProbeAction))
    ensures
        r.0 is LookingUp,
        r.1 is LookUpDevice,
{
    (ProbePhase::LookingUp, ProbeAction::LookUpDevice)
}

/// One decision of a probe of `node_id`. The registry gives the name and
/// address; a session is established; without `force_refresh`, cached
/// details are returned with the fresh name and address; otherwise the
/// vendor name is read (a failure or a time-out ends the probe, a time-out
/// also drops the session), the session is fetched again, the other
/// details are read, and the details are cached and returned.
pub fn probe_step(
    state: &mut AppState,
    node_id: u64,
    force_refresh: bool,
    phase: ProbePhase,
    event: ProbeEvent,
) -> (r: (ProbePhase, ProbeAction))
    requires
        probe_expects(phase, event),
    ensures
        probe_steps_left(r.0) < probe_steps_left(phase),
        r.1 is Finish <==> r.0 is Done,
        final(state).statuses() == old(state).statuses(),
        !(r.1 is Finish && r.1->outcome is Ok && (phase is ReadingDetails)) ==> final(state).cache()
            == old(state).cache(),
        match (phase, event) {
            (ProbePhase::LookingUp, ProbeEvent::DeviceFound { name, address }) => r.0 == (ProbePhase::Connecting {
                name,
                address,
            }) && r.1 is Connect,
            (ProbePhase::LookingUp, ProbeEvent::DeviceMissing) => r.1 is Finish && r.1->outcome is Err
                && r.1->outcome->Err_0@ == not_found_text(node_id) && !r.1->drop_connection,
            (ProbePhase::LookingUp, ProbeEvent::LookupFailed { message }) => r.1 == ProbeAction::Finish {
                outcome: Err(message),
                drop_connection: false,
            },
            (ProbePhase::Connecting { name, address }, ProbeEvent::Connected) => if !force_refresh
                && cache_in(old(state).cache(), node_id).info is Some {
                r.1 == ProbeAction::Finish {
                    outcome: Ok(
                        DeviceInfoDto { name, address, ..cache_in(old(state).cache(), node_id).info->0 },
                    ),
                    drop_connection: false,
                }
            } else {
                r.0 == (ProbePhase::ReadingVendor { name, address }) && r.1 is ReadVendorName
            },
            (ProbePhase::ReadingVendor { name, address }, ProbeEvent::VendorRead { value }) => {
                &&& r.0 is Reconnecting
                &&& r.0->Reconnecting_name == name
                &&& r.0->Reconnecting_address == address
                &&& r.0->Reconnecting_vendor_name@ == value_text(value)
                &&& r.1 is Connect
            },
            (ProbePhase::ReadingVendor { .. }, ProbeEvent::VendorFailed { message }) => r.1
                == ProbeAction::Finish { outcome: Err(message), drop_connection: false },
            (ProbePhase::ReadingVendor { .. }, ProbeEvent::VendorTimedOut) => r.1 is Finish
                && r.1->outcome is Err && r.1->outcome->Err_0@ == "read timed out"@
                && r.1->drop_connection,
            (ProbePhase::Reconnecting { name, address, vendor_name }, ProbeEvent::Connected) => r.0
                == (ProbePhase::ReadingDetails { name, address, vendor_name }) && r.1 is ReadDetails,
            (_, ProbeEvent::ConnectFailed { message }) => r.1 == ProbeAction::Finish {
                outcome: Err(message),
                drop_connection: false,
            },
            (
                ProbePhase::ReadingDetails { name, address, vendor_name },
                ProbeEvent::DetailsRead { product_name, hw_version, sw_version, has_aggregator },
            ) => {
                let info = DeviceInfoDto {
                    node_id,
                    name,
                    address,
                    vendor_name,
                    product_name,
                    hw_version,
                    sw_version,
                    has_aggregator,
                };
                &&& r.1 == ProbeAction::Finish { outcome: Ok(info), drop_connection: false }
                &&& final(state).cache() == old(state).cache().insert(
                    node_id,
                    DeviceCache { info: Some(info), ..cache_in(old(state).cache(), node_id) },
                )
            },
            _ => true,
        },
{
    match phase {
        ProbePhase::LookingUp => match event {
            ProbeEvent::DeviceFound { name, address } => (
                ProbePhase::Connecting { name, address },
                ProbeAction::Connect,
            ),
            ProbeEvent::LookupFailed { message } => (
                ProbePhase::Done,
                ProbeAction::Finish { outcome: Err(message), drop_connection: false },
            ),
            _ => {
                let mut m: String = String::from_str("device ");
                let id: String = decimal_text(node_id);
                m.append(id.as_str());
                m.append(" not found");
                (ProbePhase::Done, ProbeAction::Finish { outcome: Err(m), drop_connection: false })
            },
        },
        ProbePhase::Connecting { name, address } => match event {
            ProbeEvent::Connected => {
                if !force_refresh {
                    match state.cache_get_info(node_id) {
                        Some(cached) => {
                            let info: DeviceInfoDto = cached.duplicate().with_identity(name, address);
                            return (
                                ProbePhase::Done,
                                ProbeAction::Finish { outcome: Ok(info), drop_connection: false },
                            );
                        },
                        None => {},
                    }
                }
                (ProbePhase::ReadingVendor { name, address }, ProbeAction::ReadVendorName)
            },
            ProbeEvent::ConnectFailed { message } => (
                ProbePhase::Done,
                ProbeAction::Finish { outcome: Err(message), drop_connection: false },
            ),
            _ => (ProbePhase::Done, ProbeAction::LookUpDevice),
        },
        ProbePhase::ReadingVendor { name, address } => match event {
            ProbeEvent::VendorRead { value } => (
                ProbePhase::Reconnecting { name, address, vendor_name: text_of_value(value) },
                ProbeAction::Connect,
            ),
            ProbeEvent::VendorFailed { message } => (
                ProbePhase::Done,
                ProbeAction::Finish { outcome: Err(message), drop_connection: false },
            ),
            _ => (
                ProbePhase::Done,
                ProbeAction::Finish {
                    outcome: Err(String::from_str("read timed out")),
                    drop_connection: true,
                },
            ),
        },
        ProbePhase::Reconnecting { name, address, vendor_name } => match event {
            ProbeEvent::Connected => (
                ProbePhase::ReadingDetails { name, address, vendor_name },
                ProbeAction::ReadDetails,
            ),
            ProbeEvent::ConnectFailed { message } => (
                ProbePhase::Done,
                ProbeAction::Finish { outcome: Err(message), drop_connection: false },
            ),
            _ => (ProbePhase::Done, ProbeAction::LookUpDevice),
        },
        ProbePhase::ReadingDetails { name, address, vendor_name } => match event {
            ProbeEvent::DetailsRead { product_name, hw_version, sw_version, has_aggregator } => {
                let info: DeviceInfoDto = DeviceInfoDto {
                    node_id,
                    name,
                    address,
                    vendor_name,
                    product_name,
                    hw_version,
                    sw_version,
                    has_aggregator,
                };
                state.cache_set_info(node_id, info.duplicate());
                (ProbePhase::Done, ProbeAction::Finish { outcome: Ok(info), drop_connection: false })
            },
            _ => (ProbePhase::Done, ProbeAction::LookUpDevice),
        },
        ProbePhase::Done => (ProbePhase::Done, ProbeAction::LookUpDevice),
    }
}

} // verus!

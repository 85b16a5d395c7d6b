//! What a plug says of itself, and what it is asked.

use vstd::prelude::*;
use vstd::string::*;

verus! {

/// The document that asks a plug for its system information and its energy
/// readings. It is the same in every discovery round.
pub const DISCOVERY_REQUEST: &'static str =
    "{\"system\":{\"get_sysinfo\":null},\"emeter\":{\"get_realtime\":null}}";

/// The bytes of `DISCOVERY_REQUEST`.
pub open spec fn discovery_request_spec() -> Seq<u8> {
    DISCOVERY_REQUEST.spec_bytes()
}

/// The bytes of `DISCOVERY_REQUEST`, before encryption.
pub fn discovery_request() -> (request: Vec<u8>)
    ensures
        request@ == discovery_request_spec(),
{
    DISCOVERY_REQUEST.as_bytes_vec()
}

/// The identity and state of a plug.
#[derive(Debug, PartialEq, Eq)]
pub struct SystemInfo {
    /// The name its owner gave the plug.
    pub alias: String,
    pub model: String,
    pub device_id: String,
    pub mac: String,
    /// 1 while the relay is closed.
    pub relay_on: u8,
    /// Seconds since the relay closed.
    pub on_time: u32,
    pub rssi: i32,
}

/// The `system` part of a reply.
#[derive(Debug, PartialEq, Eq)]
pub struct System {
    pub info: SystemInfo,
}

/// The readings of the plug's energy meter, in whole units.
#[derive(Clone, Copy, Debug, PartialEq, Eq, Structural)]
pub struct RealTimeEnergy {
    pub error_code: u8,
    pub power_milli_watt: u32,
    pub voltage_milli_volt: u32,
    pub current_milli_ampere: u32,
    /// Energy delivered since the meter was reset.
    pub total_watt_hour: u32,
}

/// The `emeter` part of a reply.
#[derive(Clone, Copy, Debug, PartialEq, Eq, Structural)]
pub struct EMeter {
    pub real_time: RealTimeEnergy,
}

/// The reply of one plug. A plug without a meter leaves `e_meter` out; either part
/// may be missing, and that is no error.
#[derive(Debug, PartialEq, Eq)]
pub struct DeviceInfoResponse {
    pub system: Option<System>,
    pub e_meter: Option<EMeter>,
}

/// A `SystemInfo` as contracts see it.
pub struct SystemInfoView {
    pub alias: Seq<char>,
    pub model: Seq<char>,
    pub device_id: Seq<char>,
    pub mac: Seq<char>,
    pub relay_on: u8,
    pub on_time: u32,
    pub rssi: i32,
}

impl View for SystemInfo {
    type V = SystemInfoView;

    open spec fn view(&self) -> SystemInfoView {
        SystemInfoView {
            alias: self.alias@,
            model: self.model@,
            device_id: self.device_id@,
            mac: self.mac@,
            relay_on: self.relay_on,
            on_time: self.on_time,
            rssi: self.rssi,
        }
    }
}

/// A `DeviceInfoResponse` as contracts see it.
pub struct DeviceView {
    pub system: Option<SystemInfoView>,
    pub e_meter: Option<RealTimeEnergy>,
}

impl View for DeviceInfoResponse {
    type V = DeviceView;

    open spec fn view(&self) -> DeviceView {
        DeviceView {
            system: match self.system {
                Some(system) => Some(system.info@),
                None => None,
            },
            e_meter: match self.e_meter {
                Some(e_meter) => Some(e_meter.real_time),
                None => None,
            },
        }
    }
}

/// The views of a sequence of replies, in order.
pub open spec fn device_views(devices: Seq<DeviceInfoResponse>) -> Seq<DeviceView> {
    Seq::new(devices.len(), |i: int| devices[i]@)
}

} // verus!

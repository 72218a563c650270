//! The device-side data model: device class and the telemetry record.

use vstd::prelude::*;
use vstd::string::StringExecFns;

verus! {

/// The closed set of device classes, derived once from the type string the
/// diagnostic tool reports. `Unknown` stands for an absent or unrecognized
/// type string.
#[derive(Clone, Copy, PartialEq, Eq, Structural, Debug)]
pub enum DeviceClass {
    Rotational,
    SolidState,
    Nvme,
    Unknown,
}

/// The class a reported type string maps to: `nvme` is NVMe; the
/// SATA/ATA/SCSI transports are taken as the rotational class (whose
/// thresholds coincide with the solid-state class); anything else is
/// unrecognized.
pub open spec fn spec_class_of_str(s: Seq<char>) -> DeviceClass {
    if s == "nvme"@ {
        DeviceClass::Nvme
    } else if s == "sat"@ || s == "ata"@ || s == "scsi"@ {
        DeviceClass::Rotational
    } else {
        DeviceClass::Unknown
    }
}

/// The class of an optionally reported type string; absent means unknown.
pub open spec fn spec_class_of(tp: Option<Seq<char>>) -> DeviceClass {
    match tp {
        Option::Some(s) => spec_class_of_str(s),
        Option::None => DeviceClass::Unknown,
    }
}

impl DeviceClass {
    /// Derive the class from the type string the diagnostic tool reported.
    pub fn from_reported(tp: &Option<String>) -> (c: DeviceClass)
        ensures
            c == spec_class_of(match tp {
                Option::Some(s) => Option::Some(s@),
                Option::None => Option::None,
            }),
    {
        match tp {
            Option::None => DeviceClass::Unknown,
            Option::Some(s) => {
                let nvme = String::from_str("nvme");
                let sat = String::from_str("sat");
                let ata = String::from_str("ata");
                let scsi = String::from_str("scsi");
                if *s == nvme {
                    DeviceClass::Nvme
                } else if *s == sat || *s == ata || *s == scsi {
                    DeviceClass::Rotational
                } else {
                    DeviceClass::Unknown
                }
            },
        }
    }
}

/// One device's telemetry snapshot, as plain values. Optional fields were
/// simply absent from the tool's report; absence is data, not an error.
/// Devices whose report could not be retrieved never become records: the
/// adapter reports them by identifier alongside (see the aggregator).
pub struct DeviceRecord {
    /// Device name, e.g. `sda` or `nvme0`; used only for display and
    /// correlation.
    pub name: String,
    /// Class derived from `device_type` when the record was built.
    pub class: DeviceClass,
    /// The type string as reported, kept for display.
    pub device_type: Option<String>,
    pub model_name: Option<String>,
    pub serial_number: Option<String>,
    /// Current temperature in whole degrees Celsius.
    pub temperature_c: Option<i32>,
    pub power_on_hours: Option<u64>,
    pub power_cycle_count: Option<u64>,
    pub capacity_bytes: Option<u128>,
    pub rotation_rate: Option<u64>,
    pub firmware_version: Option<String>,
    /// The drive's own health verdict; absent counts as failing.
    pub health_passed: Option<bool>,
}

} // verus!

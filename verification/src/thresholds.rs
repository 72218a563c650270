//! Threshold resolution: the effective (warning, critical) temperature pair
//! for a device class, unit mode and optional user overrides.

use vstd::prelude::*;
use crate::device::DeviceClass;
use crate::temperature::{spec_to_fahrenheit_or, to_fahrenheit_or, TempUnit, Temperature};

verus! {

/// Default warning bound, degrees Celsius, for every class but NVMe.
pub const TEMP_WARN_DEFAULT_C: i32 = 40;

/// Default critical bound, degrees Celsius, for every class but NVMe.
pub const TEMP_CRIT_DEFAULT_C: i32 = 45;

/// Default warning bound, degrees Celsius, for NVMe devices.
pub const TEMP_WARN_DEFAULT_C_NVME: i32 = 50;

/// Default critical bound, degrees Celsius, for NVMe devices.
pub const TEMP_CRIT_DEFAULT_C_NVME: i32 = 60;

/// The (warning, critical) bounds a device is judged against. Nothing
/// enforces `warning <= critical`: an inverted pair is accepted
/// configuration and must not cause failure.
#[derive(Clone, Copy, PartialEq, Eq, Structural, Debug)]
pub struct ThresholdPair {
    pub warning: Temperature,
    pub critical: Temperature,
}

/// The class's default warning bound in Celsius.
pub open spec fn spec_base_warn_c(class: DeviceClass) -> int {
    if class == DeviceClass::Nvme {
        TEMP_WARN_DEFAULT_C_NVME as int
    } else {
        TEMP_WARN_DEFAULT_C as int
    }
}

/// The class's default critical bound in Celsius.
pub open spec fn spec_base_crit_c(class: DeviceClass) -> int {
    if class == DeviceClass::Nvme {
        TEMP_CRIT_DEFAULT_C_NVME as int
    } else {
        TEMP_CRIT_DEFAULT_C as int
    }
}

/// The unit thresholds and display values are expressed in.
pub open spec fn spec_display_unit(fahrenheit: bool) -> TempUnit {
    if fahrenheit {
        TempUnit::Fahrenheit
    } else {
        TempUnit::Celsius
    }
}

/// The resolved thresholds: each override, taken verbatim, independently
/// governs its own bound; a missing override falls back to the class
/// default, converted to Fahrenheit when that is the display unit.
pub open spec fn spec_resolve(
    class: DeviceClass,
    fahrenheit: bool,
    warn_override: Option<Temperature>,
    crit_override: Option<Temperature>,
) -> ThresholdPair {
    ThresholdPair {
        warning: match warn_override {
            Option::Some(t) => t,
            Option::None => Temperature {
                degrees: spec_to_fahrenheit_or(spec_base_warn_c(class), fahrenheit) as i32,
                unit: spec_display_unit(fahrenheit),
            },
        },
        critical: match crit_override {
            Option::Some(t) => t,
            Option::None => Temperature {
                degrees: spec_to_fahrenheit_or(spec_base_crit_c(class), fahrenheit) as i32,
                unit: spec_display_unit(fahrenheit),
            },
        },
    }
}

/// Resolve the effective threshold pair for one device class.
pub fn resolve(
    class: DeviceClass,
    fahrenheit: bool,
    warn_override: Option<Temperature>,
    crit_override: Option<Temperature>,
) -> (r: ThresholdPair)
    ensures
        r == spec_resolve(class, fahrenheit, warn_override, crit_override),
{
    let unit = if fahrenheit {
        TempUnit::Fahrenheit
    } else {
        TempUnit::Celsius
    };
    let base_warn_c: i32 = if matches!(class, DeviceClass::Nvme) {
        TEMP_WARN_DEFAULT_C_NVME
    } else {
        TEMP_WARN_DEFAULT_C
    };
    let base_crit_c: i32 = if matches!(class, DeviceClass::Nvme) {
        TEMP_CRIT_DEFAULT_C_NVME
    } else {
        TEMP_CRIT_DEFAULT_C
    };
    let warn_default: i64 = to_fahrenheit_or(base_warn_c, fahrenheit);
    let crit_default: i64 = to_fahrenheit_or(base_crit_c, fahrenheit);
    assert(40 <= warn_default <= 122);
    assert(45 <= crit_default <= 140);
    let warning = match warn_override {
        Option::Some(t) => t,
        Option::None => Temperature { degrees: warn_default as i32, unit },
    };
    let critical = match crit_override {
        Option::Some(t) => t,
        Option::None => Temperature { degrees: crit_default as i32, unit },
    };
    ThresholdPair { warning, critical }
}

/// With no overrides, `resolve` yields the class-specific Celsius defaults
/// (40/45 generally, 50/60 for NVMe), converted to Fahrenheit (104/113 and
/// 122/140) exactly when Fahrenheit is the display unit.
pub proof fn lemma_resolve_defaults(class: DeviceClass, fahrenheit: bool)
    ensures
        ({
            let r = spec_resolve(class, fahrenheit, Option::None, Option::None);
            &&& r.warning.unit == spec_display_unit(fahrenheit)
            &&& r.critical.unit == spec_display_unit(fahrenheit)
            &&& r.warning.degrees as int == if fahrenheit {
                if class == DeviceClass::Nvme { 122int } else { 104int }
            } else {
                if class == DeviceClass::Nvme { 50int } else { 40int }
            }
            &&& r.critical.degrees as int == if fahrenheit {
                if class == DeviceClass::Nvme { 140int } else { 113int }
            } else {
                if class == DeviceClass::Nvme { 60int } else { 45int }
            }
        }),
{
}

} // verus!

//! Per-device severity classification: a pure map from one telemetry record
//! and its thresholds to a classified device.

use vstd::prelude::*;
use vstd::string::StringExecFns;
use crate::device::DeviceRecord;
use crate::fmt::{i64_string, spec_idec};
use crate::temperature::{reaches, spec_reaches, spec_to_fahrenheit_or, to_fahrenheit_or};
use crate::thresholds::ThresholdPair;

verus! {

/// The temperature-derived severity tier of one device.
#[derive(Clone, Copy, PartialEq, Eq, Structural, Debug)]
pub enum Severity {
    Normal,
    Warning,
    Critical,
}

/// A telemetry record together with what classification derived from it.
pub struct ClassifiedDevice {
    pub record: DeviceRecord,
    pub severity: Severity,
    /// The reading in the display unit, rounded to whole degrees, with the
    /// unit suffix; empty when no reading was present.
    pub display_temp: String,
    /// Whether the drive's own health verdict is missing or negative.
    pub health_failed: bool,
}

/// Severity of a Celsius reading against a threshold pair: at or above the
/// critical bound is critical (checked first, so an inverted pair still
/// yields critical); otherwise at or above the warning bound is a warning.
pub open spec fn spec_severity(reading_c: int, pair: ThresholdPair) -> Severity {
    if spec_reaches(reading_c, pair.critical) {
        Severity::Critical
    } else if spec_reaches(reading_c, pair.warning) {
        Severity::Warning
    } else {
        Severity::Normal
    }
}

/// An absent health verdict counts as failing, not as an unknown pass.
pub open spec fn spec_health_failed(record: DeviceRecord) -> bool {
    record.health_passed != Option::Some(true)
}

/// The display string of a Celsius reading: the rounded display value,
/// a space, and the unit letter.
pub open spec fn spec_display_temp(c: int, fahrenheit: bool) -> Seq<char> {
    spec_idec(spec_to_fahrenheit_or(c, fahrenheit)) + seq![' ', if fahrenheit { 'F' } else { 'C' }]
}

/// Everything `classify` promises of its result: the record is carried
/// through unchanged; the health flag follows `spec_health_failed`; with a
/// reading present, severity and display string are those of the reading,
/// and with none, severity is normal and the display string empty.
pub open spec fn classified_matches(
    out: ClassifiedDevice,
    record: DeviceRecord,
    pair: ThresholdPair,
    fahrenheit: bool,
) -> bool {
    &&& out.record == record
    &&& out.health_failed == spec_health_failed(record)
    &&& match record.temperature_c {
        Option::Some(t) => out.severity == spec_severity(t as int, pair) && out.display_temp@
            == spec_display_temp(t as int, fahrenheit),
        Option::None => out.severity == Severity::Normal && out.display_temp@ == Seq::<
            char,
        >::empty(),
    }
}

/// Classify one record against its resolved thresholds. Pure: the result is
/// a function of the three arguments alone.
pub fn classify(record: DeviceRecord, thresholds: ThresholdPair, fahrenheit: bool) -> (out:
    ClassifiedDevice)
    ensures
        classified_matches(out, record, thresholds, fahrenheit),
{
    let health_failed = match record.health_passed {
        Option::Some(true) => false,
        _ => true,
    };
    match record.temperature_c {
        Option::None => ClassifiedDevice {
            record,
            severity: Severity::Normal,
            display_temp: String::new(),
            health_failed,
        },
        Option::Some(t) => {
            let severity = if reaches(t, thresholds.critical) {
                Severity::Critical
            } else if reaches(t, thresholds.warning) {
                Severity::Warning
            } else {
                Severity::Normal
            };
            let shown = to_fahrenheit_or(t, fahrenheit);
            let mut display_temp = i64_string(shown);
            proof {
                reveal_strlit(" F");
                reveal_strlit(" C");
            }
            display_temp.append(if fahrenheit { " F" } else { " C" });
            proof {
                assert(display_temp@ =~= spec_display_temp(t as int, fahrenheit));
            }
            ClassifiedDevice { record, severity, display_temp, health_failed }
        },
    }
}

/// The rank of a severity tier, for stating monotonicity.
pub open spec fn spec_severity_rank(s: Severity) -> int {
    match s {
        Severity::Normal => 0,
        Severity::Warning => 1,
        Severity::Critical => 2,
    }
}

/// Classification is pure: two results that both satisfy the classifier's
/// contract for identical inputs agree in every derived part.
pub proof fn lemma_classify_pure(
    a: ClassifiedDevice,
    b: ClassifiedDevice,
    record: DeviceRecord,
    pair: ThresholdPair,
    fahrenheit: bool,
)
    requires
        classified_matches(a, record, pair, fahrenheit),
        classified_matches(b, record, pair, fahrenheit),
    ensures
        a.record == b.record,
        a.severity == b.severity,
        a.health_failed == b.health_failed,
        a.display_temp@ == b.display_temp@,
{
}

/// For a fixed threshold pair, severity splits the reading axis in three:
/// critical exactly at or above the critical bound, warning exactly in
/// between, normal exactly below the warning bound (comparisons taken as
/// exact temperatures, per `spec_reaches`).
pub proof fn lemma_severity_trichotomy(reading_c: int, pair: ThresholdPair)
    ensures
        spec_severity(reading_c, pair) == Severity::Critical <==> spec_reaches(
            reading_c,
            pair.critical,
        ),
        spec_severity(reading_c, pair) == Severity::Warning <==> (!spec_reaches(
            reading_c,
            pair.critical,
        ) && spec_reaches(reading_c, pair.warning)),
        spec_severity(reading_c, pair) == Severity::Normal <==> (!spec_reaches(
            reading_c,
            pair.critical,
        ) && !spec_reaches(reading_c, pair.warning)),
{
}

/// For a fixed threshold pair, severity is monotone in the reading.
pub proof fn lemma_severity_monotone(r1: int, r2: int, pair: ThresholdPair)
    requires
        r1 <= r2,
    ensures
        spec_severity_rank(spec_severity(r1, pair)) <= spec_severity_rank(spec_severity(r2, pair)),
{
}

} // verus!

//! Row content for the device table: the cell strings, and the filter for
//! showing only devices with something wrong. Styling and the table itself
//! are the presentation collaborator's business.

use vstd::prelude::*;
use crate::classify::{ClassifiedDevice, Severity};
use crate::fmt::{spec_udec, u64_string};

verus! {

/// What `byte_unit` renders a byte count as (a value scaled to the
/// appropriate decimal unit, with the unit's symbol); a function of the
/// byte count alone.
pub uninterp spec fn human_size_of(bytes: u128) -> Seq<char>;

/// Relies on `byte_unit::Byte::get_appropriate_unit` with decimal units,
/// and on the `Display` of its result: both depend on the byte count alone.
#[verifier::external_body]
fn human_capacity(bytes: u128) -> (r: String)
    ensures
        r@ == human_size_of(bytes),
{
    byte_unit::Byte::from_bytes(bytes).get_appropriate_unit(false).to_string()
}

/// An optional string cell: the string, or empty when absent.
pub open spec fn spec_opt_str(o: Option<String>) -> Seq<char> {
    match o {
        Option::Some(s) => s@,
        Option::None => Seq::empty(),
    }
}

/// An optional count cell: the decimal string, or empty when absent.
pub open spec fn spec_count_cell(o: Option<u64>) -> Seq<char> {
    match o {
        Option::Some(v) => spec_udec(v as nat),
        Option::None => Seq::empty(),
    }
}

/// The rotation-rate cell: a reported rate of zero (a non-rotational
/// device) renders empty, like an absent one.
pub open spec fn spec_rotation_cell(o: Option<u64>) -> Seq<char> {
    match o {
        Option::Some(v) => if v == 0 {
            Seq::empty()
        } else {
            spec_udec(v as nat)
        },
        Option::None => Seq::empty(),
    }
}

/// The capacity cell: the humanized byte count, or empty when absent.
pub open spec fn spec_capacity_cell(o: Option<u128>) -> Seq<char> {
    match o {
        Option::Some(b) => human_size_of(b),
        Option::None => Seq::empty(),
    }
}

fn opt_str_cell(o: &Option<String>) -> (r: String)
    ensures
        r@ == spec_opt_str(*o),
{
    match o {
        Option::Some(s) => s.clone(),
        Option::None => String::new(),
    }
}

fn count_cell(o: &Option<u64>) -> (r: String)
    ensures
        r@ == spec_count_cell(*o),
{
    match o {
        Option::Some(v) => u64_string(*v),
        Option::None => String::new(),
    }
}

/// The table cells for one classified device: name, model, serial and
/// display temperature; with `full`, also power-on hours, power-cycle
/// count, interface type, capacity, rotation rate and firmware.
pub fn device_cells(d: &ClassifiedDevice, full: bool) -> (cells: Vec<String>)
    ensures
        cells@.len() == if full { 10int } else { 4int },
        cells@[0]@ == d.record.name@,
        cells@[1]@ == spec_opt_str(d.record.model_name),
        cells@[2]@ == spec_opt_str(d.record.serial_number),
        cells@[3]@ == d.display_temp@,
        full ==> cells@[4]@ == spec_count_cell(d.record.power_on_hours),
        full ==> cells@[5]@ == spec_count_cell(d.record.power_cycle_count),
        full ==> cells@[6]@ == spec_opt_str(d.record.device_type),
        full ==> cells@[7]@ == spec_capacity_cell(d.record.capacity_bytes),
        full ==> cells@[8]@ == spec_rotation_cell(d.record.rotation_rate),
        full ==> cells@[9]@ == spec_opt_str(d.record.firmware_version),
{
    let mut cells: Vec<String> = Vec::new();
    cells.push(d.record.name.clone());
    cells.push(opt_str_cell(&d.record.model_name));
    cells.push(opt_str_cell(&d.record.serial_number));
    cells.push(d.display_temp.clone());
    if full {
        cells.push(count_cell(&d.record.power_on_hours));
        cells.push(count_cell(&d.record.power_cycle_count));
        cells.push(opt_str_cell(&d.record.device_type));
        let capacity = match &d.record.capacity_bytes {
            Option::Some(b) => human_capacity(*b),
            Option::None => String::new(),
        };
        cells.push(capacity);
        let rotation = match &d.record.rotation_rate {
            Option::Some(v) => if *v == 0 {
                String::new()
            } else {
                u64_string(*v)
            },
            Option::None => String::new(),
        };
        cells.push(rotation);
        cells.push(opt_str_cell(&d.record.firmware_version));
    }
    cells
}

/// Whether a device is shown: all of them, unless only devices with
/// errors are wanted — then those with a failed health check or a
/// warning-or-critical temperature.
pub fn show_device(d: &ClassifiedDevice, errors_only: bool) -> (r: bool)
    ensures
        r == (!errors_only || d.health_failed || d.severity != Severity::Normal),
{
    !errors_only || d.health_failed || !matches!(d.severity, Severity::Normal)
}

} // verus!

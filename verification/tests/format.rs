use shd::classify::{ClassifiedDevice, Severity};
use shd::device::{DeviceClass, DeviceRecord};
use shd::fmt::{i64_string, u64_string};
use shd::report::{device_cells, show_device};
use shd::temperature::{reaches, to_fahrenheit_or, TempUnit, Temperature};

fn full_record() -> DeviceRecord {
    DeviceRecord {
        name: String::from("sda"),
        class: DeviceClass::Rotational,
        device_type: Some(String::from("sat")),
        model_name: Some(String::from("ExampleDisk 3000")),
        serial_number: Some(String::from("SN123")),
        temperature_c: Some(31),
        power_on_hours: Some(12345),
        power_cycle_count: Some(77),
        capacity_bytes: Some(1024),
        rotation_rate: Some(7200),
        firmware_version: Some(String::from("1.0")),
        health_passed: Some(true),
    }
}

fn classified_of(record: DeviceRecord) -> ClassifiedDevice {
    ClassifiedDevice {
        record,
        severity: Severity::Normal,
        display_temp: String::from("31 C"),
        health_failed: false,
    }
}

#[test]
fn decimal_strings() {
    assert_eq!(u64_string(0), "0");
    assert_eq!(u64_string(7), "7");
    assert_eq!(u64_string(46), "46");
    assert_eq!(u64_string(12345), "12345");
    assert_eq!(i64_string(115), "115");
    assert_eq!(i64_string(0), "0");
    assert_eq!(i64_string(-7), "-7");
    assert_eq!(i64_string(-22), "-22");
}

#[test]
fn fahrenheit_display_rounds_to_nearest_degree() {
    assert_eq!(to_fahrenheit_or(40, true), 104);
    assert_eq!(to_fahrenheit_or(45, true), 113);
    assert_eq!(to_fahrenheit_or(50, true), 122);
    assert_eq!(to_fahrenheit_or(60, true), 140);
    assert_eq!(to_fahrenheit_or(46, true), 115); // 114.8 F
    assert_eq!(to_fahrenheit_or(0, true), 32);
    assert_eq!(to_fahrenheit_or(-18, true), 0); // -0.4 F
    assert_eq!(to_fahrenheit_or(-30, true), -22);
    assert_eq!(to_fahrenheit_or(46, false), 46);
}

#[test]
fn reaches_compares_exact_temperatures() {
    let warn_c = Temperature {
        degrees: 40,
        unit: TempUnit::Celsius,
    };
    assert!(reaches(40, warn_c));
    assert!(!reaches(39, warn_c));
    let warn_f = Temperature {
        degrees: 115,
        unit: TempUnit::Fahrenheit,
    };
    // 46 C is 114.8 F: displayed as 115 but strictly below a 115 F bound.
    assert!(!reaches(46, warn_f));
    assert!(reaches(47, warn_f));
    let freezing_f = Temperature {
        degrees: 32,
        unit: TempUnit::Fahrenheit,
    };
    assert!(reaches(0, freezing_f));
    assert!(!reaches(-1, freezing_f));
}

#[test]
fn basic_cells_hold_name_model_serial_and_temperature() {
    let c = classified_of(full_record());
    let cells = device_cells(&c, false);
    assert_eq!(
        cells,
        vec![
            String::from("sda"),
            String::from("ExampleDisk 3000"),
            String::from("SN123"),
            String::from("31 C"),
        ]
    );
}

#[test]
fn full_cells_add_the_extended_columns() {
    let c = classified_of(full_record());
    let cells = device_cells(&c, true);
    assert_eq!(cells.len(), 10);
    assert_eq!(cells[4], "12345");
    assert_eq!(cells[5], "77");
    assert_eq!(cells[6], "sat");
    assert_eq!(cells[7], "1.02 KB");
    assert_eq!(cells[8], "7200");
    assert_eq!(cells[9], "1.0");
}

#[test]
fn absent_fields_render_empty() {
    let mut record = full_record();
    record.model_name = None;
    record.serial_number = None;
    record.power_on_hours = None;
    record.capacity_bytes = None;
    record.rotation_rate = Some(0);
    record.firmware_version = None;
    record.device_type = None;
    let c = classified_of(record);
    let cells = device_cells(&c, true);
    assert_eq!(cells[1], "");
    assert_eq!(cells[2], "");
    assert_eq!(cells[4], "");
    assert_eq!(cells[6], "");
    assert_eq!(cells[7], "");
    assert_eq!(cells[8], "");
    assert_eq!(cells[9], "");
}

#[test]
fn small_capacities_render_in_bytes() {
    let mut record = full_record();
    record.capacity_bytes = Some(500);
    let c = classified_of(record);
    let cells = device_cells(&c, true);
    assert_eq!(cells[7], "500 B");
}

#[test]
fn error_filter_keeps_only_troubled_devices() {
    let healthy = classified_of(full_record());
    assert!(show_device(&healthy, false));
    assert!(!show_device(&healthy, true));

    let mut warm = classified_of(full_record());
    warm.severity = Severity::Warning;
    assert!(show_device(&warm, true));

    let mut failed = classified_of(full_record());
    failed.health_failed = true;
    assert!(show_device(&failed, true));
}

#[test]
fn class_derivation_from_reported_type() {
    assert_eq!(
        DeviceClass::from_reported(&Some(String::from("nvme"))),
        DeviceClass::Nvme
    );
    assert_eq!(
        DeviceClass::from_reported(&Some(String::from("sat"))),
        DeviceClass::Rotational
    );
    assert_eq!(
        DeviceClass::from_reported(&Some(String::from("ata"))),
        DeviceClass::Rotational
    );
    assert_eq!(
        DeviceClass::from_reported(&Some(String::from("scsi"))),
        DeviceClass::Rotational
    );
    assert_eq!(
        DeviceClass::from_reported(&Some(String::from("usb"))),
        DeviceClass::Unknown
    );
    assert_eq!(DeviceClass::from_reported(&None), DeviceClass::Unknown);
}

use fanout_tee::status::Status;
use fanout_tee::status::Unit;

fn scaled_of(bytes: usize) -> (usize, &'static str) {
    let status = Status { bytes_copied: bytes, num_of_files: 1 };
    let (size, unit) = status.scaled();
    (size, unit.label())
}

#[test]
fn bytes_below_first_threshold_are_unscaled() {
    assert_eq!(scaled_of(0), (0, "bytes"));
    assert_eq!(scaled_of(1), (1, "bytes"));
    assert_eq!(scaled_of(1023), (1023, "bytes"));
}

#[test]
fn kilobytes_scale_with_integer_division() {
    assert_eq!(scaled_of(1024), (1, "KB"));
    assert_eq!(scaled_of(150000), (146, "KB"));
    assert_eq!(scaled_of(1024 * 1024 - 1), (1023, "KB"));
}

#[test]
fn megabytes_and_gigabytes_thresholds() {
    assert_eq!(scaled_of(1024 * 1024), (1, "MB"));
    assert_eq!(scaled_of(5 * 1024 * 1024 + 3), (5, "MB"));
    assert_eq!(scaled_of(1024 * 1024 * 1024 - 1), (1023, "MB"));
    assert_eq!(scaled_of(1024 * 1024 * 1024), (1, "GB"));
    assert_eq!(scaled_of(3 * 1024 * 1024 * 1024 + 12345), (3, "GB"));
}

#[test]
fn unit_labels() {
    assert_eq!(Unit::Bytes.label(), "bytes");
    assert_eq!(Unit::Kilobytes.label(), "KB");
    assert_eq!(Unit::Megabytes.label(), "MB");
    assert_eq!(Unit::Gigabytes.label(), "GB");
}

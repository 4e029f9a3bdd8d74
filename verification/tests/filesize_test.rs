use libsnatch::filesize::format_filesize;
use libsnatch::filesize::FileSize;

#[test]
fn unit_values_are_binary_powers() {
    assert_eq!(1, FileSize::B.value());
    assert_eq!(1_024, FileSize::KB.value());
    assert_eq!(1_048_576, FileSize::MB.value());
    assert_eq!(1_073_741_824, FileSize::GB.value());
    assert_eq!(1_099_511_627_776, FileSize::TB.value());
}

#[test]
fn small_sizes_are_rendered_in_bytes() {
    assert_eq!("0.00 B", format_filesize(0));
    assert_eq!("512.00 B", format_filesize(512));
    assert_eq!("999.00 B", format_filesize(999));
}

#[test]
fn four_digit_sizes_switch_to_kilobytes() {
    assert_eq!("0.98 KB", format_filesize(1_000));
    assert_eq!("1.46 KB", format_filesize(1_500));
    assert_eq!("1.00 KB", format_filesize(1_024));
}

#[test]
fn larger_sizes_use_larger_units() {
    assert_eq!("1.00 MB", format_filesize(1_048_576));
    assert_eq!("0.95 MB", format_filesize(1_000_000));
    assert_eq!("1.00 GB", format_filesize(1_073_741_824));
    assert_eq!("1.82 TB", format_filesize(2_000_000_000_000));
}

use swdk::rt::logging::{
    file_name, filetime_100ns_to_unix_parts, ntstatus_to_result, remove_module_name,
    timestamp_utc, unix_secs_to_utc, UtcDateTime, WINDOWS_TO_UNIX_EPOCH_100NS,
};
use swdk::rt::wdk_sys::{STATUS_INVALID_PARAMETER, STATUS_SUCCESS, STATUS_UNSUCCESSFUL};

fn parts(t: UtcDateTime) -> (i32, u8, u8, u8, u8, u8, u16) {
    (t.year, t.month, t.day, t.hour, t.minute, t.second, t.millis)
}

#[test]
fn ntstatus_success_and_informational_are_ok() {
    assert_eq!(ntstatus_to_result(STATUS_SUCCESS), Ok(()));
    assert_eq!(ntstatus_to_result(0x4000_0000), Ok(()));
}

#[test]
fn ntstatus_errors_are_kept() {
    assert_eq!(ntstatus_to_result(STATUS_UNSUCCESSFUL), Err(-1));
    assert_eq!(
        ntstatus_to_result(STATUS_INVALID_PARAMETER),
        Err(0xC000_000Du32 as i32)
    );
    assert_eq!(ntstatus_to_result(i32::MIN), Err(i32::MIN));
}

#[test]
fn unix_epoch_is_first_of_january_1970() {
    assert_eq!(parts(unix_secs_to_utc(0, 0)), (1970, 1, 1, 0, 0, 0, 0));
}

#[test]
fn leap_day_of_2000() {
    assert_eq!(parts(unix_secs_to_utc(951_782_400, 7)), (2000, 2, 29, 0, 0, 0, 7));
    assert_eq!(parts(unix_secs_to_utc(951_868_799, 0)), (2000, 2, 29, 23, 59, 59, 0));
    assert_eq!(parts(unix_secs_to_utc(951_868_800, 0)), (2000, 3, 1, 0, 0, 0, 0));
}

#[test]
fn time_of_day_is_split_into_hours_minutes_seconds() {
    assert_eq!(parts(unix_secs_to_utc(1_700_000_000, 999)), (2023, 11, 14, 22, 13, 20, 999));
}

#[test]
fn seconds_before_the_epoch_fall_on_earlier_days() {
    assert_eq!(parts(unix_secs_to_utc(-1, 0)), (1969, 12, 31, 23, 59, 59, 0));
    assert_eq!(parts(unix_secs_to_utc(-86_400, 0)), (1969, 12, 31, 0, 0, 0, 0));
}

#[test]
fn dates_far_from_the_epoch() {
    // 1600-03-01 and 2100-03-01, across century years that are not leap.
    assert_eq!(parts(unix_secs_to_utc(-11_670_912_000, 0)), (1600, 3, 1, 0, 0, 0, 0));
    assert_eq!(parts(unix_secs_to_utc(4_107_542_400, 0)), (2100, 3, 1, 0, 0, 0, 0));
    assert_eq!(parts(unix_secs_to_utc(4_107_456_000, 0)), (2100, 2, 28, 0, 0, 0, 0));
}

#[test]
fn filetime_parts_split_seconds_and_milliseconds() {
    let ts = WINDOWS_TO_UNIX_EPOCH_100NS + 12_345_678;
    assert_eq!(filetime_100ns_to_unix_parts(ts), (1, 234));
    assert_eq!(filetime_100ns_to_unix_parts(WINDOWS_TO_UNIX_EPOCH_100NS), (0, 0));
}

#[test]
fn filetime_parts_before_the_epoch_round_toward_zero() {
    assert_eq!(filetime_100ns_to_unix_parts(WINDOWS_TO_UNIX_EPOCH_100NS - 1), (0, 0));
    assert_eq!(
        filetime_100ns_to_unix_parts(WINDOWS_TO_UNIX_EPOCH_100NS - 10_000),
        (0, 65535)
    );
    assert_eq!(
        filetime_100ns_to_unix_parts(WINDOWS_TO_UNIX_EPOCH_100NS - 10_000_000),
        (-1, 0)
    );
}

#[test]
fn timestamp_utc_converts_system_time() {
    let one_day = 86_400 * 10_000_000;
    let t = timestamp_utc(WINDOWS_TO_UNIX_EPOCH_100NS + one_day + 5_000);
    assert_eq!(parts(t), (1970, 1, 2, 0, 0, 0, 0));
    let t = timestamp_utc(WINDOWS_TO_UNIX_EPOCH_100NS + 15_000);
    assert_eq!(parts(t), (1970, 1, 1, 0, 0, 0, 1));
    let t = timestamp_utc(0);
    assert_eq!(parts(t), (1601, 1, 1, 0, 0, 0, 0));
}

#[test]
fn timestamp_text_is_zero_padded() {
    let t = UtcDateTime { year: 2024, month: 3, day: 5, hour: 7, minute: 8, second: 9, millis: 45 };
    assert_eq!(t.to_text(), "2024-03-05 07:08:09.045 UTC");
}

#[test]
fn timestamp_text_of_unusual_years() {
    let t = UtcDateTime { year: -5, month: 12, day: 31, hour: 23, minute: 59, second: 59, millis: 999 };
    assert_eq!(t.to_text(), "-005-12-31 23:59:59.999 UTC");
    let t = UtcDateTime { year: 12345, month: 1, day: 1, hour: 0, minute: 0, second: 0, millis: 0 };
    assert_eq!(t.to_text(), "12345-01-01 00:00:00.000 UTC");
    let t = UtcDateTime { year: i32::MIN, month: 1, day: 1, hour: 0, minute: 0, second: 0, millis: 0 };
    assert_eq!(t.to_text(), "-2147483648-01-01 00:00:00.000 UTC");
}

#[test]
fn timestamp_text_matches_std_formatting() {
    let t = unix_secs_to_utc(1_700_000_000, 7);
    let expected = format!(
        "{:04}-{:02}-{:02} {:02}:{:02}:{:02}.{:03} UTC",
        t.year, t.month, t.day, t.hour, t.minute, t.second, t.millis
    );
    assert_eq!(t.to_text(), expected);
}

#[test]
fn module_name_is_removed() {
    assert_eq!(remove_module_name("swdk::wdf::handle"), "wdf::handle");
    assert_eq!(remove_module_name("a:b::c"), "c");
    assert_eq!(remove_module_name("::x"), "x");
    assert_eq!(remove_module_name("driver::"), "");
}

#[test]
fn path_without_module_separator_gives_empty_string() {
    assert_eq!(remove_module_name("main"), "");
    assert_eq!(remove_module_name("a:b"), "");
    assert_eq!(remove_module_name(""), "");
}

#[test]
fn file_name_is_last_path_component() {
    assert_eq!(file_name("src/wdf/handle.rs"), "handle.rs");
    assert_eq!(file_name("C:\\drivers\\src\\lib.rs"), "lib.rs");
    assert_eq!(file_name("mixed/dir\\file.rs"), "file.rs");
    assert_eq!(file_name("dir/"), "");
}

#[test]
fn file_name_without_separator_is_whole_path() {
    assert_eq!(file_name("lib.rs"), "lib.rs");
    assert_eq!(file_name(""), "");
}

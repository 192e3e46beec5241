use vibe_git::BranchName;
use vibe_git::branch_name_for_timestamp;
use vibe_git::time::format_utc_seconds;
use vibe_git::u64_to_dec_string;

#[test]
fn decimal_rendering() {
    assert_eq!(u64_to_dec_string(0), "0");
    assert_eq!(u64_to_dec_string(7), "7");
    assert_eq!(u64_to_dec_string(10), "10");
    assert_eq!(u64_to_dec_string(1234567890), "1234567890");
    assert_eq!(u64_to_dec_string(u64::MAX), "18446744073709551615");
}

#[test]
fn branch_name_from_timestamp() {
    assert_eq!(branch_name_for_timestamp(0).as_str(), "vibe-0");
    assert_eq!(branch_name_for_timestamp(1700000000).as_str(), "vibe-1700000000");
}

#[test]
fn branch_name_round_trips_text() {
    let name = BranchName::from_string("feature-branch".to_string());
    assert_eq!(name.as_str(), "feature-branch");
    assert_eq!(name.duplicate().as_str(), "feature-branch");
}

#[test]
fn branch_name_from_string_conversion() {
    let name = BranchName::from("integration-branch".to_string());
    assert_eq!(name.as_str(), "integration-branch");
}

#[test]
fn utc_display_of_known_instants() {
    assert_eq!(format_utc_seconds(0).unwrap(), "1970-01-01 00:00:00");
    assert_eq!(format_utc_seconds(1431648000).unwrap(), "2015-05-15 00:00:00");
    assert_eq!(format_utc_seconds(1700000000).unwrap(), "2023-11-14 22:13:20");
}

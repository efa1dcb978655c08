use voice_capture::calendar::{utc_month, utc_year};
use voice_capture::paths::{
    clip_path, dec_u64, month_name, recording_dir, recording_file_name, recording_path,
};

#[test]
fn renders_decimal_strings() {
    assert_eq!(dec_u64(0).as_str(), "0");
    assert_eq!(dec_u64(7).as_str(), "7");
    assert_eq!(dec_u64(10).as_str(), "10");
    assert_eq!(dec_u64(190_204).as_str(), "190204");
    assert_eq!(dec_u64(u64::MAX).as_str(), "18446744073709551615");
}

#[test]
fn names_months() {
    assert_eq!(month_name(1), "January");
    assert_eq!(month_name(6), "June");
    assert_eq!(month_name(12), "December");
}

#[test]
fn calendar_fields_of_known_timestamps() {
    // The epoch itself.
    assert_eq!(utc_year(0), 1970);
    assert_eq!(utc_month(0), 1);
    // 2000-01-12T01:02:03.004Z.
    assert_eq!(utc_year(947_638_923_004), 2000);
    assert_eq!(utc_month(947_638_923_004), 1);
    // 2022-12-09 was in December.
    assert_eq!(utc_year(1_670_620_473_631), 2022);
    assert_eq!(utc_month(1_670_620_473_631), 12);
}

#[test]
fn builds_recording_paths() {
    assert_eq!(
        recording_dir("/rec", 362, 850, 1_670_620_473_631).as_str(),
        "/rec/362/850/2022/December"
    );
    let file = recording_file_name(1_670_620_473_631, 161, "QazZ");
    assert_eq!(file.as_str(), "1670620473631-161-QazZ");
    assert_eq!(
        recording_path("/rec", 362, 850, 1_670_620_473_631, file.as_str()).as_str(),
        "/rec/362/850/2022/December/1670620473631-161-QazZ"
    );
}

#[test]
fn epoch_recordings_are_filed_under_january_1970() {
    assert_eq!(recording_dir("/rec", 1, 2, 0).as_str(), "/rec/1/2/1970/January");
}

#[test]
fn builds_clip_paths() {
    assert_eq!(clip_path("/clips", "airhorn").as_str(), "/clips/airhorn.ogg");
}

use media_organizer::date::{date_portion_str, format_ymd, is_valid_ymd, parse_ymd};
use media_organizer::resolve::{
    fallback_to_file_modified_date, read_video_creation_date, resolve_audio_date,
    resolve_photo_date, DateError,
};
use media_organizer::stats::Statistics;
use media_organizer::tags::{AudioTagRead, AudioTimestamp};

#[test]
fn fallback_marks_date_and_counts_once() {
    let mut stats = Statistics::new();
    let modified = Some(String::from("2024-11-10"));
    let r = fallback_to_file_modified_date(&modified, &mut stats).unwrap();
    assert!(r.ends_with(".fallback"));
    assert_eq!(r, "2024-11-10.fallback");
    assert_eq!(stats.get_fallback_counter(), 1);
}

#[test]
fn fallback_without_modified_date_is_an_error() {
    let mut stats = Statistics::new();
    let r = fallback_to_file_modified_date(&None, &mut stats);
    assert_eq!(r, Err(DateError::MissingModifiedDate));
    assert_eq!(stats.get_fallback_counter(), 0);
}

#[test]
fn fallback_on_empty_modified_date_is_the_sentinel() {
    let mut stats = Statistics::new();
    let r = fallback_to_file_modified_date(&Some(String::new()), &mut stats).unwrap();
    assert_eq!(r, "no.date");
    assert_eq!(stats.get_fallback_counter(), 1);
}

#[test]
fn photo_date_taken_from_exif_timestamp() {
    let mut stats = Statistics::new();
    let tag = Some(String::from("2020-02-01 10:11:12"));
    let modified = Some(String::from("2024-01-01"));
    let r = resolve_photo_date(&tag, &modified, &mut stats).unwrap();
    assert_eq!(r, "2020-02-01");
    assert_eq!(stats.get_fallback_counter(), 0);
}

#[test]
fn photo_without_tag_falls_back() {
    let mut stats = Statistics::new();
    let modified = Some(String::from("2024-01-02"));
    let r = resolve_photo_date(&None, &modified, &mut stats).unwrap();
    assert_eq!(r, "2024-01-02.fallback");
    assert_eq!(stats.get_fallback_counter(), 1);
}

#[test]
fn video_date_cut_before_time_separator() {
    let mut stats = Statistics::new();
    let creation = Some(String::from("2021-05-21T08:30:00Z"));
    let r = read_video_creation_date(&creation, &None, &mut stats).unwrap();
    assert_eq!(r, "2021-05-21");
    assert_eq!(stats.get_fallback_counter(), 0);
}

#[test]
fn video_with_empty_creation_time_falls_back() {
    let mut stats = Statistics::new();
    let creation = Some(String::new());
    let modified = Some(String::from("2021-05-21"));
    let r = read_video_creation_date(&creation, &modified, &mut stats).unwrap();
    assert_eq!(r, "2021-05-21.fallback");
    assert_eq!(stats.get_fallback_counter(), 1);
}

#[test]
fn audio_date_from_full_tag() {
    let read = AudioTagRead::Tag(Some(AudioTimestamp {
        year: 2024,
        month: Some(11),
        day: Some(11),
    }));
    let r = resolve_audio_date(&read, &None).unwrap();
    assert_eq!(r, "2024-11-11");
}

#[test]
fn audio_tag_without_month_is_recoverable() {
    let read = AudioTagRead::Tag(Some(AudioTimestamp { year: 2024, month: None, day: Some(3) }));
    assert_eq!(resolve_audio_date(&read, &None), Err(DateError::MetadataUnreadable));
}

#[test]
fn audio_tag_without_date_is_recoverable() {
    assert_eq!(
        resolve_audio_date(&AudioTagRead::Tag(None), &None),
        Err(DateError::MetadataUnreadable)
    );
}

#[test]
fn audio_unreadable_tag_is_recoverable() {
    assert_eq!(
        resolve_audio_date(&AudioTagRead::Unreadable, &None),
        Err(DateError::MetadataUnreadable)
    );
}

#[test]
fn audio_without_tag_container_uses_modified_date() {
    let modified = Some(String::from("2024-11-11"));
    let r = resolve_audio_date(&AudioTagRead::NoTag, &modified).unwrap();
    assert_eq!(r, "2024-11-11");
}

#[test]
fn audio_invalid_calendar_date_is_the_sentinel() {
    let read = AudioTagRead::Tag(Some(AudioTimestamp {
        year: 2023,
        month: Some(2),
        day: Some(29),
    }));
    assert_eq!(resolve_audio_date(&read, &None).unwrap(), "no.date");
}

#[test]
fn leap_day_is_a_valid_date() {
    let read = AudioTagRead::Tag(Some(AudioTimestamp {
        year: 2024,
        month: Some(2),
        day: Some(29),
    }));
    assert_eq!(resolve_audio_date(&read, &None).unwrap(), "2024-02-29");
    assert!(is_valid_ymd(2000, 2, 29));
    assert!(!is_valid_ymd(1900, 2, 29));
    assert!(!is_valid_ymd(2024, 13, 1));
    assert!(!is_valid_ymd(2024, 4, 31));
}

#[test]
fn formatting_pads_components() {
    assert_eq!(format_ymd(33, 2, 1), "0033-02-01");
    assert_eq!(format_ymd(2024, 11, 10), "2024-11-10");
}

#[test]
fn parsing_reads_exact_shape_only() {
    assert_eq!(parse_ymd("2024-11-10"), Some((2024, 11, 10)));
    assert_eq!(parse_ymd("2024-11-10 "), None);
    assert_eq!(parse_ymd("2024/11/10"), None);
    assert_eq!(parse_ymd(""), None);
    assert_eq!(parse_ymd("024-11-100"), None);
}

#[test]
fn date_portion_cuts_at_first_separator() {
    assert_eq!(date_portion_str("2020-02-01 10:11:12"), Some(String::from("2020-02-01")));
    assert_eq!(date_portion_str("2021-05-21T08:30:00Z"), Some(String::from("2021-05-21")));
    assert_eq!(date_portion_str("2021-05-21"), Some(String::from("2021-05-21")));
    assert_eq!(date_portion_str(""), None);
    assert_eq!(date_portion_str(" leading"), None);
}

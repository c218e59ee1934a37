use media_organizer::date::{date_string, parse_resolved, DateSource, ResolvedDate};
use media_organizer::destination::{
    build_destination, make_dir_string, make_file_destination_str, make_video_dir_str,
    MakeFileDestinationError, MetadataProbe,
};
use media_organizer::resolve::DateError;
use media_organizer::stats::Statistics;
use media_organizer::transfer::candidate_file_path;

#[test]
fn dir_string_replaces_hyphens() {
    assert_eq!(make_dir_string("2024-10-22", "tests/test_files"), "tests/test_files/2024/10/22");
    assert_eq!(make_dir_string("2024-10-20", "tests/test_files"), "tests/test_files/2024/10/20");
    assert_eq!(make_dir_string("2024-11-11", "tests/test_files"), "tests/test_files/2024/11/11");
}

#[test]
fn dir_string_strips_the_fallback_marker() {
    assert_eq!(make_dir_string("2021-05-21.fallback", "sorted"), "sorted/2021/05/21");
}

#[test]
fn dir_string_keeps_the_sentinel_as_a_leaf() {
    assert_eq!(make_dir_string("no.date", "sorted"), "sorted/no.date");
}

#[test]
fn photo_scenario_builds_dated_path() {
    let mut stats = Statistics::new();
    let probe = MetadataProbe {
        photo_bytes: None,
        video_creation_time: None,
        modified: Some(String::from("2020-02-01")),
    };
    // the original-capture tag names 2020-02-01; here the modification date
    // carries the same day, and the photo resolver is also driven directly
    // with the tag value below
    let dir = make_file_destination_str("IMG_1.jpg", &probe, "sorted", &mut stats).unwrap();
    assert_eq!(dir, "sorted/2020/02/01");

    let mut stats2 = Statistics::new();
    let tag = Some(String::from("2020-02-01 09:00:00"));
    let date =
        media_organizer::resolve::resolve_photo_date(&tag, &None, &mut stats2).unwrap();
    let dir2 = make_dir_string(&date, "sorted");
    assert_eq!(dir2, "sorted/2020/02/01");
    let full = candidate_file_path(&dir2, "IMG_1.jpg");
    assert_eq!(full, "sorted/2020/02/01/IMG_1.jpg");
    assert_eq!(stats2.get_fallback_counter(), 0);
}

#[test]
fn video_scenario_falls_back_to_modified_date() {
    let mut stats = Statistics::new();
    let probe = MetadataProbe {
        photo_bytes: None,
        video_creation_time: None,
        modified: Some(String::from("2021-05-21")),
    };
    let dir = make_file_destination_str("clip.mp4", &probe, "sorted", &mut stats).unwrap();
    assert_eq!(dir, "sorted/2021/05/21");
    let full = candidate_file_path(&dir, "clip.mp4");
    assert_eq!(full, "sorted/2021/05/21/clip.mp4");
    assert_eq!(stats.get_fallback_counter(), 1);
}

#[test]
fn video_without_any_date_is_an_error() {
    let mut stats = Statistics::new();
    let r = make_video_dir_str(&None, &None, "sorted", &mut stats);
    assert_eq!(r, Err(MakeFileDestinationError::Error(DateError::MissingModifiedDate)));
    assert_eq!(stats.get_fallback_counter(), 0);
}

#[test]
fn resolved_dates_build_the_same_paths() {
    let authoritative = ResolvedDate {
        year: 2020,
        month: 2,
        day: 1,
        source: DateSource::Authoritative,
        valid: true,
    };
    let fallback = ResolvedDate {
        year: 2020,
        month: 2,
        day: 1,
        source: DateSource::FallbackModified,
        valid: true,
    };
    assert_eq!(date_string(&authoritative), "2020-02-01");
    assert_eq!(date_string(&fallback), "2020-02-01.fallback");
    // the source leaves no trace in the destination
    assert_eq!(build_destination("sorted", &authoritative), "sorted/2020/02/01");
    assert_eq!(build_destination("sorted", &fallback), "sorted/2020/02/01");
}

#[test]
fn date_strings_parse_back_to_their_dates() {
    let authoritative = ResolvedDate {
        year: 2024,
        month: 11,
        day: 10,
        source: DateSource::Authoritative,
        valid: true,
    };
    let fallback = ResolvedDate {
        year: 33,
        month: 2,
        day: 1,
        source: DateSource::FallbackModified,
        valid: true,
    };
    assert_eq!(parse_resolved(&date_string(&authoritative)), authoritative);
    assert_eq!(parse_resolved(&date_string(&fallback)), fallback);
    let sentinel = parse_resolved("no.date");
    assert!(!sentinel.valid);
    let garbage = parse_resolved("yesterday");
    assert!(!garbage.valid);
    assert_eq!(parse_resolved("2024-11-10").source, DateSource::Authoritative);
    assert_eq!(parse_resolved("2024-11-10.fallback").source, DateSource::FallbackModified);
}

#[test]
fn dateless_resolution_lands_under_the_sentinel() {
    let none = ResolvedDate {
        year: 0,
        month: 0,
        day: 0,
        source: DateSource::FallbackModified,
        valid: false,
    };
    assert_eq!(date_string(&none), "no.date");
    assert_eq!(build_destination("sorted", &none), "sorted/no.date");
}

use media_organizer::classify::{
    classify, ends_with_type, get_white_list_audio_types, get_white_list_photo_types,
    get_white_list_video_types, is_audio, is_photo, is_video, Category,
};
use media_organizer::destination::{make_file_destination_str, MakeFileDestinationError, MetadataProbe};
use media_organizer::stats::Statistics;

fn empty_probe() -> MetadataProbe {
    MetadataProbe { photo_bytes: None, video_creation_time: None, modified: None }
}

#[test]
fn classify_by_extension() {
    assert_eq!(classify("clip.mp4"), Category::Video);
    assert_eq!(classify("IMG_1.jpg"), Category::Photo);
    assert_eq!(classify("Recording.m4a"), Category::Audio);
    assert_eq!(classify("notes.txt"), Category::Unsupported);
}

#[test]
fn classify_ignores_directories() {
    assert_eq!(classify("some/dir.mp4/file.jpg"), Category::Photo);
    assert_eq!(classify("a/b/c/corgi_race.mp4"), Category::Video);
}

#[test]
fn classify_is_case_sensitive_per_table() {
    assert_eq!(classify("a.JPG"), Category::Photo);
    assert_eq!(classify("a.Jpg"), Category::Unsupported);
    assert_eq!(classify("a.MOV"), Category::Video);
    assert_eq!(classify("a.FLAC"), Category::Audio);
}

#[test]
fn classify_depends_on_the_extension_alone() {
    assert_eq!(classify("holiday.mp4"), classify("work.mp4"));
    // a name that merely ends in the letters of a type, without the dot,
    // carries no known extension
    assert_eq!(classify("xmp4"), Category::Unsupported);
    assert_eq!(classify("archive.tarmp4"), Category::Unsupported);
}

#[test]
fn names_without_extension_are_unsupported() {
    assert_eq!(classify("README"), Category::Unsupported);
    assert_eq!(classify(".hidden"), Category::Unsupported);
    assert_eq!(classify(""), Category::Unsupported);
}

#[test]
fn whitelists_answer_membership() {
    assert!(is_video("v.avi"));
    assert!(is_photo("p.webp"));
    assert!(is_audio("s.wav"));
    assert!(!is_video("p.webp"));
    assert!(!is_photo("v.avi"));
    assert!(!is_audio("v.avi"));
    assert!(ends_with_type(get_white_list_video_types(), "v.mov"));
    assert!(ends_with_type(get_white_list_photo_types(), "p.heic"));
    assert!(ends_with_type(get_white_list_audio_types(), "s.aiff"));
    assert!(!ends_with_type(get_white_list_video_types(), "s.aiff"));
}

#[test]
fn unsupported_file_never_reaches_a_resolver() {
    let mut stats = Statistics::new();
    let probe = empty_probe();
    let r = make_file_destination_str("report.pdf", &probe, "sorted", &mut stats);
    match r {
        Err(MakeFileDestinationError::UnsupportedType(ext)) => assert_eq!(ext, "pdf"),
        other => panic!("expected an unsupported type, got {:?}", other),
    }
    // no resolver ran: nothing was counted
    assert_eq!(stats.get_fallback_counter(), 0);
    assert_eq!(stats.get_ignored_file_counter(), 0);
}

#[test]
fn unsupported_file_without_extension_reports_empty() {
    let mut stats = Statistics::new();
    let probe = empty_probe();
    let r = make_file_destination_str("Makefile", &probe, "sorted", &mut stats);
    match r {
        Err(MakeFileDestinationError::UnsupportedType(ext)) => assert_eq!(ext, ""),
        other => panic!("expected an unsupported type, got {:?}", other),
    }
}

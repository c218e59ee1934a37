use media_organizer::audio_details::{
    format_date, get_artist, get_duration, get_release_date, read_audio_info, AudioInfo,
};
use media_organizer::destination::{make_audio_dir_str, MakeFileDestinationError};
use media_organizer::resolve::{
    read_audio_creation_date, read_photo_creation_date, synthesize_and_persist_date, DateError,
};
use media_organizer::stats::Statistics;
use media_organizer::tags::{AudioTag, AudioTimestamp};

/// A minimal TIFF image whose Exif block names an original-capture time of
/// `2020:02:01 10:11:12`.
fn tiff_with_datetime_original() -> Vec<u8> {
    let mut b: Vec<u8> = Vec::new();
    // header: little-endian TIFF, first IFD at offset 8
    b.extend_from_slice(&[0x49, 0x49, 0x2A, 0x00, 0x08, 0x00, 0x00, 0x00]);
    // IFD0: one entry, the Exif IFD pointer (0x8769) to offset 26
    b.extend_from_slice(&[0x01, 0x00]);
    b.extend_from_slice(&[0x69, 0x87, 0x04, 0x00, 0x01, 0x00, 0x00, 0x00, 0x1A, 0x00, 0x00, 0x00]);
    b.extend_from_slice(&[0x00, 0x00, 0x00, 0x00]);
    // Exif IFD: one entry, DateTimeOriginal (0x9003), ASCII, 20 bytes at offset 44
    b.extend_from_slice(&[0x01, 0x00]);
    b.extend_from_slice(&[0x03, 0x90, 0x02, 0x00, 0x14, 0x00, 0x00, 0x00, 0x2C, 0x00, 0x00, 0x00]);
    b.extend_from_slice(&[0x00, 0x00, 0x00, 0x00]);
    b.extend_from_slice(b"2020:02:01 10:11:12\0");
    b
}

#[test]
fn photo_date_read_from_real_exif_bytes() {
    let bytes = tiff_with_datetime_original();
    let mut stats = Statistics::new();
    let r = read_photo_creation_date(&bytes, &None, &mut stats).unwrap();
    assert_eq!(r, "2020-02-01");
    assert_eq!(stats.get_fallback_counter(), 0);
}

#[test]
fn unreadable_photo_bytes_fall_back() {
    let bytes: Vec<u8> = vec![0, 1, 2, 3];
    let mut stats = Statistics::new();
    let modified = Some(String::from("2024-11-10"));
    let r = read_photo_creation_date(&bytes, &modified, &mut stats).unwrap();
    assert_eq!(r, "2024-11-10.fallback");
    assert_eq!(stats.get_fallback_counter(), 1);
}

#[test]
fn missing_audio_file_is_a_recoverable_error() {
    let modified = Some(String::from("2024-11-11"));
    let r = read_audio_creation_date("/tmp/media_organizer_absent_file.mp3", &modified);
    assert_eq!(r, Err(DateError::MetadataUnreadable));
}

#[test]
fn missing_audio_file_gets_no_directory() {
    let modified = Some(String::from("2024-11-11"));
    let r = make_audio_dir_str("/tmp/media_organizer_absent_file.mp3", &modified, "sorted");
    assert_eq!(r, Err(MakeFileDestinationError::Error(DateError::MetadataUnreadable)));
}

#[test]
fn synthesis_needs_a_modification_date() {
    let r = synthesize_and_persist_date("/tmp/media_organizer_absent_file.mp3", &None);
    assert_eq!(r, Err(DateError::MissingModifiedDate));
    let r2 = synthesize_and_persist_date(
        "/tmp/media_organizer_absent_file.mp3",
        &Some(String::from("not a date")),
    );
    assert_eq!(r2, Err(DateError::MetadataUnreadable));
}

#[test]
fn synthesis_on_a_missing_file_fails_recoverably() {
    let r = synthesize_and_persist_date(
        "/tmp/media_organizer_absent_file.mp3",
        &Some(String::from("2024-11-11")),
    );
    assert_eq!(r, Err(DateError::MetadataUnreadable));
}

#[test]
fn missing_audio_file_yields_no_info() {
    assert!(read_audio_info("/tmp/media_organizer_absent_file.mp3").is_none());
}

#[test]
fn audio_info_fills_defaults() {
    let tag = AudioTag {
        date_recorded: Some(AudioTimestamp { year: 2024, month: Some(11), day: Some(11) }),
        artist: None,
        title: Some(String::from("Morning")),
        album: None,
        duration: Some(73),
        released: None,
        genre: None,
    };
    let info = AudioInfo::new(&tag);
    assert_eq!(info.creation_date, "2024-11-11");
    assert_eq!(info.artist, "Unknown Artist");
    assert_eq!(info.title, "Morning");
    assert_eq!(info.album, "Unknown Album");
    assert_eq!(info.duration, "73 seconds");
    assert_eq!(info.released, "0000-01-01");
    assert_eq!(info.genre, "Unknown Genre");
}

#[test]
fn stamp_formatting_defaults_missing_parts_to_one() {
    assert_eq!(
        format_date(AudioTimestamp { year: 2024, month: None, day: None }),
        "2024-01-01"
    );
    assert_eq!(
        format_date(AudioTimestamp { year: 5, month: Some(9), day: Some(30) }),
        "0005-09-30"
    );
}

#[test]
fn audio_field_defaults() {
    let tag = AudioTag {
        date_recorded: None,
        artist: Some(String::from("Someone")),
        title: None,
        album: None,
        duration: None,
        released: Some(AudioTimestamp { year: 1999, month: Some(12), day: None }),
        genre: None,
    };
    assert_eq!(get_artist(&tag), "Someone");
    assert_eq!(get_duration(&tag), "0 seconds");
    assert_eq!(get_release_date(&tag), "1999-12-01");
}

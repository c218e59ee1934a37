//! The metadata collaborators, behind trusted wrappers: the EXIF reader for
//! photos, the ID3 tag reader and writer for audio, and the filesystem
//! permission probe. Each wrapper only converts between the outside crate's
//! values and plain values of this library.

use vstd::prelude::*;
use faccess::PathExt;
use id3::TagLike;

verus! {

/// A recorded-date stamp as an audio tag carries it: a year, and a month and
/// day that the tag may leave out.
#[derive(Clone, Copy, Debug, PartialEq, Eq)]
pub struct AudioTimestamp {
    pub year: i32,
    pub month: Option<u8>,
    pub day: Option<u8>,
}

/// Builds an [`AudioTimestamp`] from its parts.
pub fn stamp(year: i32, month: Option<u8>, day: Option<u8>) -> (r: AudioTimestamp)
    ensures
        r.year == year,
        r.month == month,
        r.day == day,
{
    AudioTimestamp { year, month, day }
}

/// The outcome of reading an audio file's tag container: a tag with its
/// optional recorded date, no tag container at all, or any other failure.
#[derive(Clone, Copy, Debug, PartialEq, Eq)]
pub enum AudioTagRead {
    Tag(Option<AudioTimestamp>),
    NoTag,
    Unreadable,
}

/// Every descriptive field an audio tag offers, as plain values.
#[derive(Clone, Debug)]
pub struct AudioTag {
    pub date_recorded: Option<AudioTimestamp>,
    pub artist: Option<String>,
    pub title: Option<String>,
    pub album: Option<String>,
    pub duration: Option<u32>,
    pub released: Option<AudioTimestamp>,
    pub genre: Option<String>,
}

/// What the EXIF collaborator shows for the original-capture timestamp of an
/// image with the given bytes: a pure function of the bytes alone.
pub uninterp spec fn exif_original_datetime_of(bytes: Seq<u8>) -> Option<Seq<char>>;

/// Relies on exif::Reader::read_from_container, Exif::get_field and
/// Field::display_value: the DateTimeOriginal field of the primary image in
/// the crate's tag-specific format (`YYYY-MM-DD HH:MM:SS` for a well-formed
/// field), or nothing when the bytes cannot be parsed or carry no such
/// field. The result depends on the bytes alone.
#[verifier::external_body]
pub(crate) fn exif_original_datetime(bytes: &Vec<u8>) -> (r: Option<String>)
    ensures
        match r {
            Some(s) => exif_original_datetime_of(bytes@) == Some(s@),
            None => exif_original_datetime_of(bytes@) is None,
        },
{
    let mut cursor = std::io::Cursor::new(bytes.as_slice());
    let parsed = exif::Reader::new().read_from_container(&mut cursor).ok()?;
    let field = parsed.get_field(exif::Tag::DateTimeOriginal, exif::In::PRIMARY)?;
    Some(field.display_value().to_string())
}

/// Relies on id3::Tag::read_from_path and TagLike::date_recorded: reads the
/// ID3 tag of the file at `path` and hands out its recorded date, telling a
/// missing tag container apart from any other failure. The result depends on
/// what is on disk, so nothing is promised of it.
#[verifier::external_body]
pub(crate) fn read_audio_tag(path: &str) -> (r: AudioTagRead)
{
    match id3::Tag::read_from_path(path) {
        Ok(tag) => AudioTagRead::Tag(tag.date_recorded().map(|t| stamp(t.year, t.month, t.day))),
        Err(e) => match e.kind {
            id3::ErrorKind::NoTag => AudioTagRead::NoTag,
            _ => AudioTagRead::Unreadable,
        },
    }
}

/// Relies on id3::Tag::read_from_path and TagLike's accessors: copies every
/// descriptive field of the tag out as plain values, or nothing when the tag
/// cannot be read. The result depends on what is on disk.
#[verifier::external_body]
pub(crate) fn read_audio_tag_fields(path: &str) -> (r: Option<AudioTag>)
{
    let tag = id3::Tag::read_from_path(path).ok()?;
    Some(AudioTag {
        date_recorded: tag.date_recorded().map(|t| stamp(t.year, t.month, t.day)),
        artist: tag.artist().map(|s| s.to_string()),
        title: tag.title().map(|s| s.to_string()),
        album: tag.album().map(|s| s.to_string()),
        duration: tag.duration(),
        released: tag.date_released().map(|t| stamp(t.year, t.month, t.day)),
        genre: tag.genre().map(|s| s.to_string()),
    })
}

/// Relies on id3::Tag::write_to_path and TagLike::set_date_recorded: writes a
/// fresh ID3v2.4 tag whose recorded date is the given stamp onto the file at
/// `path`, and reports whether the write succeeded.
#[verifier::external_body]
pub(crate) fn write_audio_date_tag(path: &str, year: i32, month: u8, day: u8) -> (r: bool)
{
    let ts = id3::Timestamp {
        year,
        month: Some(month),
        day: Some(day),
        hour: None,
        minute: None,
        second: None,
    };
    let mut tag = id3::Tag::new();
    tag.set_date_recorded(ts);
    tag.write_to_path(path, id3::Version::Id3v24).is_ok()
}

/// Relies on faccess::PathExt::writable: whether the process may write to the
/// file at `path`. The answer depends on the filesystem.
#[verifier::external_body]
pub(crate) fn path_writable(path: &str) -> (r: bool)
{
    std::path::Path::new(path).writable()
}

} // verus!

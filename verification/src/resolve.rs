//! Date resolution per media category: an authoritative date is taken from
//! embedded metadata; when none can be had, the file's modification date
//! steps in, marked with `.fallback` and counted. A date that cannot be
//! produced at all becomes the `no.date` sentinel.

use vstd::prelude::*;
use vstd::string::*;
use crate::date::{
    date_portion, date_portion_str, format_ymd, is_valid_ymd, is_ymd_shape, parse_ymd,
    parsed_day, parsed_month, parsed_year, valid_ymd, ymd_seq,
};
use crate::stats::Statistics;
use crate::tags::{
    exif_original_datetime, exif_original_datetime_of, read_audio_tag, write_audio_date_tag,
    AudioTagRead,
};

verus! {

/// Why a date could not be resolved. Every case is recoverable: the file is
/// reported and the batch goes on.
#[derive(Clone, Copy, Debug, PartialEq, Eq, Structural)]
pub enum DateError {
    /// The filesystem offered no modification date to fall back on.
    MissingModifiedDate,
    /// The metadata was present but unusable: an unreadable container, or a
    /// recorded date without a usable year, month and day.
    MetadataUnreadable,
}

/// The characters of an optional string.
pub open spec fn opt_view(o: Option<String>) -> Option<Seq<char>> {
    match o {
        Some(s) => Some(s@),
        None => None,
    }
}

/// The characters of a resolution result.
pub open spec fn res_view(r: Result<String, DateError>) -> Result<Seq<char>, DateError> {
    match r {
        Ok(s) => Ok(s@),
        Err(e) => Err(e),
    }
}

/// What falling back to the modification date yields: the date portion with
/// a `.fallback` marker, the `no.date` sentinel when the modification string
/// holds no date portion, and an error when there is no modification date.
pub open spec fn spec_fallback_date(modified: Option<Seq<char>>) -> Result<Seq<char>, DateError> {
    match modified {
        None => Err(DateError::MissingModifiedDate),
        Some(s) => match date_portion(s) {
            Some(d) => Ok(d + ".fallback"@),
            None => Ok("no.date"@),
        },
    }
}

/// Resolves a date from the file's modification date, marking it as a
/// fallback. The fallback counter grows by exactly one whenever a date
/// string is produced, and not otherwise.
pub fn fallback_to_file_modified_date(modified: &Option<String>, stats: &mut Statistics) -> (r:
    Result<String, DateError>)
    requires
        old(stats).fallback < usize::MAX,
    ensures
        res_view(r) == spec_fallback_date(opt_view(*modified)),
        r is Ok ==> *final(stats) == (Statistics {
            fallback: (old(stats).fallback + 1) as usize,
            ..*old(stats)
        }),
        r is Err ==> *final(stats) == *old(stats),
{
    match modified {
        None => Err(DateError::MissingModifiedDate),
        Some(s) => {
            let out: String = match date_portion_str(s.as_str()) {
                Some(d) => {
                    let mut marked = d;
                    marked.append(".fallback");
                    marked
                },
                None => String::from_str("no.date"),
            };
            stats.increment_fallback_counter();
            Ok(out)
        },
    }
}

/// A fallback-resolved date string is always marked: it either closes with
/// the `.fallback` suffix or is the `no.date` sentinel, so a reader can
/// always tell a fallback date from an authoritative one.
pub proof fn lemma_fallback_marked(modified: Option<Seq<char>>)
    ensures
        match spec_fallback_date(modified) {
            Ok(s) => s == "no.date"@ || (s.len() >= ".fallback"@.len() && s.skip(
                s.len() - ".fallback"@.len(),
            ) == ".fallback"@),
            Err(_) => true,
        },
{
    reveal_strlit(".fallback");
    reveal_strlit("no.date");
    match modified {
        Some(s) => match date_portion(s) {
            Some(d) => {
                let marked = d + ".fallback"@;
                assert(marked.skip(marked.len() - ".fallback"@.len()) =~= ".fallback"@);
            },
            None => {},
        },
        None => {},
    }
}

/// What resolving from an optional metadata timestamp yields: the date
/// portion of the timestamp when it has one, else the fallback result.
pub open spec fn spec_resolve_tagged(tag: Option<Seq<char>>, modified: Option<Seq<char>>) -> Result<
    Seq<char>,
    DateError,
> {
    match tag {
        Some(t) => match date_portion(t) {
            Some(d) => Ok(d),
            None => spec_fallback_date(modified),
        },
        None => spec_fallback_date(modified),
    }
}

/// Whether resolving from `tag` must take the fallback path.
pub open spec fn tagged_uses_fallback(tag: Option<Seq<char>>) -> bool {
    match tag {
        Some(t) => date_portion(t) is None,
        None => true,
    }
}

/// Resolves a date from an optional metadata timestamp string, falling back
/// to the modification date when the timestamp is absent or holds no date
/// portion. The fallback counter grows exactly when the fallback path
/// produces a date string.
pub fn resolve_tagged_date(tag: &Option<String>, modified: &Option<String>, stats: &mut Statistics)
    -> (r: Result<String, DateError>)
    requires
        old(stats).fallback < usize::MAX,
    ensures
        res_view(r) == spec_resolve_tagged(opt_view(*tag), opt_view(*modified)),
        tagged_uses_fallback(opt_view(*tag)) && r is Ok ==> *final(stats) == (Statistics {
            fallback: (old(stats).fallback + 1) as usize,
            ..*old(stats)
        }),
        !(tagged_uses_fallback(opt_view(*tag)) && r is Ok) ==> *final(stats) == *old(stats),
{
    match tag {
        Some(t) => match date_portion_str(t.as_str()) {
            Some(d) => Ok(d),
            None => fallback_to_file_modified_date(modified, stats),
        },
        None => fallback_to_file_modified_date(modified, stats),
    }
}

/// Resolves a photo's creation date from the shown EXIF original-capture
/// timestamp, with the common fallback.
pub fn resolve_photo_date(tag: &Option<String>, modified: &Option<String>, stats: &mut Statistics)
    -> (r: Result<String, DateError>)
    requires
        old(stats).fallback < usize::MAX,
    ensures
        res_view(r) == spec_resolve_tagged(opt_view(*tag), opt_view(*modified)),
        tagged_uses_fallback(opt_view(*tag)) && r is Ok ==> *final(stats) == (Statistics {
            fallback: (old(stats).fallback + 1) as usize,
            ..*old(stats)
        }),
        !(tagged_uses_fallback(opt_view(*tag)) && r is Ok) ==> *final(stats) == *old(stats),
{
    resolve_tagged_date(tag, modified, stats)
}

/// Reads a photo's creation date from the EXIF metadata in `bytes`, falling
/// back to the modification date when the bytes carry no usable timestamp.
pub fn read_photo_creation_date(bytes: &Vec<u8>, modified: &Option<String>, stats: &mut Statistics)
    -> (r: Result<String, DateError>)
    requires
        old(stats).fallback < usize::MAX,
    ensures
        res_view(r) == spec_resolve_tagged(exif_original_datetime_of(bytes@), opt_view(*modified)),
        tagged_uses_fallback(exif_original_datetime_of(bytes@)) && r is Ok ==> *final(stats)
            == (Statistics { fallback: (old(stats).fallback + 1) as usize, ..*old(stats) }),
        !(tagged_uses_fallback(exif_original_datetime_of(bytes@)) && r is Ok) ==> *final(stats)
            == *old(stats),
{
    let tag = exif_original_datetime(bytes);
    resolve_photo_date(&tag, modified, stats)
}

/// Resolves a video's creation date from the container's creation-time
/// value, with the common fallback. An empty creation-time value counts as
/// absent.
pub fn read_video_creation_date(
    creation_time: &Option<String>,
    modified: &Option<String>,
    stats: &mut Statistics,
) -> (r: Result<String, DateError>)
    requires
        old(stats).fallback < usize::MAX,
    ensures
        res_view(r) == spec_resolve_tagged(opt_view(*creation_time), opt_view(*modified)),
        tagged_uses_fallback(opt_view(*creation_time)) && r is Ok ==> *final(stats) == (Statistics {
            fallback: (old(stats).fallback + 1) as usize,
            ..*old(stats)
        }),
        !(tagged_uses_fallback(opt_view(*creation_time)) && r is Ok) ==> *final(stats) == *old(
            stats,
        ),
{
    resolve_tagged_date(creation_time, modified, stats)
}

/// The audio date string for components read from a tag: `YYYY-MM-DD` when
/// they name a proper calendar date, the `no.date` sentinel otherwise.
pub open spec fn audio_date_seq(y: int, m: int, d: int) -> Seq<char> {
    if valid_ymd(y, m, d) {
        ymd_seq(y as nat, m as nat, d as nat)
    } else {
        "no.date"@
    }
}

/// What resolving an audio file's recorded date yields. A tag with a full
/// recorded date resolves to that date; a file without any tag container
/// resolves to the modification date, reformatted; a tag whose recorded date
/// is absent or lacks its month or day is unusable and reported as a
/// recoverable error, so that one corrupt file never aborts a batch.
pub open spec fn spec_resolve_audio(read: AudioTagRead, modified: Option<Seq<char>>) -> Result<
    Seq<char>,
    DateError,
> {
    match read {
        AudioTagRead::Tag(stamp_opt) => match stamp_opt {
            Some(ts) => match (ts.month, ts.day) {
                (Some(m), Some(d)) => Ok(audio_date_seq(ts.year as int, m as int, d as int)),
                _ => Err(DateError::MetadataUnreadable),
            },
            None => Err(DateError::MetadataUnreadable),
        },
        AudioTagRead::NoTag => match modified {
            None => Err(DateError::MissingModifiedDate),
            Some(s) => if is_ymd_shape(s) {
                Ok(audio_date_seq(parsed_year(s), parsed_month(s), parsed_day(s)))
            } else {
                Err(DateError::MetadataUnreadable)
            },
        },
        AudioTagRead::Unreadable => Err(DateError::MetadataUnreadable),
    }
}

/// Formats the audio date for checked components.
fn format_audio_date(y: u32, m: u32, d: u32) -> (r: String)
    ensures
        r@ == audio_date_seq(y as int, m as int, d as int),
{
    if is_valid_ymd(y, m, d) {
        format_ymd(y, m, d)
    } else {
        String::from_str("no.date")
    }
}

/// Resolves an audio file's creation date from the outcome of reading its
/// tag. Audio resolution never marks a fallback: a date synthesized from the
/// modification date is written as a plain date, as the tag writer would
/// record it.
pub fn resolve_audio_date(read: &AudioTagRead, modified: &Option<String>) -> (r: Result<
    String,
    DateError,
>)
    ensures
        res_view(r) == spec_resolve_audio(*read, opt_view(*modified)),
{
    match read {
        AudioTagRead::Tag(stamp_opt) => match stamp_opt {
            Some(ts) => match (ts.month, ts.day) {
                (Some(m), Some(d)) => {
                    if ts.year < 0 {
                        Ok(String::from_str("no.date"))
                    } else {
                        Ok(format_audio_date(ts.year as u32, m as u32, d as u32))
                    }
                },
                _ => Err(DateError::MetadataUnreadable),
            },
            None => Err(DateError::MetadataUnreadable),
        },
        AudioTagRead::NoTag => match modified {
            None => Err(DateError::MissingModifiedDate),
            Some(s) => match parse_ymd(s.as_str()) {
                Some((y, m, d)) => Ok(format_audio_date(y, m, d)),
                None => Err(DateError::MetadataUnreadable),
            },
        },
        AudioTagRead::Unreadable => Err(DateError::MetadataUnreadable),
    }
}

/// Reads an audio file's creation date: the tag at `path` is read and its
/// recorded date resolved, with a file that has no tag container at all
/// resolving to the modification date. Reading never writes the tag back;
/// see [`synthesize_and_persist_date`] for the opt-in write.
pub fn read_audio_creation_date(path: &str, modified: &Option<String>) -> (r: Result<
    String,
    DateError,
>)
    ensures
        exists|read: AudioTagRead| res_view(r) == spec_resolve_audio(read, opt_view(*modified)),
        r == Result::<String, DateError>::Err(DateError::MissingModifiedDate) ==> opt_view(
            *modified,
        ) is None,
{
    let read = read_audio_tag(path);
    let r = resolve_audio_date(&read, modified);
    proof {
        assert(res_view(r) == spec_resolve_audio(read, opt_view(*modified)));
    }
    r
}

/// The opt-in counterpart of tag synthesis: stamps the file at `path` with a
/// recorded date taken from its modification date. Nothing else ever writes
/// to a source file; in particular, reading a date never does.
pub fn synthesize_and_persist_date(path: &str, modified: &Option<String>) -> (r: Result<
    (),
    DateError,
>)
    ensures
        (r == Result::<(), DateError>::Err(DateError::MissingModifiedDate)) <==> opt_view(
            *modified,
        ) is None,
        (match opt_view(*modified) {
            Some(s) => !is_ymd_shape(s),
            None => false,
        }) ==> r == Result::<(), DateError>::Err(DateError::MetadataUnreadable),
        r is Ok ==> (match opt_view(*modified) {
            Some(s) => is_ymd_shape(s),
            None => false,
        }),
{
    match modified {
        None => Err(DateError::MissingModifiedDate),
        Some(s) => match parse_ymd(s.as_str()) {
            Some((y, m, d)) => {
                if write_audio_date_tag(path, y as i32, m as u8, d as u8) {
                    Ok(())
                } else {
                    Err(DateError::MetadataUnreadable)
                }
            },
            None => Err(DateError::MetadataUnreadable),
        },
    }
}

} // verus!

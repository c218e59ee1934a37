//! Building the destination directory for a resolved date: the fallback and
//! sentinel markers are stripped, the date's hyphens become path separators,
//! and the result hangs under the destination root as `root/YYYY/MM/DD` (or
//! `root/no.date` when no date could be produced).

use vstd::prelude::*;
use vstd::string::*;
use crate::classify::{is_audio, is_photo, is_video, spec_classify, Category};
use crate::date::{date_string, date_string_of, DateSource, ResolvedDate};
use crate::resolve::{
    opt_view, read_photo_creation_date, read_video_creation_date, resolve_audio_date,
    resolve_photo_date, spec_resolve_audio, spec_resolve_tagged, tagged_uses_fallback, DateError,
};
use crate::stats::Statistics;
use crate::tags::{exif_original_datetime_of, AudioTagRead};
use crate::text::{
    ends_with_str, is_digit_char, lemma_padded_dec_digits, padded_dec, path_extension,
};

verus! {

/// `date` with a closing `.fallback` marker removed, when one is present.
pub open spec fn strip_fallback(date: Seq<char>) -> Seq<char> {
    if ".fallback"@.len() <= date.len() && date.skip(date.len() - ".fallback"@.len())
        == ".fallback"@ {
        date.take(date.len() - ".fallback"@.len())
    } else {
        date
    }
}

/// `s` with every hyphen replaced by the path separator.
pub open spec fn hyphens_to_separators(s: Seq<char>) -> Seq<char> {
    Seq::new(s.len(), |i: int| if s[i] == '-' { '/' } else { s[i] })
}

/// The destination directory for the date string `date` under `dest_root`.
pub open spec fn dir_string_of(dest_root: Seq<char>, date: Seq<char>) -> Seq<char> {
    dest_root + seq!['/'] + hyphens_to_separators(strip_fallback(date))
}

/// Turns a resolved date string into the destination directory under
/// `dest_root`: markers are stripped and date separators become path
/// separators.
pub fn make_dir_string(date: &str, dest_root: &str) -> (r: String)
    ensures
        r@ == dir_string_of(dest_root@, date@),
{
    proof {
        reveal_strlit(".fallback");
        reveal_strlit("/");
    }
    let n: usize = date.unicode_len();
    let stripped: &str = if ends_with_str(date, ".fallback") {
        date.substring_char(0, n - 9)
    } else {
        date
    };
    proof {
        assert(stripped@ == strip_fallback(date@));
    }
    let m: usize = stripped.unicode_len();
    let mut out = String::from_str(dest_root);
    out.append("/");
    proof {
        assert(out@ =~= dest_root@ + seq!['/']);
        assert(hyphens_to_separators(stripped@.take(0)) =~= Seq::<char>::empty());
        assert(out@ =~= dest_root@ + seq!['/'] + hyphens_to_separators(stripped@.take(0)));
    }
    let mut i: usize = 0;
    let mut seg: usize = 0;
    while i < m
        invariant
            m == stripped@.len(),
            seg <= i <= m,
            out@ == dest_root@ + seq!['/'] + hyphens_to_separators(stripped@.take(seg as int)),
            forall|j: int| seg <= j < i ==> stripped@[j] != '-',
        decreases m - i,
    {
        if stripped.get_char(i) == '-' {
            out.append(stripped.substring_char(seg, i));
            out.append("/");
            proof {
                reveal_strlit("/");
                assert(hyphens_to_separators(stripped@.take(i + 1))
                    =~= hyphens_to_separators(stripped@.take(seg as int)) + stripped@.subrange(
                    seg as int,
                    i as int,
                ) + seq!['/']);
                assert(out@ =~= dest_root@ + seq!['/'] + hyphens_to_separators(
                    stripped@.take(i + 1),
                ));
            }
            seg = i + 1;
        }
        i += 1;
    }
    out.append(stripped.substring_char(seg, m));
    proof {
        assert(hyphens_to_separators(stripped@) =~= hyphens_to_separators(
            stripped@.take(seg as int),
        ) + stripped@.subrange(seg as int, m as int));
        assert(out@ =~= dest_root@ + seq!['/'] + hyphens_to_separators(stripped@));
    }
    out
}

/// The destination directory for a resolved date under `dest_root`, stated
/// over the date's components: the date's source leaves no trace.
pub open spec fn destination_of(dest_root: Seq<char>, rd: ResolvedDate) -> Seq<char> {
    if rd.valid {
        dest_root + seq!['/'] + padded_dec(rd.year as nat, 4) + seq!['/'] + padded_dec(
            rd.month as nat,
            2,
        ) + seq!['/'] + padded_dec(rd.day as nat, 2)
    } else {
        dest_root + seq!['/'] + "no.date"@
    }
}

/// The destination directory is a pure function of the root and the resolved
/// date's year, month, day and validity: the fallback marker carried by the
/// date string is stripped, so the date's source does not affect placement.
pub proof fn lemma_destination_pure(dest_root: Seq<char>, rd: ResolvedDate)
    ensures
        dir_string_of(dest_root, date_string_of(rd)) == destination_of(dest_root, rd),
{
    reveal_strlit(".fallback");
    reveal_strlit("no.date");
    lemma_padded_dec_digits(rd.year as nat, 4);
    lemma_padded_dec_digits(rd.month as nat, 2);
    lemma_padded_dec_digits(rd.day as nat, 2);
    let ymd = crate::date::ymd_seq(rd.year as nat, rd.month as nat, rd.day as nat);
    assert(ymd.len() >= 10);
    if !rd.valid {
        let date = "no.date"@;
        assert(date.len() == 7 < ".fallback"@.len());
        assert(strip_fallback(date) == date);
        assert(hyphens_to_separators(date) =~= date);
        assert(dir_string_of(dest_root, date) =~= destination_of(dest_root, rd));
    } else {
        assert(is_digit_char(ymd[ymd.len() - 1]));
        if rd.source == DateSource::Authoritative {
            let date = date_string_of(rd);
            assert(date == ymd);
            assert(date[date.len() - 1] != 'k');
            assert(".fallback"@[".fallback"@.len() - 1] == 'k');
            assert(date.skip(date.len() - ".fallback"@.len()) != ".fallback"@) by {
                let suf = date.skip(date.len() - ".fallback"@.len());
                assert(suf[suf.len() - 1] == date[date.len() - 1]);
            }
            assert(strip_fallback(date) == ymd);
        } else {
            let date = date_string_of(rd);
            assert(date == ymd + ".fallback"@);
            assert(date.skip(date.len() - ".fallback"@.len()) =~= ".fallback"@);
            assert(strip_fallback(date) =~= ymd);
        }
        assert(hyphens_to_separators(ymd) =~= padded_dec(rd.year as nat, 4) + seq!['/']
            + padded_dec(rd.month as nat, 2) + seq!['/'] + padded_dec(rd.day as nat, 2));
        assert(dir_string_of(dest_root, date_string_of(rd)) =~= destination_of(dest_root, rd));
    }
}

/// Builds the destination directory for a resolved date under `dest_root`.
pub fn build_destination(dest_root: &str, rd: &ResolvedDate) -> (r: String)
    ensures
        r@ == destination_of(dest_root@, *rd),
{
    let date = date_string(rd);
    let r = make_dir_string(date.as_str(), dest_root);
    proof {
        lemma_destination_pure(dest_root@, *rd);
    }
    r
}

/// Why no destination directory could be made for a file.
#[derive(Clone, Debug, PartialEq, Eq)]
pub enum MakeFileDestinationError {
    /// No whitelist knows the file's extension; the extension is carried for
    /// the final report (empty when the file has none).
    UnsupportedType(String),
    /// The file is a known media type but its date could not be resolved.
    Error(DateError),
}

/// What the metadata collaborators returned for one file, gathered before the
/// destination is decided. Only the field for the file's own category
/// matters.
pub struct MetadataProbe {
    /// The file's bytes, for the EXIF reader (photos).
    pub photo_bytes: Option<Vec<u8>>,
    /// The container's creation-time value (videos).
    pub video_creation_time: Option<String>,
    /// The file's modification date, for fallbacks and audio synthesis.
    pub modified: Option<String>,
}

/// The EXIF timestamp that optional photo bytes show.
pub open spec fn photo_tag_of(bytes: Option<Vec<u8>>) -> Option<Seq<char>> {
    match bytes {
        Some(b) => exif_original_datetime_of(b@),
        None => None,
    }
}

/// The destination directory for a photo, from the date its EXIF metadata
/// resolves to.
pub fn make_photo_dir_str(
    bytes: &Option<Vec<u8>>,
    modified: &Option<String>,
    dest_root: &str,
    stats: &mut Statistics,
) -> (r: Result<String, MakeFileDestinationError>)
    requires
        old(stats).fallback < usize::MAX,
    ensures
        (match spec_resolve_tagged(photo_tag_of(*bytes), opt_view(*modified)) {
            Ok(date) => (r matches Ok(dir) && dir@ == dir_string_of(dest_root@, date)),
            Err(e) => r == Err::<String, MakeFileDestinationError>(
                MakeFileDestinationError::Error(e),
            ),
        }),
        tagged_uses_fallback(photo_tag_of(*bytes)) && r is Ok ==> *final(stats) == (Statistics {
            fallback: (old(stats).fallback + 1) as usize,
            ..*old(stats)
        }),
        !(tagged_uses_fallback(photo_tag_of(*bytes)) && r is Ok) ==> *final(stats) == *old(stats),
{
    let resolved = match bytes {
        Some(b) => read_photo_creation_date(b, modified, stats),
        None => resolve_photo_date(&None, modified, stats),
    };
    match resolved {
        Ok(date) => Ok(make_dir_string(date.as_str(), dest_root)),
        Err(e) => Err(MakeFileDestinationError::Error(e)),
    }
}

/// The destination directory for a video, from the date its container
/// metadata resolves to.
pub fn make_video_dir_str(
    creation_time: &Option<String>,
    modified: &Option<String>,
    dest_root: &str,
    stats: &mut Statistics,
) -> (r: Result<String, MakeFileDestinationError>)
    requires
        old(stats).fallback < usize::MAX,
    ensures
        (match spec_resolve_tagged(opt_view(*creation_time), opt_view(*modified)) {
            Ok(date) => (r matches Ok(dir) && dir@ == dir_string_of(dest_root@, date)),
            Err(e) => r == Err::<String, MakeFileDestinationError>(
                MakeFileDestinationError::Error(e),
            ),
        }),
        tagged_uses_fallback(opt_view(*creation_time)) && r is Ok ==> *final(stats) == (Statistics {
            fallback: (old(stats).fallback + 1) as usize,
            ..*old(stats)
        }),
        !(tagged_uses_fallback(opt_view(*creation_time)) && r is Ok) ==> *final(stats) == *old(
            stats,
        ),
{
    match read_video_creation_date(creation_time, modified, stats) {
        Ok(date) => Ok(make_dir_string(date.as_str(), dest_root)),
        Err(e) => Err(MakeFileDestinationError::Error(e)),
    }
}

/// Whether `r` is the destination result that the audio resolution `read`
/// leads to under `dest_root`.
pub open spec fn audio_dir_result(
    read: AudioTagRead,
    modified: Option<Seq<char>>,
    dest_root: Seq<char>,
    r: Result<String, MakeFileDestinationError>,
) -> bool {
    match spec_resolve_audio(read, modified) {
        Ok(date) => (r matches Ok(dir) && dir@ == dir_string_of(dest_root, date)),
        Err(e) => r == Err::<String, MakeFileDestinationError>(MakeFileDestinationError::Error(e)),
    }
}

/// The destination directory for an audio file, from the date its tag
/// resolves to. The tag at `path` is read here; audio never marks a
/// fallback.
pub fn make_audio_dir_str(
    path: &str,
    modified: &Option<String>,
    dest_root: &str,
) -> (r: Result<String, MakeFileDestinationError>)
    ensures
        exists|read: AudioTagRead| #[trigger] audio_dir_result(read, opt_view(*modified), dest_root@, r),
{
    let read = crate::tags::read_audio_tag(path);
    let resolved = resolve_audio_date(&read, modified);
    let r = match resolved {
        Ok(date) => Ok(make_dir_string(date.as_str(), dest_root)),
        Err(e) => Err(MakeFileDestinationError::Error(e)),
    };
    proof {
        assert(audio_dir_result(read, opt_view(*modified), dest_root@, r));
    }
    r
}

/// Decides the destination directory for the file named by `file_name`:
/// the file is classified by its extension alone, the category's resolver
/// runs on what the collaborators returned, and the resolved date becomes a
/// directory under `dest_root`. A file of no known category is refused with
/// its extension, and no resolver runs for it — the statistics stay as they
/// were.
pub fn make_file_destination_str(
    file_name: &str,
    probe: &MetadataProbe,
    dest_root: &str,
    stats: &mut Statistics,
) -> (r: Result<String, MakeFileDestinationError>)
    requires
        old(stats).fallback < usize::MAX,
    ensures
        spec_classify(file_name@) == Category::Video ==> (match spec_resolve_tagged(
            opt_view(probe.video_creation_time),
            opt_view(probe.modified),
        ) {
            Ok(date) => (r matches Ok(dir) && dir@ == dir_string_of(dest_root@, date)),
            Err(e) => r == Err::<String, MakeFileDestinationError>(
                MakeFileDestinationError::Error(e),
            ),
        }),
        spec_classify(file_name@) == Category::Photo ==> (match spec_resolve_tagged(
            photo_tag_of(probe.photo_bytes),
            opt_view(probe.modified),
        ) {
            Ok(date) => (r matches Ok(dir) && dir@ == dir_string_of(dest_root@, date)),
            Err(e) => r == Err::<String, MakeFileDestinationError>(
                MakeFileDestinationError::Error(e),
            ),
        }),
        spec_classify(file_name@) == Category::Video ==> (if tagged_uses_fallback(
            opt_view(probe.video_creation_time),
        ) && r is Ok {
            *final(stats) == (Statistics {
                fallback: (old(stats).fallback + 1) as usize,
                ..*old(stats)
            })
        } else {
            *final(stats) == *old(stats)
        }),
        spec_classify(file_name@) == Category::Photo ==> (if tagged_uses_fallback(
            photo_tag_of(probe.photo_bytes),
        ) && r is Ok {
            *final(stats) == (Statistics {
                fallback: (old(stats).fallback + 1) as usize,
                ..*old(stats)
            })
        } else {
            *final(stats) == *old(stats)
        }),
        spec_classify(file_name@) == Category::Audio ==> exists|read: AudioTagRead| #[trigger] audio_dir_result(
            read,
            opt_view(probe.modified),
            dest_root@,
            r,
        ),
        spec_classify(file_name@) == Category::Audio ==> *final(stats) == *old(stats),
        spec_classify(file_name@) == Category::Unsupported ==> (r matches Err(
            MakeFileDestinationError::UnsupportedType(e),
        ) && e@ == (match path_extension(file_name@) {
            Some(x) => x,
            None => Seq::<char>::empty(),
        }) && *final(stats) == *old(stats)),
{
    if is_video(file_name) {
        return make_video_dir_str(&probe.video_creation_time, &probe.modified, dest_root, stats);
    }
    if is_photo(file_name) {
        return make_photo_dir_str(&probe.photo_bytes, &probe.modified, dest_root, stats);
    }
    if is_audio(file_name) {
        return make_audio_dir_str(file_name, &probe.modified, dest_root);
    }
    let name = crate::text::file_name_str(file_name);
    let ext = match crate::text::extension_str(name.as_str()) {
        Some(e) => e,
        None => String::new(),
    };
    Err(MakeFileDestinationError::UnsupportedType(ext))
}

} // verus!

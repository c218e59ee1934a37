//! The descriptive fields of an audio file, formatted for display: the
//! recorded date, artist, title, album, duration, release date and genre,
//! with a fixed default where the tag leaves a field out.

use vstd::prelude::*;
use vstd::string::*;
use crate::date::{format_ymd, is_valid_ymd, valid_ymd, ymd_seq};
use crate::tags::{read_audio_tag_fields, AudioTag, AudioTimestamp};
use crate::text::{dec_seq, push_dec};

verus! {

/// The formatted descriptive fields of one audio file.
#[derive(Clone, Debug)]
pub struct AudioInfo {
    pub creation_date: String,
    pub artist: String,
    pub title: String,
    pub album: String,
    pub duration: String,
    pub released: String,
    pub genre: String,
}

/// The year a stamp formats with.
pub open spec fn stamp_year(ts: AudioTimestamp) -> int {
    ts.year as int
}

/// The month a stamp formats with: 1 when the tag leaves it out.
pub open spec fn stamp_month(ts: AudioTimestamp) -> int {
    match ts.month {
        Some(m) => m as int,
        None => 1,
    }
}

/// The day a stamp formats with: 1 when the tag leaves it out.
pub open spec fn stamp_day(ts: AudioTimestamp) -> int {
    match ts.day {
        Some(d) => d as int,
        None => 1,
    }
}

/// Whether a stamp names a proper calendar date once missing parts default
/// to 1; only such stamps can be formatted.
pub open spec fn stamp_formattable(ts: AudioTimestamp) -> bool {
    valid_ymd(stamp_year(ts), stamp_month(ts), stamp_day(ts))
}

/// The `YYYY-MM-DD` form of a formattable stamp.
pub open spec fn stamp_seq(ts: AudioTimestamp) -> Seq<char> {
    ymd_seq(stamp_year(ts) as nat, stamp_month(ts) as nat, stamp_day(ts) as nat)
}

/// Whether a stamp can be formatted.
pub fn is_formattable(ts: &AudioTimestamp) -> (r: bool)
    ensures
        r == stamp_formattable(*ts),
{
    if ts.year < 0 {
        return false;
    }
    let m: u32 = match ts.month {
        Some(m) => m as u32,
        None => 1,
    };
    let d: u32 = match ts.day {
        Some(d) => d as u32,
        None => 1,
    };
    is_valid_ymd(ts.year as u32, m, d)
}

/// Formats a recorded-date stamp as `YYYY-MM-DD`, a missing month or day
/// standing in as 1.
pub fn format_date(date: AudioTimestamp) -> (r: String)
    requires
        stamp_formattable(date),
    ensures
        r@ == stamp_seq(date),
{
    let m: u32 = match date.month {
        Some(m) => m as u32,
        None => 1,
    };
    let d: u32 = match date.day {
        Some(d) => d as u32,
        None => 1,
    };
    format_ymd(date.year as u32, m, d)
}

/// The recorded date a tag carries; the formatters require it to be present.
pub open spec fn recorded_stamp(tag: AudioTag) -> AudioTimestamp {
    match tag.date_recorded {
        Some(ts) => ts,
        None => AudioTimestamp { year: 0, month: None, day: None },
    }
}

/// The release date a tag carries, with the all-defaults stamp standing in
/// when the tag has none.
pub open spec fn released_stamp(tag: AudioTag) -> AudioTimestamp {
    match tag.released {
        Some(ts) => ts,
        None => AudioTimestamp { year: 0, month: None, day: None },
    }
}

/// The tag's recorded date, formatted.
pub fn get_date_recorded(tag: &AudioTag) -> (r: String)
    requires
        tag.date_recorded is Some,
        stamp_formattable(recorded_stamp(*tag)),
    ensures
        r@ == stamp_seq(recorded_stamp(*tag)),
{
    match &tag.date_recorded {
        Some(ts) => format_date(*ts),
        None => String::new(),
    }
}

/// The tag's artist, or `Unknown Artist`.
pub fn get_artist(tag: &AudioTag) -> (r: String)
    ensures
        r@ == (match tag.artist {
            Some(a) => a@,
            None => "Unknown Artist"@,
        }),
{
    match &tag.artist {
        Some(a) => a.clone(),
        None => String::from_str("Unknown Artist"),
    }
}

/// The tag's title, or `Unknown Title`.
pub fn get_title(tag: &AudioTag) -> (r: String)
    ensures
        r@ == (match tag.title {
            Some(t) => t@,
            None => "Unknown Title"@,
        }),
{
    match &tag.title {
        Some(t) => t.clone(),
        None => String::from_str("Unknown Title"),
    }
}

/// The tag's album, or `Unknown Album`.
pub fn get_album(tag: &AudioTag) -> (r: String)
    ensures
        r@ == (match tag.album {
            Some(a) => a@,
            None => "Unknown Album"@,
        }),
{
    match &tag.album {
        Some(a) => a.clone(),
        None => String::from_str("Unknown Album"),
    }
}

/// The tag's duration in seconds, as `N seconds`; a missing duration reads
/// as 0.
pub fn get_duration(tag: &AudioTag) -> (r: String)
    ensures
        r@ == dec_seq((match tag.duration {
            Some(n) => n as nat,
            None => 0nat,
        })) + " seconds"@,
{
    let n: u32 = match tag.duration {
        Some(n) => n,
        None => 0,
    };
    let mut s = String::new();
    push_dec(&mut s, n);
    s.append(" seconds");
    proof {
        assert(s@ =~= dec_seq(n as nat) + " seconds"@);
    }
    s
}

/// The tag's release date, formatted; a tag without one formats the
/// all-defaults stamp.
pub fn get_release_date(tag: &AudioTag) -> (r: String)
    requires
        stamp_formattable(released_stamp(*tag)),
    ensures
        r@ == stamp_seq(released_stamp(*tag)),
{
    match &tag.released {
        Some(ts) => format_date(*ts),
        None => format_date(AudioTimestamp { year: 0, month: None, day: None }),
    }
}

/// The tag's genre, or `Unknown Genre`.
pub fn get_genre(tag: &AudioTag) -> (r: String)
    ensures
        r@ == (match tag.genre {
            Some(g) => g@,
            None => "Unknown Genre"@,
        }),
{
    match &tag.genre {
        Some(g) => g.clone(),
        None => String::from_str("Unknown Genre"),
    }
}

impl AudioInfo {
    /// Gathers every formatted field of a tag whose recorded date is present
    /// and formattable.
    pub fn new(tag: &AudioTag) -> (info: AudioInfo)
        requires
            tag.date_recorded is Some,
            stamp_formattable(recorded_stamp(*tag)),
            stamp_formattable(released_stamp(*tag)),
        ensures
            info.creation_date@ == stamp_seq(recorded_stamp(*tag)),
            info.artist@ == (match tag.artist {
                Some(a) => a@,
                None => "Unknown Artist"@,
            }),
            info.title@ == (match tag.title {
                Some(t) => t@,
                None => "Unknown Title"@,
            }),
            info.album@ == (match tag.album {
                Some(a) => a@,
                None => "Unknown Album"@,
            }),
            info.duration@ == dec_seq((match tag.duration {
                Some(n) => n as nat,
                None => 0nat,
            })) + " seconds"@,
            info.released@ == stamp_seq(released_stamp(*tag)),
            info.genre@ == (match tag.genre {
                Some(g) => g@,
                None => "Unknown Genre"@,
            }),
    {
        AudioInfo {
            creation_date: get_date_recorded(tag),
            artist: get_artist(tag),
            title: get_title(tag),
            album: get_album(tag),
            duration: get_duration(tag),
            released: get_release_date(tag),
            genre: get_genre(tag),
        }
    }
}

/// Whether `info` holds exactly the formatted fields of `tag`: the tag
/// carries a formattable recorded date and release date, and every field of
/// `info` is the tag's value or its fixed default.
pub open spec fn info_fields_of(tag: AudioTag, info: AudioInfo) -> bool {
    &&& tag.date_recorded is Some
    &&& stamp_formattable(recorded_stamp(tag))
    &&& stamp_formattable(released_stamp(tag))
    &&& info.creation_date@ == stamp_seq(recorded_stamp(tag))
    &&& info.artist@ == (match tag.artist {
        Some(a) => a@,
        None => "Unknown Artist"@,
    })
    &&& info.title@ == (match tag.title {
        Some(t) => t@,
        None => "Unknown Title"@,
    })
    &&& info.album@ == (match tag.album {
        Some(a) => a@,
        None => "Unknown Album"@,
    })
    &&& info.duration@ == dec_seq((match tag.duration {
        Some(n) => n as nat,
        None => 0nat,
    })) + " seconds"@
    &&& info.released@ == stamp_seq(released_stamp(tag))
    &&& info.genre@ == (match tag.genre {
        Some(g) => g@,
        None => "Unknown Genre"@,
    })
}

/// Whether `info` holds the formatted fields of some tag with a formattable
/// recorded date.
pub open spec fn fields_of_some_tag(info: AudioInfo) -> bool {
    exists|tag: AudioTag| #[trigger] info_fields_of(tag, info)
}

/// Reads the tag at `path` and gathers its formatted fields: nothing when
/// the tag cannot be read, carries no recorded date, or carries a date no
/// calendar holds. Whatever comes back, any answer holds the formatted
/// fields of some tag with a formattable recorded date.
pub fn read_audio_info(path: &str) -> (r: Option<AudioInfo>)
    ensures
        (r matches Some(info) ==> fields_of_some_tag(info)),
{
    match read_audio_tag_fields(path) {
        None => None,
        Some(tag) => {
            let date_ok = match &tag.date_recorded {
                Some(ts) => is_formattable(ts),
                None => false,
            };
            let released_ok = match &tag.released {
                Some(ts) => is_formattable(ts),
                None => true,
            };
            if date_ok && released_ok {
                let info = AudioInfo::new(&tag);
                proof {
                    assert(info_fields_of(tag, info));
                    assert(fields_of_some_tag(info));
                }
                Some(info)
            } else {
                None
            }
        },
    }
}

} // verus!

//! Classification of a file into a media category by its extension, over
//! three case-sensitive whitelists.

use vstd::prelude::*;
use crate::text::{extension_str, file_name_str, path_extension};

verus! {

/// The media category of a file, decided by its extension alone.
#[derive(Clone, Copy, Debug, PartialEq, Eq, Structural)]
pub enum Category {
    Video,
    Photo,
    Audio,
    Unsupported,
}

/// The video extensions.
pub open spec fn video_types() -> Seq<Seq<char>> {
    seq!["mp4"@, "MP4"@, "mov"@, "MOV"@, "avi"@, "AVI"@]
}

/// The photo extensions.
pub open spec fn photo_types() -> Seq<Seq<char>> {
    seq![
        "tiff"@,
        "TIFF"@,
        "heif"@,
        "HEIF"@,
        "HEIC"@,
        "heic"@,
        "AVIF"@,
        "avif"@,
        "jpeg"@,
        "jpg"@,
        "JPEG"@,
        "JPG"@,
        "HEIC"@,
        "heic"@,
        "PNG"@,
        "png"@,
        "webp"@,
        "WEBP"@,
        "dng"@,
        "DNG"@,
        "gif"@,
        "GIF"@,
        "raw"@,
        "RAW"@,
    ]
}

/// The audio extensions.
pub open spec fn audio_types() -> Seq<Seq<char>> {
    seq!["mp3"@, "MP3"@, "wav"@, "WAV"@, "aiff"@, "AIFF"@, "m4a"@, "M4A"@, "flac"@, "FLAC"@]
}

pub fn get_white_list_video_types() -> (r: Vec<&'static str>)
    ensures
        r@.len() == video_types().len(),
        forall|i: int| 0 <= i < r@.len() ==> r@[i]@ == video_types()[i],
{
    let r: Vec<&'static str> = vec!["mp4", "MP4", "mov", "MOV", "avi", "AVI"];
    r
}

pub fn get_white_list_photo_types() -> (r: Vec<&'static str>)
    ensures
        r@.len() == photo_types().len(),
        forall|i: int| 0 <= i < r@.len() ==> r@[i]@ == photo_types()[i],
{
    let r: Vec<&'static str> = vec![
        "tiff",
        "TIFF",
        "heif",
        "HEIF",
        "HEIC",
        "heic",
        "AVIF",
        "avif",
        "jpeg",
        "jpg",
        "JPEG",
        "JPG",
        "HEIC",
        "heic",
        "PNG",
        "png",
        "webp",
        "WEBP",
        "dng",
        "DNG",
        "gif",
        "GIF",
        "raw",
        "RAW",
    ];
    r
}

pub fn get_white_list_audio_types() -> (r: Vec<&'static str>)
    ensures
        r@.len() == audio_types().len(),
        forall|i: int| 0 <= i < r@.len() ==> r@[i]@ == audio_types()[i],
{
    let r: Vec<&'static str> = vec![
        "mp3",
        "MP3",
        "wav",
        "WAV",
        "aiff",
        "AIFF",
        "m4a",
        "M4A",
        "flac",
        "FLAC",
    ];
    r
}

/// Whether the extension of the file named by `path` occurs in `types`.
pub open spec fn extension_in(types: Seq<Seq<char>>, path: Seq<char>) -> bool {
    match path_extension(path) {
        Some(e) => types.contains(e),
        None => false,
    }
}

/// Whether the file's extension occurs in `types`.
pub fn ends_with_type(types: Vec<&str>, name: &str) -> (r: bool)
    ensures
        r == (match path_extension(name@) {
            Some(e) => (exists|i: int| 0 <= i < types@.len() && types@[i]@ == e),
            None => false,
        }),
{
    let file_name = file_name_str(name);
    let ext = extension_str(file_name.as_str());
    match ext {
        None => false,
        Some(e) => {
            let n: usize = types.len();
            let mut i: usize = 0;
            while i < n
                invariant
                    n == types@.len(),
                    i <= n,
                    file_name@ == crate::text::file_name_of(name@),
                    crate::text::extension_of(file_name@) == Some(e@),
                    forall|j: int| 0 <= j < i ==> types@[j]@ != e@,
                decreases n - i,
            {
                if crate::text::str_eq(types[i], e.as_str()) {
                    proof {
                        assert(path_extension(name@) == Some(e@));
                        assert(0 <= i < types@.len() && types@[i as int]@ == e@);
                        assert(exists|j: int| 0 <= j < types@.len() && types@[j]@ == e@);
                    }
                    return true;
                }
                i += 1;
            }
            false
        },
    }
}

pub open spec fn spec_is_video(path: Seq<char>) -> bool {
    extension_in(video_types(), path)
}

pub open spec fn spec_is_photo(path: Seq<char>) -> bool {
    extension_in(photo_types(), path)
}

pub open spec fn spec_is_audio(path: Seq<char>) -> bool {
    extension_in(audio_types(), path)
}

pub fn is_video(file_name: &str) -> (r: bool)
    ensures
        r == spec_is_video(file_name@),
{
    ends_with_type(get_white_list_video_types(), file_name)
}

pub fn is_photo(file_name: &str) -> (r: bool)
    ensures
        r == spec_is_photo(file_name@),
{
    ends_with_type(get_white_list_photo_types(), file_name)
}

pub fn is_audio(file_name: &str) -> (r: bool)
    ensures
        r == spec_is_audio(file_name@),
{
    ends_with_type(get_white_list_audio_types(), file_name)
}

/// The category of the file named by `path`, decided by its extension alone.
/// The video table is consulted first, then photo, then audio.
pub open spec fn spec_classify(path: Seq<char>) -> Category {
    if spec_is_video(path) {
        Category::Video
    } else if spec_is_photo(path) {
        Category::Photo
    } else if spec_is_audio(path) {
        Category::Audio
    } else {
        Category::Unsupported
    }
}

pub fn classify(file_name: &str) -> (c: Category)
    ensures
        c == spec_classify(file_name@),
{
    if is_video(file_name) {
        Category::Video
    } else if is_photo(file_name) {
        Category::Photo
    } else if is_audio(file_name) {
        Category::Audio
    } else {
        Category::Unsupported
    }
}

/// Classification is a function of the extension alone: two paths with the
/// same extension always land in the same category, and a path whose
/// extension no table lists is always unsupported.
pub proof fn lemma_classify_extension_only(p1: Seq<char>, p2: Seq<char>)
    requires
        path_extension(p1) == path_extension(p2),
    ensures
        spec_classify(p1) == spec_classify(p2),
{
}

proof fn lemma_video_member(e: Seq<char>)
    requires
        video_types().contains(e),
    ensures
        e == "mp4"@ || e == "MP4"@ || e == "mov"@ || e == "MOV"@ || e == "avi"@ || e == "AVI"@,
{
    let i = choose|i: int| 0 <= i < video_types().len() && video_types()[i] == e;
    assert(i == 0 || i == 1 || i == 2 || i == 3 || i == 4 || i == 5);
}

proof fn lemma_photo_member(e: Seq<char>)
    requires
        photo_types().contains(e),
    ensures
        e == "tiff"@ || e == "TIFF"@ || e == "heif"@ || e == "HEIF"@ || e == "HEIC"@ || e
            == "heic"@ || e == "AVIF"@ || e == "avif"@ || e == "jpeg"@ || e == "jpg"@ || e
            == "JPEG"@ || e == "JPG"@ || e == "PNG"@ || e == "png"@ || e == "webp"@ || e == "WEBP"@
            || e == "dng"@ || e == "DNG"@ || e == "gif"@ || e == "GIF"@ || e == "raw"@ || e
            == "RAW"@,
{
    let i = choose|i: int| 0 <= i < photo_types().len() && photo_types()[i] == e;
    assert(i == 0 || i == 1 || i == 2 || i == 3 || i == 4 || i == 5 || i == 6 || i == 7 || i == 8
        || i == 9 || i == 10 || i == 11 || i == 12 || i == 13 || i == 14 || i == 15 || i == 16 || i
        == 17 || i == 18 || i == 19 || i == 20 || i == 21 || i == 22 || i == 23);
}

proof fn lemma_audio_member(e: Seq<char>)
    requires
        audio_types().contains(e),
    ensures
        e == "mp3"@ || e == "MP3"@ || e == "wav"@ || e == "WAV"@ || e == "aiff"@ || e == "AIFF"@
            || e == "m4a"@ || e == "M4A"@ || e == "flac"@ || e == "FLAC"@,
{
    let i = choose|i: int| 0 <= i < audio_types().len() && audio_types()[i] == e;
    assert(i == 0 || i == 1 || i == 2 || i == 3 || i == 4 || i == 5 || i == 6 || i == 7 || i == 8
        || i == 9);
}

/// The three whitelists are mutually exclusive: no extension occurs in two
/// of them, so the category tables can never disagree about a file.
#[verifier::rlimit(100)]
pub proof fn lemma_tables_mutually_exclusive(e: Seq<char>)
    ensures
        !(video_types().contains(e) && photo_types().contains(e)),
        !(video_types().contains(e) && audio_types().contains(e)),
        !(photo_types().contains(e) && audio_types().contains(e)),
{
    reveal_strlit("mp4");
    reveal_strlit("MP4");
    reveal_strlit("mov");
    reveal_strlit("MOV");
    reveal_strlit("avi");
    reveal_strlit("AVI");
    reveal_strlit("tiff");
    reveal_strlit("TIFF");
    reveal_strlit("heif");
    reveal_strlit("HEIF");
    reveal_strlit("HEIC");
    reveal_strlit("heic");
    reveal_strlit("AVIF");
    reveal_strlit("avif");
    reveal_strlit("jpeg");
    reveal_strlit("jpg");
    reveal_strlit("JPEG");
    reveal_strlit("JPG");
    reveal_strlit("PNG");
    reveal_strlit("png");
    reveal_strlit("webp");
    reveal_strlit("WEBP");
    reveal_strlit("dng");
    reveal_strlit("DNG");
    reveal_strlit("gif");
    reveal_strlit("GIF");
    reveal_strlit("raw");
    reveal_strlit("RAW");
    reveal_strlit("mp3");
    reveal_strlit("MP3");
    reveal_strlit("wav");
    reveal_strlit("WAV");
    reveal_strlit("aiff");
    reveal_strlit("AIFF");
    reveal_strlit("m4a");
    reveal_strlit("M4A");
    reveal_strlit("flac");
    reveal_strlit("FLAC");
    if video_types().contains(e) {
        lemma_video_member(e);
    }
    if photo_types().contains(e) {
        lemma_photo_member(e);
    }
    if audio_types().contains(e) {
        lemma_audio_member(e);
    }
    // any two of the listed extensions can be told apart by their length or
    // one of their first three characters
    let c0 = e[0];
    let c1 = e[1];
    let c2 = e[2];
    let n = e.len();
    assert(c0 == e[0] && c1 == e[1] && c2 == e[2] && n == e.len());
}

/// A path without a listed extension is never classified as a media type.
pub proof fn lemma_unknown_extension_unsupported(path: Seq<char>)
    requires
        match path_extension(path) {
            Some(e) => !video_types().contains(e) && !photo_types().contains(e) && !audio_types(
            ).contains(e),
            None => true,
        },
    ensures
        spec_classify(path) == Category::Unsupported,
{
}

} // verus!

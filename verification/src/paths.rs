//! The path resolver: file names derived from a video's title, and the
//! places under an output directory where a download keeps its files.
//!
//! A title is made safe for every file system by replacing each character
//! that is not alphanumeric, a space, a hyphen or an underscore with an
//! underscore. Two titles that become equal this way share their files: the
//! later download overwrites the earlier one.

use crate::text::join2;
use crate::types::text_of;
use vstd::prelude::*;
use vstd::std_specs::iter::IteratorSpec;

verus! {

/// Whether the standard library counts a character as alphanumeric (the
/// Unicode letters and numbers, as `char::is_alphanumeric` decides).
pub uninterp spec fn is_alphanumeric(c: char) -> bool;

/// Trusted: `char::is_alphanumeric` depends on the character alone; its
/// result is named [`is_alphanumeric`].
pub assume_specification[ char::is_alphanumeric ](c: char) -> (b: bool)
    ensures
        b == is_alphanumeric(c),
;

/// The path that the standard library makes of a directory and a path to
/// adjoin, on the platform the library is built for.
pub uninterp spec fn joined_path(dir: Seq<char>, name: Seq<char>) -> Seq<char>;

/// The parent of a path as the standard library sees it: the path without
/// its last component, or nothing for a root or an empty path.
pub uninterp spec fn parent_path(path: Seq<char>) -> Option<Seq<char>>;

/// The last component of a path as the standard library sees it, or nothing
/// where the path ends in `..` or is a root.
pub uninterp spec fn file_name_of(path: Seq<char>) -> Option<Seq<char>>;

/// The place of the last dot in a file name, if it has a dot.
pub open spec fn last_dot(name: Seq<char>) -> Option<int>
    decreases name.len(),
{
    if name.len() == 0 {
        None
    } else if name.last() == '.' {
        Some(name.len() - 1)
    } else {
        last_dot(name.drop_last())
    }
}

/// Whether a file name divides into a stem and an extension: it does where
/// it has a dot that is not its first character.
pub open spec fn has_extension(name: Seq<char>) -> bool {
    last_dot(name) matches Some(i) && i > 0
}

/// The stem of a file name: what stands before its last dot, or the whole
/// name where it does not divide.
pub open spec fn stem_of_name(name: Seq<char>) -> Seq<char> {
    if has_extension(name) {
        name.take(last_dot(name)->0)
    } else {
        name
    }
}

/// The extension of a file name: what stands after its last dot, or nothing
/// where the name does not divide.
pub open spec fn extension_of_name(name: Seq<char>) -> Option<Seq<char>> {
    if has_extension(name) {
        Some(name.skip(last_dot(name)->0 + 1))
    } else {
        None
    }
}

/// The file name of a path without its extension.
pub open spec fn file_stem_of(path: Seq<char>) -> Option<Seq<char>> {
    match file_name_of(path) {
        Some(name) => Some(stem_of_name(name)),
        None => None,
    }
}

/// The extension of a path's file name, without the dot.
pub open spec fn extension_of(path: Seq<char>) -> Option<Seq<char>> {
    match file_name_of(path) {
        Some(name) => extension_of_name(name),
        None => None,
    }
}

/// Trusted: `Path::join` on two texts. The result depends on the two texts
/// and on the platform's path syntax, nothing else; it is named
/// [`joined_path`]. Both arguments are valid Unicode, so the result is too.
#[verifier::external_body]
pub(crate) fn join_path(dir: &str, name: &str) -> (r: String)
    ensures
        r@ == joined_path(dir@, name@),
{
    std::path::Path::new(dir).join(name).to_string_lossy().into_owned()
}

/// Trusted: `Path::parent` on a text; its result is named [`parent_path`].
#[verifier::external_body]
pub(crate) fn parent_of(path: &str) -> (r: Option<String>)
    ensures
        text_of(r) == parent_path(path@),
{
    match std::path::Path::new(path).parent() {
        Some(p) => Some(p.to_string_lossy().into_owned()),
        None => None,
    }
}

/// Trusted: `Path::file_name` on a text; its result is named
/// [`file_name_of`].
#[verifier::external_body]
pub(crate) fn file_name(path: &str) -> (r: Option<String>)
    ensures
        text_of(r) == file_name_of(path@),
{
    match std::path::Path::new(path).file_name() {
        Some(p) => Some(p.to_string_lossy().into_owned()),
        None => None,
    }
}

/// Trusted: `Path::file_stem` on a text. As the standard library documents
/// it, the stem is nothing where the path has no file name; the whole file
/// name where that has no dot, or only the one it begins with; and else what
/// stands before the last dot of the file name.
#[verifier::external_body]
pub(crate) fn file_stem(path: &str) -> (r: Option<String>)
    ensures
        text_of(r) == file_stem_of(path@),
{
    match std::path::Path::new(path).file_stem() {
        Some(p) => Some(p.to_string_lossy().into_owned()),
        None => None,
    }
}

/// Trusted: `Path::extension` on a text. As the standard library documents
/// it, the extension is nothing where the path has no file name, or one
/// without a dot, or with only the dot it begins with; and else what stands
/// after the last dot of the file name.
#[verifier::external_body]
pub(crate) fn extension(path: &str) -> (r: Option<String>)
    ensures
        text_of(r) == extension_of(path@),
{
    match std::path::Path::new(path).extension() {
        Some(p) => Some(p.to_string_lossy().into_owned()),
        None => None,
    }
}

/// The last dot of a file name is a dot, and no dot comes after it; a name
/// without one has no dot at all.
pub proof fn lemma_last_dot(name: Seq<char>)
    ensures
        match last_dot(name) {
            Some(i) => 0 <= i < name.len() && name[i] == '.' && forall|j: int|
                i < j < name.len() ==> name[j] != '.',
            None => forall|j: int| 0 <= j < name.len() ==> name[j] != '.',
        },
    decreases name.len(),
{
    if name.len() > 0 && name.last() != '.' {
        let front = name.drop_last();
        lemma_last_dot(front);
        assert forall|j: int| 0 <= j < front.len() implies front[j] == name[j] by {}
        match last_dot(front) {
            Some(i) => {
                assert forall|j: int| i < j < name.len() implies name[j] != '.' by {
                    if j < front.len() {
                        assert(front[j] != '.');
                    }
                }
            },
            None => {
                assert forall|j: int| 0 <= j < name.len() implies name[j] != '.' by {
                    if j < front.len() {
                        assert(front[j] != '.');
                    }
                }
            },
        }
    }
}

/// Where a text ends in a dot and a text without dots follows, the last dot
/// of the whole is that dot.
pub proof fn lemma_last_dot_after(head: Seq<char>, tail: Seq<char>)
    requires
        head.len() > 0,
        head.last() == '.',
        last_dot(tail) is None,
    ensures
        last_dot(head + tail) == Some(head.len() - 1),
    decreases tail.len(),
{
    if tail.len() == 0 {
        assert(head + tail =~= head);
    } else {
        lemma_last_dot(tail);
        assert((head + tail).drop_last() =~= head + tail.drop_last());
        lemma_last_dot_after(head, tail.drop_last());
    }
}

/// Whether a character may stand in a file name as it is, given whether it
/// is alphanumeric: letters and numbers may, and so may the space, the
/// hyphen and the underscore.
pub open spec fn is_kept(c: char, alphanumeric: bool) -> bool {
    alphanumeric || c == ' ' || c == '-' || c == '_'
}

/// Whether a character may stand in a file name as it is.
pub open spec fn is_safe_char(c: char) -> bool {
    is_kept(c, is_alphanumeric(c))
}

/// A safe character stays; any other becomes an underscore.
pub open spec fn safe_char(c: char) -> char {
    if is_safe_char(c) {
        c
    } else {
        '_'
    }
}

/// The character that stands in a file name for `c`, given whether `c` is
/// alphanumeric.
pub fn file_name_char(c: char, alphanumeric: bool) -> (k: char)
    ensures
        k == (if is_kept(c, alphanumeric) {
            c
        } else {
            '_'
        }),
{
    if alphanumeric || c == ' ' || c == '-' || c == '_' {
        c
    } else {
        '_'
    }
}

/// The title with every unsafe character replaced.
pub open spec fn sanitized(title: Seq<char>) -> Seq<char> {
    title.map_values(|c: char| safe_char(c))
}

/// The name of the file that receives the video stream.
pub open spec fn video_file_name(title: Seq<char>) -> Seq<char> {
    sanitized(title) + "_video.mp4"@
}

/// The name of the file that receives the audio stream.
pub open spec fn audio_file_name(title: Seq<char>) -> Seq<char> {
    sanitized(title) + "_audio.mp3"@
}

/// The name of the finished file that holds video.
pub open spec fn final_file_name(title: Seq<char>) -> Seq<char> {
    sanitized(title) + ".mp4"@
}

/// The name of the finished file where only audio could be had.
pub open spec fn audio_final_file_name(title: Seq<char>) -> Seq<char> {
    sanitized(title) + ".mp3"@
}

/// Makes a title safe for use as a file name.
pub fn sanitize_title(title: &str) -> (safe: String)
    ensures
        safe@ == sanitized(title@),
        safe@.len() == title@.len(),
        forall|i: int| 0 <= i < safe@.len() ==> is_safe_char(#[trigger] safe@[i]),
{
    let mut safe = String::new();
    let mut it = title.chars();
    let ghost mut done: int = 0;
    loop
        invariant
            0 <= done <= title@.len(),
            it.remaining() == title@.skip(done),
            safe@ == sanitized(title@.take(done)),
        decreases title@.len() - done,
    {
        match it.next() {
            Some(c) => {
                let k = file_name_char(c, c.is_alphanumeric());
                safe.push(k);
                proof {
                    assert(title@.take(done + 1) =~= title@.take(done).push(c));
                    assert(sanitized(title@.take(done + 1)) =~= sanitized(title@.take(done)).push(
                        k,
                    ));
                    assert(title@.skip(done).drop_first() =~= title@.skip(done + 1));
                    done = done + 1;
                }
            },
            None => {
                proof {
                    assert(title@.take(done) =~= title@);
                    lemma_sanitized_is_safe(title@);
                }
                return safe;
            },
        }
    }
}

/// A sanitized title holds nothing but alphanumeric characters, spaces,
/// hyphens and underscores, whatever the title was, and is as long as the
/// title.
pub proof fn lemma_sanitized_is_safe(title: Seq<char>)
    ensures
        sanitized(title).len() == title.len(),
        forall|i: int| 0 <= i < sanitized(title).len() ==> is_safe_char(#[trigger] sanitized(title)[i]),
{
}

/// Sanitizing an already sanitized title changes nothing.
pub proof fn lemma_sanitized_twice(title: Seq<char>)
    ensures
        sanitized(sanitized(title)) == sanitized(title),
{
    assert(sanitized(sanitized(title)) =~= sanitized(title));
}

/// Each file name of a download is the sanitized title followed by a fixed
/// ending, so whatever stands before the ending is safe.
pub proof fn lemma_file_names_are_safe(title: Seq<char>, i: int)
    requires
        0 <= i < title.len(),
    ensures
        is_safe_char(video_file_name(title)[i]),
        is_safe_char(audio_file_name(title)[i]),
        is_safe_char(final_file_name(title)[i]),
        is_safe_char(audio_final_file_name(title)[i]),
{
    lemma_sanitized_is_safe(title);
}

/// The finished video file has the video extension, and the two audio files
/// have the audio extension.
pub proof fn lemma_file_name_endings(title: Seq<char>)
    ensures
        ".mp4"@.is_suffix_of(video_file_name(title)),
        ".mp3"@.is_suffix_of(audio_file_name(title)),
        ".mp4"@.is_suffix_of(final_file_name(title)),
        ".mp3"@.is_suffix_of(audio_final_file_name(title)),
{
    reveal_strlit(".mp4");
    reveal_strlit(".mp3");
    reveal_strlit("_video.mp4");
    reveal_strlit("_audio.mp3");
    let s = sanitized(title);
    let n = s.len() as int;
    assert((s + "_video.mp4"@).subrange(n + 6, n + 10) =~= ".mp4"@);
    assert((s + "_audio.mp3"@).subrange(n + 6, n + 10) =~= ".mp3"@);
    assert((s + ".mp4"@).subrange(n, n + 4) =~= ".mp4"@);
    assert((s + ".mp3"@).subrange(n, n + 4) =~= ".mp3"@);
}

/// The files of one download.
#[derive(Debug, Clone, PartialEq, Eq)]
pub struct DownloadTarget {
    /// Where the video stream is kept until the download is finished.
    pub video_path: String,
    /// Where the audio stream is kept until the download is finished.
    pub audio_path: String,
    /// The finished file, where it holds video.
    pub final_path: String,
    /// The finished file, where only audio could be had.
    pub audio_final_path: String,
}

/// What a [`DownloadTarget`] holds, as mathematical values.
pub struct DownloadTargetView {
    pub video_path: Seq<char>,
    pub audio_path: Seq<char>,
    pub final_path: Seq<char>,
    pub audio_final_path: Seq<char>,
}

impl View for DownloadTarget {
    type V = DownloadTargetView;

    open spec fn view(&self) -> DownloadTargetView {
        DownloadTargetView {
            video_path: self.video_path@,
            audio_path: self.audio_path@,
            final_path: self.final_path@,
            audio_final_path: self.audio_final_path@,
        }
    }
}

/// The files of the download of a title under an output directory.
pub open spec fn resolved(title: Seq<char>, output_dir: Seq<char>) -> DownloadTargetView {
    DownloadTargetView {
        video_path: joined_path(output_dir, video_file_name(title)),
        audio_path: joined_path(output_dir, audio_file_name(title)),
        final_path: joined_path(output_dir, final_file_name(title)),
        audio_final_path: joined_path(output_dir, audio_final_file_name(title)),
    }
}

/// Names the files of a download. The directory is not touched: whoever
/// writes the files creates it first.
pub fn resolve(title: &str, output_dir: &str) -> (target: DownloadTarget)
    ensures
        target@ == resolved(title@, output_dir@),
{
    let stem = sanitize_title(title);
    let video_name = join2(stem.as_str(), "_video.mp4");
    let audio_name = join2(stem.as_str(), "_audio.mp3");
    let final_name = join2(stem.as_str(), ".mp4");
    let audio_final_name = join2(stem.as_str(), ".mp3");
    DownloadTarget {
        video_path: join_path(output_dir, video_name.as_str()),
        audio_path: join_path(output_dir, audio_name.as_str()),
        final_path: join_path(output_dir, final_name.as_str()),
        audio_final_path: join_path(output_dir, audio_final_name.as_str()),
    }
}

/// The directory, below the user's download directory, that receives all
/// downloads.
pub open spec fn download_folder_of(downloads: Seq<char>) -> Seq<char> {
    joined_path(downloads, "CiliCili"@)
}

/// The directory that receives all downloads.
pub fn download_folder(downloads: &str) -> (dir: String)
    ensures
        dir@ == download_folder_of(downloads@),
{
    join_path(downloads, "CiliCili")
}

} // verus!

//! Rules on the names of downloaded and generated files.

use vstd::prelude::*;
use crate::text::{
    chars_of, has_prefix, has_suffix, vec_has_prefix, vec_has_suffix, concat2, ascii_lower, owned,
    push_decimal, decimal, texts,
};

verus! {

broadcast use vstd::string::group_string_axioms;

/// The lower-case form of `s` by Unicode rules, as `str::to_lowercase`
/// computes it.
pub uninterp spec fn lowercase_text(s: Seq<char>) -> Seq<char>;

/// Every character of `s` is ASCII.
pub open spec fn all_ascii(s: Seq<char>) -> bool {
    forall|i: int| 0 <= i < s.len() ==> (#[trigger] s[i] as u32) < 128
}

/// `str::to_lowercase`. The result is the named [`lowercase_text`]; on ASCII
/// text it maps `A`..`Z` to `a`..`z` and keeps every other character, as
/// std documents.
#[verifier::external_body]
fn to_lowercase(s: &str) -> (r: String)
    ensures
        r@ == lowercase_text(s@),
        r@ == s@.map_values(|c: char| ascii_lower(c)) || !all_ascii(s@),
{
    s.to_lowercase()
}

/// `s` ends with the extension of a downloadable media format.
pub open spec fn has_media_suffix(s: Seq<char>) -> bool {
    ||| has_suffix(s, ".mp4"@)
    ||| has_suffix(s, ".mp3"@)
    ||| has_suffix(s, ".webm"@)
    ||| has_suffix(s, ".mkv"@)
    ||| has_suffix(s, ".avi"@)
    ||| has_suffix(s, ".flac"@)
    ||| has_suffix(s, ".wav"@)
    ||| has_suffix(s, ".ogg"@)
    ||| has_suffix(s, ".m4a"@)
}

fn ends_with_lit(v: &Vec<char>, lit: &str) -> (b: bool)
    ensures
        b == has_suffix(v@, lit@),
{
    vec_has_suffix(v, &chars_of(lit))
}

fn media_suffix(lower: &Vec<char>) -> (b: bool)
    ensures
        b == has_media_suffix(lower@),
{
    ends_with_lit(lower, ".mp4") || ends_with_lit(lower, ".mp3") || ends_with_lit(lower, ".webm")
        || ends_with_lit(lower, ".mkv") || ends_with_lit(lower, ".avi") || ends_with_lit(
        lower,
        ".flac",
    ) || ends_with_lit(lower, ".wav") || ends_with_lit(lower, ".ogg") || ends_with_lit(
        lower,
        ".m4a",
    )
}

/// A file named after the video: `<prefix>.` or `video.` followed by more.
pub open spec fn named_for_video(name: Seq<char>, prefix: Seq<char>) -> bool {
    has_prefix(name, prefix + "."@) || has_prefix(name, "video."@)
}

fn named_for_video_exec(nv: &Vec<char>, prefix: &str) -> (b: bool)
    ensures
        b == named_for_video(nv@, prefix@),
{
    let p = concat2(prefix, ".");
    vec_has_prefix(nv, &chars_of(p.as_str())) || vec_has_prefix(nv, &chars_of("video."))
}

/// Whether `name` is a downloaded media file of the video whose file
/// prefix is `prefix` (extension compared case-insensitively).
pub fn is_media_file_of(name: &str, prefix: &str) -> (b: bool)
    ensures
        b == (named_for_video(name@, prefix@) && has_media_suffix(lowercase_text(name@))),
{
    let nv = chars_of(name);
    let lower = to_lowercase(name);
    named_for_video_exec(&nv, prefix) && media_suffix(&chars_of(lower.as_str()))
}

/// Whether `name` is the output file of the video with file prefix `prefix`
/// in the format `ext` (extension compared case-insensitively).
pub fn is_output_file_of(name: &str, prefix: &str, ext: &str) -> (b: bool)
    ensures
        b == (named_for_video(name@, prefix@) && has_suffix(lowercase_text(name@), "."@ + ext@)),
{
    let nv = chars_of(name);
    let lower = to_lowercase(name);
    let dot_ext = concat2(".", ext);
    named_for_video_exec(&nv, prefix) && vec_has_suffix(
        &chars_of(lower.as_str()),
        &chars_of(dot_ext.as_str()),
    )
}

/// Whether `name` is a media file of the video `slug` left by an earlier
/// attempt in another format than `format`, to be removed before
/// downloading again.
pub fn is_stale_partial_file(name: &str, slug: &str, format: &str) -> (b: bool)
    ensures
        b == (has_prefix(name@, slug@ + "."@) && has_media_suffix(lowercase_text(name@))
            && !has_suffix(lowercase_text(name@), "."@ + format@)),
{
    let nv = chars_of(name);
    let p = concat2(slug, ".");
    let lower = chars_of(to_lowercase(name).as_str());
    let dot_ext = concat2(".", format);
    vec_has_prefix(&nv, &chars_of(p.as_str())) && media_suffix(&lower) && !vec_has_suffix(
        &lower,
        &chars_of(dot_ext.as_str()),
    )
}

/// Whether `name` is a downloader info file (`*.info.json`).
pub fn is_info_json(name: &str) -> (b: bool)
    ensures
        b == has_suffix(name@, ".info.json"@),
{
    ends_with_lit(&chars_of(name), ".info.json")
}

/// `<slug>.<ext>`: the file name of a finished download.
pub fn media_file_name(slug: &str, ext: &str) -> (r: String)
    ensures
        r@ == slug@ + "."@ + ext@,
{
    let mut r = concat2(slug, ".");
    r.append(ext);
    r
}

/// `<slug>.%(ext)s`: the downloader's output template for a video.
pub fn output_template(slug: &str) -> (r: String)
    ensures
        r@ == slug@ + ".%(ext)s"@,
{
    concat2(slug, ".%(ext)s")
}

/// The comments page of a video: `<slug>-comments.html` beside the media in
/// flat output, otherwise `comments.html` in the video's own folder.
pub fn comments_file_name(flat_output: bool, slug: &str) -> (r: String)
    ensures
        r@ == if flat_output {
            slug@ + "-comments.html"@
        } else {
            "comments.html"@
        },
{
    if flat_output {
        concat2(slug, "-comments.html")
    } else {
        owned("comments.html")
    }
}

/// `cookies_<millis>.txt`: the file that pasted cookies are saved to.
pub fn cookie_file_name(millis: u64) -> (r: String)
    ensures
        r@ == "cookies_"@ + decimal(millis as nat) + ".txt"@,
{
    let mut r = owned("cookies_");
    push_decimal(&mut r, millis);
    r.append(".txt");
    r
}

/// The two names under which a finished download in format `ext` may lie:
/// `<slug>.<ext>` and `video.<ext>`.
pub open spec fn download_names(slug: Seq<char>, ext: Seq<char>) -> Seq<Seq<char>> {
    seq![slug + "."@ + ext, "video."@ + ext]
}

/// Every name under which a finished download of the video `slug` may lie,
/// in each media format.
pub open spec fn existing_download_names(slug: Seq<char>) -> Seq<Seq<char>> {
    download_names(slug, "mp4"@) + download_names(slug, "mp3"@) + download_names(slug, "webm"@)
        + download_names(slug, "mkv"@) + download_names(slug, "avi"@) + download_names(
        slug,
        "flac"@,
    ) + download_names(slug, "wav"@) + download_names(slug, "ogg"@) + download_names(
        slug,
        "m4a"@,
    )
}

fn push_download_names(r: &mut Vec<String>, slug: &str, ext: &str)
    ensures
        texts(final(r)@) == texts(old(r)@) + download_names(slug@, ext@),
{
    r.push(media_file_name(slug, ext));
    r.push(concat2("video.", ext));
    assert(texts(r@) =~= texts(old(r)@) + download_names(slug@, ext@));
}

/// The file names whose presence shows that the video `slug` was
/// downloaded before, so that an update run skips it.
pub fn download_name_candidates(slug: &str) -> (r: Vec<String>)
    ensures
        texts(r@) == existing_download_names(slug@),
{
    let mut r: Vec<String> = Vec::new();
    push_download_names(&mut r, slug, "mp4");
    push_download_names(&mut r, slug, "mp3");
    push_download_names(&mut r, slug, "webm");
    push_download_names(&mut r, slug, "mkv");
    push_download_names(&mut r, slug, "avi");
    push_download_names(&mut r, slug, "flac");
    push_download_names(&mut r, slug, "wav");
    push_download_names(&mut r, slug, "ogg");
    push_download_names(&mut r, slug, "m4a");
    assert(texts(r@) =~= existing_download_names(slug@));
    r
}

/// Some name of `names` is a downloaded media file of the video with file
/// prefix `prefix`.
pub open spec fn lists_media_of(names: Seq<Seq<char>>, prefix: Seq<char>) -> bool {
    exists|i: int|
        0 <= i < names.len() && named_for_video(#[trigger] names[i], prefix) && has_media_suffix(
            lowercase_text(names[i]),
        )
}

/// Whether a folder listing holds a downloaded media file of the video with
/// file prefix `prefix`.
pub fn has_media_file(names: &Vec<String>, prefix: &str) -> (b: bool)
    ensures
        b == lists_media_of(texts(names@), prefix@),
{
    let ghost t = texts(names@);
    let mut i: usize = 0;
    while i < names.len()
        invariant
            i <= names@.len(),
            t == texts(names@),
            forall|j: int|
                0 <= j < i ==> !(named_for_video(#[trigger] t[j], prefix@) && has_media_suffix(
                    lowercase_text(t[j]),
                )),
        decreases names.len() - i,
    {
        if is_media_file_of(names[i].as_str(), prefix) {
            assert(t[i as int] == names@[i as int]@);
            return true;
        }
        assert(t[i as int] == names@[i as int]@);
        i += 1;
    }
    false
}

/// The index of the first name of `names` at or after `k` that is the
/// output file of the video `prefix` in format `ext`.
pub open spec fn first_output_from(names: Seq<Seq<char>>, prefix: Seq<char>, ext: Seq<char>, k: nat) -> Option<nat>
    decreases names.len() - k,
{
    if k >= names.len() {
        None
    } else if named_for_video(names[k as int], prefix) && has_suffix(
        lowercase_text(names[k as int]),
        "."@ + ext,
    ) {
        Some(k)
    } else {
        first_output_from(names, prefix, ext, k + 1)
    }
}

/// The first name of a folder listing that is the output file of the video
/// `prefix` in format `ext`, when the file is not under its usual name.
pub fn find_output_file(names: &Vec<String>, prefix: &str, ext: &str) -> (r: Option<usize>)
    ensures
        r == match first_output_from(texts(names@), prefix@, ext@, 0) {
            Some(k) => Some(k as usize),
            None => None::<usize>,
        },
{
    let ghost t = texts(names@);
    let mut i: usize = 0;
    while i < names.len()
        invariant
            i <= names@.len(),
            t == texts(names@),
            first_output_from(t, prefix@, ext@, 0) == first_output_from(t, prefix@, ext@, i as nat),
        decreases names.len() - i,
    {
        assert(t[i as int] == names@[i as int]@);
        if is_output_file_of(names[i].as_str(), prefix, ext) {
            return Some(i);
        }
        i += 1;
    }
    None
}

/// The nine output formats a download may produce.
pub open spec fn output_formats() -> Seq<Seq<char>> {
    seq!["mp4"@, "mp3"@, "webm"@, "mkv"@, "avi"@, "flac"@, "wav"@, "ogg"@, "m4a"@]
}

proof fn lemma_suffix_of_append(s: Seq<char>, t: Seq<char>)
    ensures
        has_suffix(s + t, t),
{
    assert((s + t).skip((s + t).len() - t.len()) =~= t);
}

/// A name counts as media exactly when (in lower case) it ends in `.`
/// followed by one of the nine output formats: every such name counts, and
/// every name that counts ends so.
pub proof fn lemma_media_suffixes(s: Seq<char>)
    ensures
        forall|k: int| 0 <= k < output_formats().len() ==> has_media_suffix(
            s + "."@ + #[trigger] output_formats()[k],
        ),
        has_media_suffix(s) ==> exists|k: int|
            0 <= k < output_formats().len() && has_suffix(s, "."@ + #[trigger] output_formats()[k]),
{
    assert forall|k: int| 0 <= k < output_formats().len() implies has_media_suffix(
        s + "."@ + #[trigger] output_formats()[k],
    ) by {
        let f = output_formats()[k];
        assert(s + "."@ + f =~= s + ("."@ + f));
        lemma_suffix_of_append(s, "."@ + f);
        reveal_strlit(".");
        reveal_strlit(".mp4");
        reveal_strlit(".mp3");
        reveal_strlit(".webm");
        reveal_strlit(".mkv");
        reveal_strlit(".avi");
        reveal_strlit(".flac");
        reveal_strlit(".wav");
        reveal_strlit(".ogg");
        reveal_strlit(".m4a");
        reveal_strlit("mp4");
        reveal_strlit("mp3");
        reveal_strlit("webm");
        reveal_strlit("mkv");
        reveal_strlit("avi");
        reveal_strlit("flac");
        reveal_strlit("wav");
        reveal_strlit("ogg");
        reveal_strlit("m4a");
        assert(".mp4"@ =~= "."@ + "mp4"@);
        assert(".mp3"@ =~= "."@ + "mp3"@);
        assert(".webm"@ =~= "."@ + "webm"@);
        assert(".mkv"@ =~= "."@ + "mkv"@);
        assert(".avi"@ =~= "."@ + "avi"@);
        assert(".flac"@ =~= "."@ + "flac"@);
        assert(".wav"@ =~= "."@ + "wav"@);
        assert(".ogg"@ =~= "."@ + "ogg"@);
        assert(".m4a"@ =~= "."@ + "m4a"@);
    }
    if has_media_suffix(s) {
        reveal_strlit(".");
        reveal_strlit(".mp4");
        reveal_strlit(".mp3");
        reveal_strlit(".webm");
        reveal_strlit(".mkv");
        reveal_strlit(".avi");
        reveal_strlit(".flac");
        reveal_strlit(".wav");
        reveal_strlit(".ogg");
        reveal_strlit(".m4a");
        reveal_strlit("mp4");
        reveal_strlit("mp3");
        reveal_strlit("webm");
        reveal_strlit("mkv");
        reveal_strlit("avi");
        reveal_strlit("flac");
        reveal_strlit("wav");
        reveal_strlit("ogg");
        reveal_strlit("m4a");
        assert(".mp4"@ =~= "."@ + output_formats()[0]);
        assert(".mp3"@ =~= "."@ + output_formats()[1]);
        assert(".webm"@ =~= "."@ + output_formats()[2]);
        assert(".mkv"@ =~= "."@ + output_formats()[3]);
        assert(".avi"@ =~= "."@ + output_formats()[4]);
        assert(".flac"@ =~= "."@ + output_formats()[5]);
        assert(".wav"@ =~= "."@ + output_formats()[6]);
        assert(".ogg"@ =~= "."@ + output_formats()[7]);
        assert(".m4a"@ =~= "."@ + output_formats()[8]);
    }
}

/// A folder listing shows a download of the video `prefix` exactly when it
/// holds a name that starts with `prefix.` (or `video.`) and whose lower-case
/// form ends in `.` and one of the nine output formats.
pub proof fn lemma_listing_media(names: Seq<Seq<char>>, prefix: Seq<char>)
    ensures
        lists_media_of(names, prefix) <==> exists|i: int, k: int|
            0 <= i < names.len() && 0 <= k < output_formats().len() && named_for_video(
                #[trigger] names[i],
                prefix,
            ) && has_suffix(lowercase_text(names[i]), "."@ + #[trigger] output_formats()[k]),
{
    if lists_media_of(names, prefix) {
        let i = choose|i: int|
            0 <= i < names.len() && named_for_video(#[trigger] names[i], prefix) && has_media_suffix(
                lowercase_text(names[i]),
            );
        lemma_media_suffixes(lowercase_text(names[i]));
        let k = choose|k: int|
            0 <= k < output_formats().len() && has_suffix(
                lowercase_text(names[i]),
                "."@ + #[trigger] output_formats()[k],
            );
        assert(named_for_video(names[i], prefix) && has_suffix(
            lowercase_text(names[i]),
            "."@ + output_formats()[k],
        ));
    }
    if exists|i: int, k: int|
        0 <= i < names.len() && 0 <= k < output_formats().len() && named_for_video(
            #[trigger] names[i],
            prefix,
        ) && has_suffix(lowercase_text(names[i]), "."@ + #[trigger] output_formats()[k]) {
        let (i, k) = choose|i: int, k: int|
            0 <= i < names.len() && 0 <= k < output_formats().len() && named_for_video(
                #[trigger] names[i],
                prefix,
            ) && has_suffix(lowercase_text(names[i]), "."@ + #[trigger] output_formats()[k]);
        let l = lowercase_text(names[i]);
        let t = "."@ + output_formats()[k];
        let base = l.take(l.len() - t.len());
        assert(l =~= base + t);
        lemma_media_suffixes(base);
        assert(base + "."@ + output_formats()[k] =~= base + t);
        assert(has_media_suffix(l));
    }
}

} // verus!

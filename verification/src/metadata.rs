//! Tagging a downloaded file: fetching its thumbnail and the converter
//! command that embeds cover art and title, artist and album tags.

use vstd::prelude::*;
use crate::text::{texts, push_arg, concat2, chars_of, str_eq};
use crate::utils::{is_audio, is_audio_format, parse_title_metadata, title_metadata};
use crate::download::{first_chars, take_chars};

verus! {

broadcast use vstd::string::group_string_axioms;

/// The file the thumbnail is saved to.
pub const THUMBNAIL_FILE: &'static str = "thumb.jpg";

/// `video.<ext>`: the file that is tagged.
pub fn tagged_source_name(ext: &str) -> (r: String)
    ensures
        r@ == "video."@ + ext@,
{
    concat2("video.", ext)
}

/// `video_tagged.<ext>`: the converter's output, renamed over the source
/// once the conversion succeeded.
pub fn tagged_output_name(ext: &str) -> (r: String)
    ensures
        r@ == "video_tagged."@ + ext@,
{
    concat2("video_tagged.", ext)
}

/// The arguments that fetch a thumbnail quietly, following redirects.
pub open spec fn thumbnail_fetch_args_spec(url: Seq<char>, dest: Seq<char>) -> Seq<Seq<char>> {
    seq!["-sL"@, url, "-o"@, dest]
}

/// The arguments of the transfer tool that fetches a thumbnail to `dest`.
pub fn thumbnail_fetch_args(url: &str, dest: &str) -> (r: Vec<String>)
    ensures
        texts(r@) == thumbnail_fetch_args_spec(url@, dest@),
{
    let mut r: Vec<String> = Vec::new();
    push_arg(&mut r, "-sL");
    push_arg(&mut r, url);
    push_arg(&mut r, "-o");
    push_arg(&mut r, dest);
    assert(texts(r@) =~= thumbnail_fetch_args_spec(url@, dest@));
    r
}

/// The stream options: for audio, the audio stream and the picture as
/// cover art (converted to JPEG with ID3v2.3 tags for MP3); for video, all
/// streams and the picture attached.
pub open spec fn stream_opts(ext: Seq<char>) -> Seq<Seq<char>> {
    if is_audio_format(ext) {
        seq!["-map"@, "0:a"@, "-map"@, "1:0"@, "-c:a"@, "copy"@] + if ext == "mp3"@ {
            seq!["-c:v"@, "mjpeg"@, "-id3v2_version"@, "3"@]
        } else {
            seq!["-c:v"@, "copy"@]
        }
    } else {
        seq!["-map"@, "0"@, "-map"@, "1:0"@, "-c"@, "copy"@, "-disposition:v:1"@, "attached_pic"@]
    }
}

/// `-metadata <key>=<value>` when the value is not empty.
pub open spec fn tag_opt(key: Seq<char>, value: Seq<char>) -> Seq<Seq<char>> {
    if value.len() > 0 {
        seq!["-metadata"@, key + "="@ + value]
    } else {
        Seq::empty()
    }
}

/// The converter arguments that tag `video` with the picture `thumb` and
/// write `tagged`: title and artist from the video title, album from the
/// playlist title.
pub open spec fn tag_command_spec(
    video: Seq<char>,
    thumb: Seq<char>,
    tagged: Seq<char>,
    ext: Seq<char>,
    video_title: Seq<char>,
    playlist_title: Seq<char>,
) -> Seq<Seq<char>> {
    let (artist, title, _album) = title_metadata(video_title);
    seq!["-y"@, "-i"@, video, "-i"@, thumb] + stream_opts(ext) + tag_opt("title"@, title) + tag_opt(
        "artist"@,
        artist,
    ) + tag_opt("album"@, playlist_title) + seq![tagged]
}

fn push_stream_opts(r: &mut Vec<String>, ext: &str)
    ensures
        texts(final(r)@) == texts(old(r)@) + stream_opts(ext@),
{
    if is_audio(ext) {
        push_arg(r, "-map");
        push_arg(r, "0:a");
        push_arg(r, "-map");
        push_arg(r, "1:0");
        push_arg(r, "-c:a");
        push_arg(r, "copy");
        if str_eq(ext, "mp3") {
            push_arg(r, "-c:v");
            push_arg(r, "mjpeg");
            push_arg(r, "-id3v2_version");
            push_arg(r, "3");
        } else {
            push_arg(r, "-c:v");
            push_arg(r, "copy");
        }
    } else {
        push_arg(r, "-map");
        push_arg(r, "0");
        push_arg(r, "-map");
        push_arg(r, "1:0");
        push_arg(r, "-c");
        push_arg(r, "copy");
        push_arg(r, "-disposition:v:1");
        push_arg(r, "attached_pic");
    }
    assert(texts(r@) =~= texts(old(r)@) + stream_opts(ext@));
}

fn push_tag(r: &mut Vec<String>, key: &str, value: &str)
    ensures
        texts(final(r)@) == texts(old(r)@) + tag_opt(key@, value@),
{
    if chars_of(value).len() > 0 {
        push_arg(r, "-metadata");
        let mut kv = concat2(key, "=");
        kv.append(value);
        push_arg(r, kv.as_str());
    }
    assert(texts(r@) =~= texts(old(r)@) + tag_opt(key@, value@));
}

/// The converter arguments that embed cover art and tags.
pub fn tag_command(
    video: &str,
    thumb: &str,
    tagged: &str,
    ext: &str,
    video_title: &str,
    playlist_title: &str,
) -> (r: Vec<String>)
    ensures
        texts(r@) == tag_command_spec(video@, thumb@, tagged@, ext@, video_title@, playlist_title@),
{
    let (artist, title, _album) = parse_title_metadata(video_title);
    let mut r: Vec<String> = Vec::new();
    push_arg(&mut r, "-y");
    push_arg(&mut r, "-i");
    push_arg(&mut r, video);
    push_arg(&mut r, "-i");
    push_arg(&mut r, thumb);
    push_stream_opts(&mut r, ext);
    push_tag(&mut r, "title", title.as_str());
    push_tag(&mut r, "artist", artist.as_str());
    push_tag(&mut r, "album", playlist_title);
    push_arg(&mut r, tagged);
    assert(texts(r@) =~= tag_command_spec(
        video@,
        thumb@,
        tagged@,
        ext@,
        video_title@,
        playlist_title@,
    ));
    r
}

/// The error reported when the converter failed: its first 200
/// characters of error output.
pub fn converter_error(stderr: &str) -> (r: String)
    ensures
        r@ == "ffmpeg error: "@ + first_chars(stderr@, 200),
{
    let head = take_chars(stderr, 200);
    concat2("ffmpeg error: ", head.as_str())
}

} // verus!

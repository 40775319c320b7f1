//! The shape of a download batch: where its videos come from, its title
//! and selection, and the log lines that follow each video.

use vstd::prelude::*;
use crate::text::{concat2, owned, decimal, push_decimal, str_has_char, opt_text};
use crate::patterns::{TIKTOK_USER_PATTERN, regex_capture, regex_capture_text};
use crate::types::VideoInfo;
use crate::download::{all_indices, multi_video_title};

verus! {

broadcast use vstd::string::group_string_axioms;

/// The user name that [`TIKTOK_USER_PATTERN`] captures in `url`, if it
/// matches.
pub open spec fn tiktok_user_of(url: Seq<char>) -> Option<Seq<char>> {
    match regex_capture_text(TIKTOK_USER_PATTERN@, url, 1) {
        Some(Some(u)) => Some(u),
        _ => None,
    }
}

/// The TikTok user a profile address names.
pub fn tiktok_username(url: &str) -> (r: Option<String>)
    ensures
        opt_text(r) == tiktok_user_of(url@),
{
    match regex_capture(TIKTOK_USER_PATTERN, url, 1) {
        Some(Some(u)) => Some(u),
        _ => None,
    }
}

/// Where the videos of a batch come from.
#[derive(Clone, Debug)]
pub enum BatchSource {
    /// The videos of the TikTok user named in the address.
    TikTokUser(String),
    /// TikTok video addresses, separated by white space or commas.
    TikTokVideos,
    /// One video.
    SingleVideo,
    /// Video addresses, one per line.
    VideoList,
    /// A playlist or channel.
    Playlist,
}

/// Where the videos of a batch come from: TikTok batches list the videos
/// of the user their address names, else the given videos; otherwise one
/// video, a list of addresses (when the text spans lines) or a playlist.
pub open spec fn batch_source_matches(r: BatchSource, is_tiktok: bool, single_video: bool, url: Seq<char>) -> bool {
    match r {
        BatchSource::TikTokUser(u) => is_tiktok && tiktok_user_of(url) == Some(u@),
        BatchSource::TikTokVideos => is_tiktok && tiktok_user_of(url) is None,
        BatchSource::SingleVideo => !is_tiktok && single_video,
        BatchSource::VideoList => !is_tiktok && !single_video && url.contains('\n'),
        BatchSource::Playlist => !is_tiktok && !single_video && !url.contains('\n'),
    }
}

/// Where the videos of a batch whose address (or address list) is `url`
/// come from.
pub fn batch_source(is_tiktok: bool, single_video: bool, url: &str) -> (r: BatchSource)
    ensures
        batch_source_matches(r, is_tiktok, single_video, url@),
{
    if is_tiktok {
        match tiktok_username(url) {
            Some(u) => BatchSource::TikTokUser(u),
            None => BatchSource::TikTokVideos,
        }
    } else if single_video {
        BatchSource::SingleVideo
    } else if str_has_char(url, '\n') {
        BatchSource::VideoList
    } else {
        BatchSource::Playlist
    }
}

/// The error when no address of a video list could be read.
pub const NO_VIDEOS_ERROR: &'static str = "Could not fetch info for any of the provided URLs";

/// The batch made of separately fetched videos: titled by their number,
/// all selected; an error when none could be fetched.
pub fn video_list_batch(videos: Vec<VideoInfo>) -> (r: Result<(String, Vec<VideoInfo>, Vec<usize>), String>)
    ensures
        videos@.len() == 0 <==> r is Err,
        r matches Ok((title, vs, sel)) ==> title@ == decimal(videos@.len()) + " videos"@ && vs@
            == videos@ && sel@ == all_indices(videos@.len()),
        r matches Err(e) ==> e@ == NO_VIDEOS_ERROR@,
{
    if videos.len() == 0 {
        return Err(owned(NO_VIDEOS_ERROR));
    }
    let n = videos.len();
    let title = multi_video_title(n);
    let mut sel: Vec<usize> = Vec::new();
    let mut i: usize = 0;
    while i < n
        invariant
            i <= n,
            sel@ == all_indices(i as nat),
        decreases n - i,
    {
        sel.push(i);
        assert(sel@ =~= all_indices((i + 1) as nat));
        i += 1;
    }
    Ok((title, videos, sel))
}

/// `[<idx>/<total>] <title> - queued`: the log line of a queued video.
pub fn queued_log_line(idx: usize, total: usize, title: &str) -> (r: String)
    ensures
        r@ == "["@ + decimal(idx as nat) + "/"@ + decimal(total as nat) + "] "@ + title@
            + " - queued"@,
{
    let mut r = started_log_line(idx, total, title);
    r.append(" - queued");
    r
}

/// `[<idx>/<total>] <title>`: the log line of a video whose download
/// starts.
pub fn started_log_line(idx: usize, total: usize, title: &str) -> (r: String)
    ensures
        r@ == "["@ + decimal(idx as nat) + "/"@ + decimal(total as nat) + "] "@ + title@,
{
    let mut r = owned("[");
    push_decimal(&mut r, idx as u64);
    r.append("/");
    push_decimal(&mut r, total as u64);
    r.append("] ");
    r.append(title);
    r
}

/// `[<idx>] <title> - already exists, skipping`: the log line of a video
/// an update run skips.
pub fn exists_log_line(idx: usize, title: &str) -> (r: String)
    ensures
        r@ == "["@ + decimal(idx as nat) + "] "@ + title@ + " - already exists, skipping"@,
{
    let mut r = owned("[");
    push_decimal(&mut r, idx as u64);
    r.append("] ");
    r.append(title);
    r.append(" - already exists, skipping");
    r
}

/// `Failed to fetch <url>: <error>`: the log line of an address of a video
/// list that could not be read.
pub fn fetch_failed_log_line(url: &str, error: &str) -> (r: String)
    ensures
        r@ == "Failed to fetch "@ + url@ + ": "@ + error@,
{
    let mut r = concat2("Failed to fetch ", url);
    r.append(": ");
    r.append(error);
    r
}

/// `  -> <n> comments`: the log line after the comments of a video were
/// saved.
pub fn comments_log_line(n: usize) -> (r: String)
    ensures
        r@ == "  -> "@ + decimal(n as nat) + " comments"@,
{
    let mut r = owned("  -> ");
    push_decimal(&mut r, n as u64);
    r.append(" comments");
    r
}

} // verus!

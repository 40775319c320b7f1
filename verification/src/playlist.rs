//! Fetching playlists and single videos: the downloader command lines and
//! the reading of its JSON listings.

use vstd::prelude::*;
use crate::text::{texts, push_arg, str_contains, has_substr, owned, str_eq, chars_of};
use crate::args::{
    TIKTOK_API_HOST, cookie_args, proxy_args, impersonate_args, push_extra, push_cookie, push_proxy,
    push_impersonate,
};
use crate::utils::{
    yt_dlp_extra_args, extract_playlist_id, playlist_id_of, playlist_url, thumbnail_url,
};
use crate::types::{VideoInfo, VideoRecord, PlaylistResult};
use crate::html::text_or;

verus! {

broadcast use vstd::string::group_string_axioms;

/// A YouTube channel page, addressed by handle (`/@`), id (`/channel/`),
/// custom name (`/c/`) or user name (`/user/`).
pub open spec fn is_channel_url(url: Seq<char>) -> bool {
    has_substr(url, "youtube.com/"@) && (has_substr(url, "/@"@) || has_substr(url, "/channel/"@)
        || has_substr(url, "/c/"@) || has_substr(url, "/user/"@))
}

/// Whether `url` is a YouTube channel page.
pub fn is_youtube_channel_url(url: &str) -> (b: bool)
    ensures
        b == is_channel_url(url@),
{
    str_contains(url, "youtube.com/") && (str_contains(url, "/@") || str_contains(url, "/channel/")
        || str_contains(url, "/c/") || str_contains(url, "/user/"))
}

/// The address to list for a playlist request: TikTok and channel
/// addresses as given, otherwise the playlist page of the id found in it
/// (or the text itself when it holds none).
pub open spec fn fetch_target(url: Seq<char>) -> Seq<char> {
    if has_substr(url, "tiktok.com"@) || is_channel_url(url) {
        url
    } else {
        match playlist_id_of(url) {
            Some(id) => "https://www.youtube.com/playlist?list="@ + id,
            None => url,
        }
    }
}

/// The address to list for a playlist request.
pub fn playlist_fetch_url(url: &str) -> (r: String)
    ensures
        r@ == fetch_target(url@),
{
    if str_contains(url, "tiktok.com") || is_youtube_channel_url(url) {
        owned(url)
    } else {
        match extract_playlist_id(url) {
            Some(id) => playlist_url(id.as_str()),
            None => owned(url),
        }
    }
}

/// The arguments that list a playlist (or a TikTok profile) as JSON.
pub open spec fn playlist_args(
    cookie_file: Seq<char>,
    is_tiktok: bool,
    impersonate: bool,
    target: Seq<char>,
    proxy: Option<String>,
) -> Seq<Seq<char>> {
    yt_dlp_extra_args() + cookie_args(cookie_file) + (if is_tiktok {
        seq!["--dump-json"@] + impersonate_args(impersonate) + seq![
            "--extractor-args"@,
            TIKTOK_API_HOST@,
        ]
    } else {
        seq!["--dump-json"@, "--flat-playlist"@]
    }) + seq![target] + proxy_args(proxy)
}

/// The downloader arguments that list a playlist as JSON lines.
pub fn playlist_fetch_args(
    cookie_file: &str,
    is_tiktok: bool,
    impersonate: bool,
    target: &str,
    proxy: &Option<String>,
) -> (r: Vec<String>)
    ensures
        texts(r@) == playlist_args(cookie_file@, is_tiktok, impersonate, target@, *proxy),
{
    let mut r: Vec<String> = Vec::new();
    push_extra(&mut r);
    push_cookie(&mut r, cookie_file);
    if is_tiktok {
        push_arg(&mut r, "--dump-json");
        push_impersonate(&mut r, impersonate);
        push_arg(&mut r, "--extractor-args");
        push_arg(&mut r, TIKTOK_API_HOST);
    } else {
        push_arg(&mut r, "--dump-json");
        push_arg(&mut r, "--flat-playlist");
    }
    push_arg(&mut r, target);
    push_proxy(&mut r, proxy);
    assert(texts(r@) =~= playlist_args(cookie_file@, is_tiktok, impersonate, target@, *proxy));
    r
}

/// The playlist title from the first listed record: its `playlist_title`,
/// else its `playlist`, else "YouTube Playlist".
pub open spec fn listing_title(records: Seq<Option<VideoRecord>>) -> Seq<char> {
    if records.len() > 0 && records[0] is Some {
        let d = records[0]->0;
        match d.playlist_title {
            Some(t) => t@,
            None => text_or(d.playlist, "YouTube Playlist"@),
        }
    } else {
        "YouTube Playlist"@
    }
}

/// The value of an optional text field, empty when absent.
pub open spec fn field(o: Option<String>) -> Seq<char> {
    text_or(o, Seq::empty())
}

/// A listed video that can be downloaded: not private, not members-only,
/// not an upcoming or finished live stream, and with a real title.
pub open spec fn is_listed_video(d: VideoRecord) -> bool {
    &&& field(d.availability) != "private"@
    &&& field(d.availability) != "premium_only"@
    &&& field(d.live_status) != "is_upcoming"@
    &&& field(d.live_status) != "post_live"@
    &&& field(d.title).len() > 0
    &&& field(d.title) != "[Private video]"@
    &&& field(d.title) != "[Deleted video]"@
}

/// The thumbnail of a listed video: its own when not empty, otherwise the
/// standard thumbnail of its id (none for TikTok).
pub open spec fn listed_thumbnail(d: VideoRecord, is_tiktok: bool) -> Seq<char> {
    if field(d.thumbnail).len() > 0 {
        field(d.thumbnail)
    } else if is_tiktok {
        Seq::empty()
    } else {
        "https://i.ytimg.com/vi/"@ + field(d.id) + "/hqdefault.jpg"@
    }
}

/// The video described by a listed record.
pub open spec fn listed_video_matches(v: VideoInfo, d: VideoRecord, is_tiktok: bool) -> bool {
    &&& v.id@ == field(d.id)
    &&& v.title@ == field(d.title)
    &&& v.channel@ == field(d.channel)
    &&& v.duration == d.duration
    &&& v.thumbnail@ == listed_thumbnail(d, is_tiktok)
}

/// The records of `records` that describe downloadable videos, in order
/// (unreadable lines are `None`).
pub open spec fn listed_records(records: Seq<Option<VideoRecord>>) -> Seq<VideoRecord>
    decreases records.len(),
{
    if records.len() == 0 {
        Seq::empty()
    } else {
        let prev = listed_records(records.drop_last());
        match records.last() {
            Some(d) => if is_listed_video(d) {
                prev.push(d)
            } else {
                prev
            },
            None => prev,
        }
    }
}

fn field_exec(o: &Option<String>) -> (r: String)
    ensures
        r@ == field(*o),
{
    match o {
        Some(s) => s.clone(),
        None => String::new(),
    }
}

fn field_is(o: &Option<String>, lit: &str) -> (b: bool)
    ensures
        b == (field(*o) == lit@),
{
    str_eq(field_exec(o).as_str(), lit)
}

fn listed_video(d: &VideoRecord) -> (b: bool)
    ensures
        b == is_listed_video(*d),
{
    let title = field_exec(&d.title);
    !field_is(&d.availability, "private") && !field_is(&d.availability, "premium_only")
        && !field_is(&d.live_status, "is_upcoming") && !field_is(&d.live_status, "post_live")
        && chars_of(title.as_str()).len() > 0 && !str_eq(title.as_str(), "[Private video]")
        && !str_eq(title.as_str(), "[Deleted video]")
}

fn video_of_listed(d: &VideoRecord, is_tiktok: bool) -> (v: VideoInfo)
    ensures
        listed_video_matches(v, *d, is_tiktok),
{
    let id = field_exec(&d.id);
    let thumb = field_exec(&d.thumbnail);
    let thumbnail = if chars_of(thumb.as_str()).len() > 0 {
        thumb
    } else if is_tiktok {
        String::new()
    } else {
        thumbnail_url(id.as_str())
    };
    VideoInfo {
        id,
        title: field_exec(&d.title),
        channel: field_exec(&d.channel),
        duration: d.duration,
        thumbnail,
    }
}

/// The playlist described by the downloader's JSON lines: the title from
/// the first line, and the downloadable videos in order.
pub fn playlist_from_records(records: &Vec<Option<VideoRecord>>, is_tiktok: bool) -> (r: PlaylistResult)
    ensures
        r.title@ == listing_title(records@),
        r.videos@.len() == listed_records(records@).len(),
        forall|i: int| 0 <= i < r.videos@.len() ==> listed_video_matches(#[trigger] r.videos@[i], listed_records(records@)[i], is_tiktok),
{
    let title = if records.len() > 0 {
        match &records[0] {
            Some(d) => match &d.playlist_title {
                Some(t) => t.clone(),
                None => match &d.playlist {
                    Some(p) => p.clone(),
                    None => owned("YouTube Playlist"),
                },
            },
            None => owned("YouTube Playlist"),
        }
    } else {
        owned("YouTube Playlist")
    };
    let mut videos: Vec<VideoInfo> = Vec::new();
    let mut i: usize = 0;
    while i < records.len()
        invariant
            i <= records@.len(),
            videos@.len() == listed_records(records@.take(i as int)).len(),
            forall|j: int| 0 <= j < videos@.len() ==> listed_video_matches(#[trigger] videos@[j], listed_records(records@.take(i as int))[j], is_tiktok),
        decreases records.len() - i,
    {
        assert(records@.take(i + 1).drop_last() == records@.take(i as int));
        assert(records@.take(i + 1).last() == records@[i as int]);
        match &records[i] {
            Some(d) => {
                if listed_video(d) {
                    videos.push(video_of_listed(d, is_tiktok));
                }
            },
            None => {},
        }
        i += 1;
    }
    assert(records@.take(records@.len() as int) == records@);
    PlaylistResult { title, videos }
}

/// The arguments that describe one video as a single JSON document.
pub open spec fn single_video_args_spec(cookie_file: Seq<char>, url: Seq<char>, proxy: Option<String>) -> Seq<Seq<char>> {
    yt_dlp_extra_args() + cookie_args(cookie_file) + seq!["--dump-single-json"@, "--no-playlist"@, url]
        + proxy_args(proxy)
}

/// The downloader arguments that describe one video.
pub fn single_video_args(cookie_file: &str, url: &str, proxy: &Option<String>) -> (r: Vec<String>)
    ensures
        texts(r@) == single_video_args_spec(cookie_file@, url@, *proxy),
{
    let mut r: Vec<String> = Vec::new();
    push_extra(&mut r);
    push_cookie(&mut r, cookie_file);
    push_arg(&mut r, "--dump-single-json");
    push_arg(&mut r, "--no-playlist");
    push_arg(&mut r, url);
    push_proxy(&mut r, proxy);
    assert(texts(r@) =~= single_video_args_spec(cookie_file@, url@, *proxy));
    r
}

/// The video described by a single-video record: title "Unknown" when
/// missing, and the standard thumbnail when it has none.
pub open spec fn single_video_matches(v: VideoInfo, d: VideoRecord) -> bool {
    &&& v.id@ == field(d.id)
    &&& v.title@ == text_or(d.title, "Unknown"@)
    &&& v.channel@ == field(d.channel)
    &&& v.duration == d.duration
    &&& v.thumbnail@ == listed_thumbnail(d, false)
}

/// The video described by the downloader's JSON for a single video.
pub fn video_from_single(d: &VideoRecord) -> (v: VideoInfo)
    ensures
        single_video_matches(v, *d),
{
    let mut v = video_of_listed(d, false);
    v.title = match &d.title {
        Some(t) => t.clone(),
        None => owned("Unknown"),
    };
    v
}

/// The arguments that describe one TikTok video.
pub open spec fn tiktok_video_args_spec(
    url: Seq<char>,
    no_watermark: bool,
    impersonate: bool,
    proxy: Option<String>,
) -> Seq<Seq<char>> {
    yt_dlp_extra_args() + seq!["--dump-single-json"@, "--no-playlist"@] + args_if_watermark(
        no_watermark,
    ) + impersonate_args(impersonate) + seq!["--extractor-args"@, TIKTOK_API_HOST@, url]
        + proxy_args(proxy)
}

/// `--extractor-args tiktok:video_codec=h264` when a watermark-free copy is
/// wanted.
pub open spec fn args_if_watermark(no_watermark: bool) -> Seq<Seq<char>> {
    if no_watermark {
        seq!["--extractor-args"@, "tiktok:video_codec=h264"@]
    } else {
        Seq::empty()
    }
}

/// The downloader arguments that describe one TikTok video.
pub fn tiktok_video_args(url: &str, no_watermark: bool, impersonate: bool, proxy: &Option<String>) -> (r: Vec<String>)
    ensures
        texts(r@) == tiktok_video_args_spec(url@, no_watermark, impersonate, *proxy),
{
    let mut r: Vec<String> = Vec::new();
    push_extra(&mut r);
    push_arg(&mut r, "--dump-single-json");
    push_arg(&mut r, "--no-playlist");
    if no_watermark {
        push_arg(&mut r, "--extractor-args");
        push_arg(&mut r, "tiktok:video_codec=h264");
    }
    push_impersonate(&mut r, impersonate);
    push_arg(&mut r, "--extractor-args");
    push_arg(&mut r, TIKTOK_API_HOST);
    push_arg(&mut r, url);
    push_proxy(&mut r, proxy);
    assert(texts(r@) =~= tiktok_video_args_spec(url@, no_watermark, impersonate, *proxy));
    r
}

/// The video described by the downloader's JSON for a TikTok video: title
/// "TikTok" when missing, thumbnail as given.
pub open spec fn tiktok_video_matches(v: VideoInfo, d: VideoRecord) -> bool {
    &&& v.id@ == field(d.id)
    &&& v.title@ == text_or(d.title, "TikTok"@)
    &&& v.channel@ == field(d.channel)
    &&& v.duration == d.duration
    &&& v.thumbnail@ == field(d.thumbnail)
}

/// The video described by a TikTok record.
pub fn video_from_tiktok(d: &VideoRecord) -> (v: VideoInfo)
    ensures
        tiktok_video_matches(v, *d),
{
    VideoInfo {
        id: field_exec(&d.id),
        title: match &d.title {
            Some(t) => t.clone(),
            None => owned("TikTok"),
        },
        channel: field_exec(&d.channel),
        duration: d.duration,
        thumbnail: field_exec(&d.thumbnail),
    }
}

/// The listing keeps exactly the downloadable records: every listed record
/// is downloadable and comes from the input, and every downloadable input
/// record is listed; the private and deleted placeholders never are.
pub proof fn lemma_listing_exact(records: Seq<Option<VideoRecord>>)
    ensures
        forall|k: int| #![trigger listed_records(records)[k]] 0 <= k < listed_records(records).len() ==> records.contains(Some(listed_records(records)[k])) && (field(listed_records(records)[k].title).len() > 0 && field(listed_records(records)[k].title) != "[Private video]"@ && field(listed_records(records)[k].title) != "[Deleted video]"@ && field(listed_records(records)[k].availability) != "private"@ && field(listed_records(records)[k].availability) != "premium_only"@ && field(listed_records(records)[k].live_status) != "is_upcoming"@ && field(listed_records(records)[k].live_status) != "post_live"@),
        forall|j: int| 0 <= j < records.len() && (#[trigger] records[j] matches Some(d) && (field(d.title).len() > 0 && field(d.title) != "[Private video]"@ && field(d.title) != "[Deleted video]"@ && field(d.availability) != "private"@ && field(d.availability) != "premium_only"@ && field(d.live_status) != "is_upcoming"@ && field(d.live_status) != "post_live"@))
            ==> listed_records(records).contains(records[j]->0),
        forall|k: int| 0 <= k < listed_records(records).len() ==> field(
            (#[trigger] listed_records(records)[k]).title,
        ) != "[Private video]"@ && field(listed_records(records)[k].title) != "[Deleted video]"@,
    decreases records.len(),
{
    if records.len() > 0 {
        let p = records.drop_last();
        lemma_listing_exact(p);
        let prev = listed_records(p);
        let cur = listed_records(records);
        assert forall|k: int| #![trigger cur[k]] 0 <= k < cur.len() implies records.contains(Some(cur[k])) && (field(cur[k].title).len() > 0 && field(cur[k].title) != "[Private video]"@ && field(cur[k].title) != "[Deleted video]"@ && field(cur[k].availability) != "private"@ && field(cur[k].availability) != "premium_only"@ && field(cur[k].live_status) != "is_upcoming"@ && field(cur[k].live_status) != "post_live"@) by {
            if k < prev.len() {
                assert(cur[k] == prev[k]);
                assert(p.contains(Some(prev[k])));
                let j = choose|j: int| 0 <= j < p.len() && p[j] == Some(prev[k]);
                assert(records[j] == p[j]);
            } else {
                assert(records[records.len() - 1] == records.last());
            }
        }
        assert forall|j: int| 0 <= j < records.len() && (#[trigger] records[j] matches Some(d)
            && (field(d.title).len() > 0 && field(d.title) != "[Private video]"@ && field(d.title) != "[Deleted video]"@ && field(d.availability) != "private"@ && field(d.availability) != "premium_only"@ && field(d.live_status) != "is_upcoming"@ && field(d.live_status) != "post_live"@)) implies cur.contains(records[j]->0) by {
            if j < p.len() {
                assert(p[j] == records[j]);
                let k = choose|k: int| 0 <= k < prev.len() && prev[k] == p[j]->0;
                assert(cur[k] == prev[k]);
            } else {
                assert(cur[cur.len() - 1] == records[j]->0);
            }
        }
    }
}

} // verus!

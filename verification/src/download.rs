//! Decisions of a download batch: which videos, which command lines, how
//! to read failures, and what to report.

use vstd::prelude::*;
use crate::text::{
    texts, push_arg, chars_of, is_ws, is_whitespace, trim_ws, trim_bounds, push_chars, string_of,
    has_substr, has_suffix, str_contains, vec_has_suffix, owned, concat2, decimal, push_decimal,
    sub_vec, split_pieces, split_on, lemma_trim_shape,
};
use crate::args::{
    TIKTOK_API_HOST, cookie_args, proxy_args, impersonate_args, push_extra, push_cookie, push_proxy,
    push_impersonate, args_if,
};
use crate::utils::{yt_dlp_extra_args, is_audio, is_audio_format, parse_title_metadata, title_metadata};
use crate::patterns::{PROGRESS_PATTERN, regex_capture, regex_capture_text};
use crate::playlist::args_if_watermark;

verus! {

broadcast use vstd::string::group_string_axioms;

/// A separator of a list of TikTok addresses: white space or a comma.
pub open spec fn is_url_separator(c: char) -> bool {
    is_ws(c) || c == ','
}

/// Splitting state: the pieces finished so far and the piece being read.
pub open spec fn url_list_state(s: Seq<char>) -> (Seq<Seq<char>>, Seq<char>)
    decreases s.len(),
{
    if s.len() == 0 {
        (Seq::empty(), Seq::empty())
    } else {
        let (done, cur) = url_list_state(s.drop_last());
        let c = s.last();
        if is_url_separator(c) {
            if cur.len() > 0 {
                (done.push(cur), Seq::empty())
            } else {
                (done, cur)
            }
        } else {
            (done, cur.push(c))
        }
    }
}

/// The non-empty pieces of `s` between white space and commas.
pub open spec fn url_list(s: Seq<char>) -> Seq<Seq<char>> {
    let (done, cur) = url_list_state(s);
    if cur.len() > 0 {
        done.push(cur)
    } else {
        done
    }
}

/// The addresses of a list separated by white space or commas.
pub fn split_url_list(text: &str) -> (r: Vec<String>)
    ensures
        texts(r@) == url_list(text@),
{
    let v = chars_of(text);
    let mut done: Vec<String> = Vec::new();
    let mut cur: Vec<char> = Vec::new();
    let mut i: usize = 0;
    while i < v.len()
        invariant
            i <= v@.len(),
            (texts(done@), cur@) == url_list_state(v@.take(i as int)),
        decreases v.len() - i,
    {
        let c = v[i];
        assert(v@.take(i + 1).drop_last() == v@.take(i as int));
        assert(v@.take(i + 1).last() == c);
        if is_whitespace(c) || c == ',' {
            if cur.len() > 0 {
                let piece = string_of(&cur);
                let ghost prev = done@;
                done.push(piece);
                assert(texts(done@) =~= texts(prev).push(cur@));
                cur = Vec::new();
            }
        } else {
            cur.push(c);
        }
        i += 1;
    }
    assert(v@.take(v@.len() as int) == v@);
    if cur.len() > 0 {
        let ghost prev = done@;
        done.push(string_of(&cur));
        assert(texts(done@) =~= texts(prev).push(cur@));
    }
    done
}


proof fn lemma_url_list_state(s: Seq<char>)
    ensures
        forall|k: int| 0 <= k < url_list_state(s).0.len() ==> (#[trigger] url_list_state(s).0[k]).len()
            > 0 && forall|c: char| #[trigger] url_list_state(s).0[k].contains(c) ==> !is_url_separator(c),
        forall|c: char| #[trigger] url_list_state(s).1.contains(c) ==> !is_url_separator(c),
    decreases s.len(),
{
    if s.len() > 0 {
        lemma_url_list_state(s.drop_last());
        let (done, cur) = url_list_state(s.drop_last());
        let c = s.last();
        if !is_url_separator(c) {
            assert forall|x: char| #[trigger] cur.push(c).contains(x) implies !is_url_separator(x) by {
                let i = choose|i: int| 0 <= i < cur.push(c).len() && cur.push(c)[i] == x;
                if i < cur.len() {
                    assert(cur[i] == x);
                    assert(cur.contains(x));
                }
            }
        }
    }
}

/// Each address read from a list is non-empty and holds no white space
/// and no comma.
pub proof fn lemma_url_list_pieces(s: Seq<char>)
    ensures
        forall|k: int| 0 <= k < url_list(s).len() ==> (#[trigger] url_list(s)[k]).len() > 0
            && forall|c: char| #[trigger] url_list(s)[k].contains(c) ==> !is_url_separator(c),
{
    lemma_url_list_state(s);
}

/// Splitting state for lines: the trimmed non-empty lines finished so far
/// and the line being read.
pub open spec fn line_list_state(s: Seq<char>) -> (Seq<Seq<char>>, Seq<char>)
    decreases s.len(),
{
    if s.len() == 0 {
        (Seq::empty(), Seq::empty())
    } else {
        let (done, cur) = line_list_state(s.drop_last());
        let c = s.last();
        if c == '\n' {
            if trim_ws(cur).len() > 0 {
                (done.push(trim_ws(cur)), Seq::empty())
            } else {
                (done, Seq::empty())
            }
        } else {
            (done, cur.push(c))
        }
    }
}

/// The lines of `s`, trimmed, without the empty ones.
pub open spec fn line_list(s: Seq<char>) -> Seq<Seq<char>> {
    let (done, cur) = line_list_state(s);
    if trim_ws(cur).len() > 0 {
        done.push(trim_ws(cur))
    } else {
        done
    }
}

fn trimmed_string(cur: &Vec<char>) -> (r: String)
    ensures
        r@ == trim_ws(cur@),
{
    let (a, b) = trim_bounds(cur);
    let mut r = String::new();
    push_chars(&mut r, cur, a, b);
    r
}

/// The non-empty trimmed lines of a text, one video address per line.
pub fn split_lines(text: &str) -> (r: Vec<String>)
    ensures
        texts(r@) == line_list(text@),
{
    let v = chars_of(text);
    let mut done: Vec<String> = Vec::new();
    let mut cur: Vec<char> = Vec::new();
    let mut i: usize = 0;
    while i < v.len()
        invariant
            i <= v@.len(),
            (texts(done@), cur@) == line_list_state(v@.take(i as int)),
        decreases v.len() - i,
    {
        let c = v[i];
        assert(v@.take(i + 1).drop_last() == v@.take(i as int));
        assert(v@.take(i + 1).last() == c);
        if c == '\n' {
            let t = trimmed_string(&cur);
            if chars_of(t.as_str()).len() > 0 {
                let ghost prev = done@;
                done.push(t);
                assert(texts(done@) =~= texts(prev).push(trim_ws(cur@)));
            }
            cur = Vec::new();
        } else {
            cur.push(c);
        }
        i += 1;
    }
    assert(v@.take(v@.len() as int) == v@);
    let t = trimmed_string(&cur);
    if chars_of(t.as_str()).len() > 0 {
        let ghost prev = done@;
        done.push(t);
        assert(texts(done@) =~= texts(prev).push(trim_ws(cur@)));
    }
    done
}

proof fn lemma_line_list_state(s: Seq<char>)
    ensures
        forall|k: int| 0 <= k < line_list_state(s).0.len() ==> {
            let l = #[trigger] line_list_state(s).0[k];
            &&& l.len() > 0
            &&& !is_ws(l[0]) && !is_ws(l.last())
            &&& !l.contains('\n')
        },
        !line_list_state(s).1.contains('\n'),
    decreases s.len(),
{
    if s.len() > 0 {
        lemma_line_list_state(s.drop_last());
        let (done, cur) = line_list_state(s.drop_last());
        let c = s.last();
        if c == '\n' {
            lemma_trim_shape(cur);
        } else {
            if cur.push(c).contains('\n') {
                let i = choose|i: int| 0 <= i < cur.push(c).len() && cur.push(c)[i] == '\n';
                assert(cur[i] == '\n');
            }
        }
    }
}

/// Each address read from a list of lines is non-empty, has no white
/// space at either end and spans one line.
pub proof fn lemma_line_list_pieces(s: Seq<char>)
    ensures
        forall|k: int| 0 <= k < line_list(s).len() ==> {
            let l = #[trigger] line_list(s)[k];
            &&& l.len() > 0
            &&& !is_ws(l[0]) && !is_ws(l.last())
            &&& !l.contains('\n')
        },
{
    lemma_line_list_state(s);
    let (done, cur) = line_list_state(s);
    lemma_trim_shape(cur);
}

/// The indices `0..n`.
pub open spec fn all_indices(n: nat) -> Seq<usize> {
    Seq::new(n, |i: int| i as usize)
}

/// The videos to download: those selected, or all `n` when none is.
pub fn selection(selected: &Vec<usize>, n: usize) -> (r: Vec<usize>)
    ensures
        r@ == if selected@.len() == 0 {
            all_indices(n as nat)
        } else {
            selected@
        },
{
    if selected.len() > 0 {
        return selected.clone();
    }
    let mut r: Vec<usize> = Vec::new();
    let mut i: usize = 0;
    while i < n
        invariant
            i <= n,
            r@ == all_indices(i as nat),
        decreases n - i,
    {
        r.push(i);
        assert(r@ =~= all_indices((i + 1) as nat));
        i += 1;
    }
    r
}

/// Whether index `i` is selected.
pub fn is_selected(selected: &Vec<usize>, i: usize) -> (b: bool)
    ensures
        b == selected@.contains(i),
{
    let mut k: usize = 0;
    while k < selected.len()
        invariant
            k <= selected@.len(),
            forall|j: int| 0 <= j < k ==> selected@[j] != i,
        decreases selected.len() - k,
    {
        if selected[k] == i {
            return true;
        }
        k += 1;
    }
    false
}

/// `s` without its trailing slashes.
pub open spec fn trim_end_slashes(s: Seq<char>) -> Seq<char>
    decreases s.len(),
{
    if s.len() > 0 && s.last() == '/' {
        trim_end_slashes(s.drop_last())
    } else {
        s
    }
}

/// The address to list for a TikTok user: a video or another page of the
/// user as given, otherwise the user's profile page.
pub open spec fn tiktok_target(url: Seq<char>, username: Seq<char>) -> Seq<char> {
    if has_substr(url, "/video/"@) || (has_substr(url, "/@"@) && !has_suffix(
        trim_end_slashes(url),
        username,
    )) {
        url
    } else {
        "https://www.tiktok.com/@"@ + username
    }
}

/// The address to list for a TikTok user found in `url`.
pub fn tiktok_user_target(url: &str, username: &str) -> (r: String)
    ensures
        r@ == tiktok_target(url@, username@),
{
    let v = chars_of(url);
    let mut k = v.len();
    assert(v@.take(v@.len() as int) == v@);
    while k > 0 && v[k - 1] == '/'
        invariant
            k <= v@.len(),
            trim_end_slashes(v@) == trim_end_slashes(v@.take(k as int)),
        decreases k,
    {
        assert(v@.take(k as int).drop_last() == v@.take(k - 1));
        k -= 1;
    }
    proof {
        assert(v@.take(v@.len() as int) == v@);
    }
    let trimmed = sub_vec(&v, 0, k);
    assert(trimmed@ == v@.take(k as int));
    if str_contains(url, "/video/") || (str_contains(url, "/@") && !vec_has_suffix(
        &trimmed,
        &chars_of(username),
    )) {
        owned(url)
    } else {
        concat2("https://www.tiktok.com/@", username)
    }
}

/// `@<username>`: the title of a TikTok user's downloads.
pub fn tiktok_user_title(username: &str) -> (r: String)
    ensures
        r@ == "@"@ + username@,
{
    concat2("@", username)
}

/// `<n> videos`: the title of a batch of separately given videos.
pub fn multi_video_title(n: usize) -> (r: String)
    ensures
        r@ == decimal(n as nat) + " videos"@,
{
    let mut r = String::new();
    push_decimal(&mut r, n as u64);
    r.append(" videos");
    r
}

/// The first log line of a batch.
pub fn batch_log_line(single_video: bool, title: &str, total: usize) -> (r: String)
    ensures
        r@ == if single_video {
            "Video: "@ + title@
        } else {
            "Playlist: "@ + title@ + " ("@ + decimal(total as nat) + " videos)"@
        },
{
    if single_video {
        concat2("Video: ", title)
    } else {
        let mut r = concat2("Playlist: ", title);
        r.append(" (");
        push_decimal(&mut r, total as u64);
        r.append(" videos)");
        r
    }
}

/// Seconds a download waits before it starts, so that downloads do not
/// all start at once.
pub fn start_delay_secs(idx: usize) -> (r: u64)
    ensures
        r == (idx % 3) * 2,
{
    ((idx % 3) * 2) as u64
}

/// The number of downloads that may run at once: at least one.
pub fn concurrency_limit(max_concurrent: usize) -> (r: usize)
    ensures
        r == if max_concurrent < 1 { 1 } else { max_concurrent },
        r >= 1,
{
    if max_concurrent < 1 {
        1
    } else {
        max_concurrent
    }
}

/// The page of a video: TikTok ids under a placeholder user, full
/// addresses as given, otherwise the YouTube watch page.
pub open spec fn video_page(id: Seq<char>, is_tiktok: bool) -> Seq<char> {
    if is_tiktok && !has_substr(id, "http"@) {
        "https://www.tiktok.com/@_/video/"@ + id
    } else if has_substr(id, "http"@) {
        id
    } else {
        "https://www.youtube.com/watch?v="@ + id
    }
}

/// The page a video is downloaded from.
pub fn video_page_url(id: &str, is_tiktok: bool) -> (r: String)
    ensures
        r@ == video_page(id@, is_tiktok),
{
    let has_http = str_contains(id, "http");
    if is_tiktok && !has_http {
        concat2("https://www.tiktok.com/@_/video/", id)
    } else if has_http {
        owned(id)
    } else {
        concat2("https://www.youtube.com/watch?v=", id)
    }
}

/// Seconds a download may take: 30 minutes for videos over an hour, 10
/// minutes otherwise.
pub fn download_timeout_secs(duration: Option<u64>) -> (r: u64)
    ensures
        r == match duration {
            Some(d) => if d > 3600 { 1800u64 } else { 600u64 },
            None => 600u64,
        },
{
    match duration {
        Some(d) => if d > 3600 {
            1800
        } else {
            600
        },
        None => 600,
    }
}

/// The closing report of a batch.
pub fn summary_message(video_ok: u32, total: usize, comment_ok: u32, total_comments: u32) -> (r: String)
    ensures
        r@ == "\nDone! Videos: "@ + decimal(video_ok as nat) + "/"@ + decimal(total as nat)
            + " | Comments: "@ + decimal(comment_ok as nat) + " ("@ + decimal(total_comments as nat)
            + " total)"@,
{
    let mut r = owned("\nDone! Videos: ");
    push_decimal(&mut r, video_ok as u64);
    r.append("/");
    push_decimal(&mut r, total as u64);
    r.append(" | Comments: ");
    push_decimal(&mut r, comment_ok as u64);
    r.append(" (");
    push_decimal(&mut r, total_comments as u64);
    r.append(" total)");
    r
}


/// The arguments that fetch the comments of a video without downloading it.
pub open spec fn comment_args_spec(
    cookie_file: Seq<char>,
    proxy: Option<String>,
    template: Seq<char>,
    url: Seq<char>,
) -> Seq<Seq<char>> {
    yt_dlp_extra_args() + cookie_args(cookie_file) + proxy_args(proxy) + seq![
        "--write-comments"@,
        "--skip-download"@,
        "--no-warnings"@,
        "--force-ipv4"@,
        "-o"@,
        template,
        url,
    ]
}

/// The downloader arguments that fetch the comments of a video; `template`
/// is the output template of the video's files.
pub fn comment_args(cookie_file: &str, proxy: &Option<String>, template: &str, url: &str) -> (r: Vec<String>)
    ensures
        texts(r@) == comment_args_spec(cookie_file@, *proxy, template@, url@),
{
    let mut r: Vec<String> = Vec::new();
    push_extra(&mut r);
    push_cookie(&mut r, cookie_file);
    push_proxy(&mut r, proxy);
    push_arg(&mut r, "--write-comments");
    push_arg(&mut r, "--skip-download");
    push_arg(&mut r, "--no-warnings");
    push_arg(&mut r, "--force-ipv4");
    push_arg(&mut r, "-o");
    push_arg(&mut r, template);
    push_arg(&mut r, url);
    assert(texts(r@) =~= comment_args_spec(cookie_file@, *proxy, template@, url@));
    r
}

/// The first `n` characters of `s` (all of it when shorter).
pub open spec fn first_chars(s: Seq<char>, n: nat) -> Seq<char> {
    if s.len() <= n {
        s
    } else {
        s.take(n as int)
    }
}

/// The first `n` characters of `s`.
pub fn take_chars(s: &str, n: usize) -> (r: String)
    ensures
        r@ == first_chars(s@, n as nat),
{
    let v = chars_of(s);
    if v.len() <= n {
        owned(s)
    } else {
        string_of(&sub_vec(&v, 0, n))
    }
}

/// The extractor arguments of a TikTok download.
pub open spec fn tiktok_download_extractor(no_watermark: bool) -> Seq<char> {
    if no_watermark {
        TIKTOK_API_HOST@ + ";video_codec=h264"@
    } else {
        TIKTOK_API_HOST@
    }
}

/// The options of a video download that depend on the output format.
pub open spec fn format_args(format: Seq<char>) -> Seq<Seq<char>> {
    if is_audio_format(format) {
        seq!["--extract-audio"@, "--audio-format"@, format]
    } else {
        seq!["--merge-output-format"@, format]
    }
}

/// Artist and title tags set from "Artist - Title" titles of audio
/// downloads when automatic tagging is on.
pub open spec fn tag_args(auto_tag: bool, format: Seq<char>, video_title: Seq<char>) -> Seq<Seq<char>> {
    let (artist, title, _album) = title_metadata(video_title);
    if auto_tag && is_audio_format(format) && artist.len() > 0 {
        seq!["--parse-metadata"@, "title:"@ + title, "--parse-metadata"@, "artist:"@ + artist]
    } else {
        Seq::empty()
    }
}

/// What a video download needs to know.
#[derive(Clone, Debug)]
pub struct DownloadRequest {
    pub cookie_file: String,
    pub is_tiktok: bool,
    pub no_watermark: bool,
    pub impersonate: bool,
    pub selector: String,
    pub template: String,
    pub max_concurrent: usize,
    pub write_info_json: bool,
    pub format: String,
    pub auto_tag: bool,
    pub video_title: String,
    pub proxy: Option<String>,
    pub url: String,
}

/// The fixed options of a video download.
pub open spec fn common_download_opts(selector: Seq<char>, template: Seq<char>, max_concurrent: nat) -> Seq<Seq<char>> {
    seq![
        "-f"@,
        selector,
        "-o"@,
        template,
        "--no-overwrites"@,
        "--continue"@,
        "--no-warnings"@,
        "--force-ipv4"@,
        "--retries"@,
        "10"@,
        "--fragment-retries"@,
        "10"@,
        "--socket-timeout"@,
        "30"@,
        "--throttled-rate"@,
        "100K"@,
        "--file-access-retries"@,
        "5"@,
        "--retry-sleep"@,
        "3"@,
        "--buffer-size"@,
        "16K"@,
        "--extractor-retries"@,
        "3"@,
        "--sleep-requests"@,
        "1"@,
        "--concurrent-fragments"@,
        decimal(max_concurrent),
        "--progress"@,
        "--newline"@,
    ]
}

/// The TikTok options of a video download.
pub open spec fn tiktok_download_opts(is_tiktok: bool, no_watermark: bool, impersonate: bool) -> Seq<Seq<char>> {
    if is_tiktok {
        seq!["--extractor-args"@, tiktok_download_extractor(no_watermark)] + impersonate_args(
            impersonate,
        )
    } else {
        Seq::empty()
    }
}

/// The arguments of a video download.
pub open spec fn download_args_spec(q: DownloadRequest) -> Seq<Seq<char>> {
    yt_dlp_extra_args() + cookie_args(q.cookie_file@) + tiktok_download_opts(
        q.is_tiktok,
        q.no_watermark,
        q.impersonate,
    ) + common_download_opts(q.selector@, q.template@, q.max_concurrent as nat) + args_if(
        q.write_info_json,
        seq!["--write-info-json"@],
    ) + format_args(q.format@) + tag_args(q.auto_tag, q.format@, q.video_title@) + proxy_args(
        q.proxy,
    ) + seq![q.url@]
}

fn push_tiktok_download_opts(r: &mut Vec<String>, is_tiktok: bool, no_watermark: bool, impersonate: bool)
    ensures
        texts(final(r)@) == texts(old(r)@) + tiktok_download_opts(is_tiktok, no_watermark, impersonate),
{
    if is_tiktok {
        let mut extractor = owned(TIKTOK_API_HOST);
        if no_watermark {
            extractor.append(";video_codec=h264");
        }
        push_arg(r, "--extractor-args");
        push_arg(r, extractor.as_str());
        push_impersonate(r, impersonate);
    }
    assert(texts(r@) =~= texts(old(r)@) + tiktok_download_opts(is_tiktok, no_watermark, impersonate));
}

fn push_common_download_opts(r: &mut Vec<String>, selector: &str, template: &str, max_concurrent: usize)
    ensures
        texts(final(r)@) == texts(old(r)@) + common_download_opts(selector@, template@, max_concurrent as nat),
{
    push_arg(r, "-f");
    push_arg(r, selector);
    push_arg(r, "-o");
    push_arg(r, template);
    push_arg(r, "--no-overwrites");
    push_arg(r, "--continue");
    push_arg(r, "--no-warnings");
    push_arg(r, "--force-ipv4");
    push_arg(r, "--retries");
    push_arg(r, "10");
    push_arg(r, "--fragment-retries");
    push_arg(r, "10");
    push_arg(r, "--socket-timeout");
    push_arg(r, "30");
    push_arg(r, "--throttled-rate");
    push_arg(r, "100K");
    push_arg(r, "--file-access-retries");
    push_arg(r, "5");
    push_arg(r, "--retry-sleep");
    push_arg(r, "3");
    push_arg(r, "--buffer-size");
    push_arg(r, "16K");
    push_arg(r, "--extractor-retries");
    push_arg(r, "3");
    push_arg(r, "--sleep-requests");
    push_arg(r, "1");
    push_arg(r, "--concurrent-fragments");
    let n = crate::text::decimal_string(max_concurrent as u64);
    push_arg(r, n.as_str());
    push_arg(r, "--progress");
    push_arg(r, "--newline");
    assert(texts(r@) =~= texts(old(r)@) + common_download_opts(selector@, template@, max_concurrent as nat));
}

fn push_format_opts(r: &mut Vec<String>, format: &str)
    ensures
        texts(final(r)@) == texts(old(r)@) + format_args(format@),
{
    if is_audio(format) {
        push_arg(r, "--extract-audio");
        push_arg(r, "--audio-format");
        push_arg(r, format);
    } else {
        push_arg(r, "--merge-output-format");
        push_arg(r, format);
    }
    assert(texts(r@) =~= texts(old(r)@) + format_args(format@));
}

fn push_tag_opts(r: &mut Vec<String>, auto_tag: bool, format: &str, video_title: &str)
    ensures
        texts(final(r)@) == texts(old(r)@) + tag_args(auto_tag, format@, video_title@),
{
    if auto_tag && is_audio(format) {
        let (artist, title, _album) = parse_title_metadata(video_title);
        if chars_of(artist.as_str()).len() > 0 {
            push_arg(r, "--parse-metadata");
            push_arg(r, concat2("title:", title.as_str()).as_str());
            push_arg(r, "--parse-metadata");
            push_arg(r, concat2("artist:", artist.as_str()).as_str());
        }
    }
    assert(texts(r@) =~= texts(old(r)@) + tag_args(auto_tag, format@, video_title@));
}

/// The downloader arguments of a video download.
pub fn download_args(q: &DownloadRequest) -> (r: Vec<String>)
    ensures
        texts(r@) == download_args_spec(*q),
{
    let mut r: Vec<String> = Vec::new();
    push_extra(&mut r);
    push_cookie(&mut r, q.cookie_file.as_str());
    push_tiktok_download_opts(&mut r, q.is_tiktok, q.no_watermark, q.impersonate);
    push_common_download_opts(&mut r, q.selector.as_str(), q.template.as_str(), q.max_concurrent);
    let ghost fixed = texts(r@);
    if q.write_info_json {
        push_arg(&mut r, "--write-info-json");
    }
    assert(texts(r@) =~= fixed + args_if(q.write_info_json, seq!["--write-info-json"@]));
    push_format_opts(&mut r, q.format.as_str());
    push_tag_opts(&mut r, q.auto_tag, q.format.as_str(), q.video_title.as_str());
    push_proxy(&mut r, &q.proxy);
    push_arg(&mut r, q.url.as_str());
    assert(texts(r@) =~= download_args_spec(*q));
    r
}

/// Whether subtitles are fetched after a download: when asked for, and
/// never for audio formats.
pub fn wants_subtitles(download_subs: bool, format: &str) -> (b: bool)
    ensures
        b == (download_subs && !is_audio_format(format@)),
{
    download_subs && !is_audio(format)
}

/// Formats whose container can hold subtitles.
pub open spec fn embeds_subtitles(format: Seq<char>) -> bool {
    format == "mp4"@ || format == "webm"@ || format == "mkv"@
}

/// The subtitle languages: those given, else English.
pub open spec fn sub_langs_text(sub_langs: Option<String>) -> Seq<char> {
    match sub_langs {
        Some(l) => l@,
        None => "en"@,
    }
}

/// The options that fetch subtitles as SRT files, without the video.
pub open spec fn subtitle_opts(auto_subs: bool, sub_langs: Option<String>, format: Seq<char>) -> Seq<Seq<char>> {
    seq!["--write-subs"@, "--convert-subs"@, "srt"@, "--skip-download"@] + args_if(
        auto_subs,
        seq!["--write-auto-subs"@],
    ) + seq!["--sub-langs"@, sub_langs_text(sub_langs)] + args_if(
        embeds_subtitles(format),
        seq!["--embed-subs"@],
    ) + seq!["--no-overwrites"@, "--no-warnings"@, "--force-ipv4"@, "--sleep-requests"@, "1"@]
}

/// The arguments that fetch the subtitles of a downloaded video.
pub open spec fn subtitle_args_spec(
    cookie_file: Seq<char>,
    auto_subs: bool,
    sub_langs: Option<String>,
    format: Seq<char>,
    proxy: Option<String>,
    template: Seq<char>,
    url: Seq<char>,
) -> Seq<Seq<char>> {
    yt_dlp_extra_args() + cookie_args(cookie_file) + subtitle_opts(auto_subs, sub_langs, format)
        + proxy_args(proxy) + seq!["-o"@, template, url]
}

fn embeds_subtitles_exec(format: &str) -> (b: bool)
    ensures
        b == embeds_subtitles(format@),
{
    crate::text::str_eq(format, "mp4") || crate::text::str_eq(format, "webm")
        || crate::text::str_eq(format, "mkv")
}

fn push_subtitle_opts(r: &mut Vec<String>, auto_subs: bool, sub_langs: &Option<String>, format: &str)
    ensures
        texts(final(r)@) == texts(old(r)@) + subtitle_opts(auto_subs, *sub_langs, format@),
{
    push_arg(r, "--write-subs");
    push_arg(r, "--convert-subs");
    push_arg(r, "srt");
    push_arg(r, "--skip-download");
    let ghost before_auto = texts(r@);
    if auto_subs {
        push_arg(r, "--write-auto-subs");
    }
    assert(texts(r@) =~= before_auto + args_if(auto_subs, seq!["--write-auto-subs"@]));
    push_arg(r, "--sub-langs");
    match sub_langs {
        Some(l) => push_arg(r, l.as_str()),
        None => push_arg(r, "en"),
    }
    let ghost before_embed = texts(r@);
    if embeds_subtitles_exec(format) {
        push_arg(r, "--embed-subs");
    }
    assert(texts(r@) =~= before_embed + args_if(embeds_subtitles(format@), seq!["--embed-subs"@]));
    let ghost before_tail = texts(r@);
    push_arg(r, "--no-overwrites");
    push_arg(r, "--no-warnings");
    push_arg(r, "--force-ipv4");
    push_arg(r, "--sleep-requests");
    push_arg(r, "1");
    assert(texts(r@) =~= before_tail + seq![
        "--no-overwrites"@,
        "--no-warnings"@,
        "--force-ipv4"@,
        "--sleep-requests"@,
        "1"@,
    ]);
    assert(texts(r@) =~= texts(old(r)@) + subtitle_opts(auto_subs, *sub_langs, format@));
}

/// The downloader arguments that fetch the subtitles of a video.
pub fn subtitle_args(
    cookie_file: &str,
    auto_subs: bool,
    sub_langs: &Option<String>,
    format: &str,
    proxy: &Option<String>,
    template: &str,
    url: &str,
) -> (r: Vec<String>)
    ensures
        texts(r@) == subtitle_args_spec(
            cookie_file@,
            auto_subs,
            *sub_langs,
            format@,
            *proxy,
            template@,
            url@,
        ),
{
    let mut r: Vec<String> = Vec::new();
    push_extra(&mut r);
    push_cookie(&mut r, cookie_file);
    push_subtitle_opts(&mut r, auto_subs, sub_langs, format);
    push_proxy(&mut r, proxy);
    push_arg(&mut r, "-o");
    push_arg(&mut r, template);
    push_arg(&mut r, url);
    assert(texts(r@) =~= subtitle_args_spec(
        cookie_file@,
        auto_subs,
        *sub_langs,
        format@,
        *proxy,
        template@,
        url@,
    ));
    r
}

/// The TikTok options of a retried download.
pub open spec fn tiktok_retry_opts(is_tiktok: bool, no_watermark: bool, impersonate: bool) -> Seq<Seq<char>> {
    if is_tiktok {
        args_if_watermark(no_watermark) + impersonate_args(impersonate) + seq![
            "--extractor-retries"@,
            "5"@,
        ]
    } else {
        Seq::empty()
    }
}

/// The arguments of a retried download: the best single stream, with
/// fewer retries, merged into `format`.
pub open spec fn retry_args_spec(
    cookie_file: Seq<char>,
    is_tiktok: bool,
    no_watermark: bool,
    impersonate: bool,
    template: Seq<char>,
    format: Seq<char>,
    proxy: Option<String>,
    url: Seq<char>,
) -> Seq<Seq<char>> {
    yt_dlp_extra_args() + cookie_args(cookie_file) + tiktok_retry_opts(
        is_tiktok,
        no_watermark,
        impersonate,
    ) + seq![
        "-f"@,
        "best"@,
        "-o"@,
        template,
        "--no-overwrites"@,
        "--no-warnings"@,
        "--force-ipv4"@,
        "--retries"@,
        "3"@,
        "--fragment-retries"@,
        "3"@,
        "--socket-timeout"@,
        "30"@,
        "--throttled-rate"@,
        "100K"@,
        "--extractor-retries"@,
        "2"@,
        "--sleep-requests"@,
        "1"@,
        "--progress"@,
        "--newline"@,
        "--merge-output-format"@,
        format,
    ] + proxy_args(proxy) + seq![url]
}

fn push_retry_fixed(r: &mut Vec<String>, template: &str, format: &str)
    ensures
        texts(final(r)@) == texts(old(r)@) + seq![
            "-f"@,
            "best"@,
            "-o"@,
            template@,
            "--no-overwrites"@,
            "--no-warnings"@,
            "--force-ipv4"@,
            "--retries"@,
            "3"@,
            "--fragment-retries"@,
            "3"@,
            "--socket-timeout"@,
            "30"@,
            "--throttled-rate"@,
            "100K"@,
            "--extractor-retries"@,
            "2"@,
            "--sleep-requests"@,
            "1"@,
            "--progress"@,
            "--newline"@,
            "--merge-output-format"@,
            format@,
        ],
{
    push_arg(r, "-f");
    push_arg(r, "best");
    push_arg(r, "-o");
    push_arg(r, template);
    push_arg(r, "--no-overwrites");
    push_arg(r, "--no-warnings");
    push_arg(r, "--force-ipv4");
    push_arg(r, "--retries");
    push_arg(r, "3");
    push_arg(r, "--fragment-retries");
    push_arg(r, "3");
    push_arg(r, "--socket-timeout");
    push_arg(r, "30");
    push_arg(r, "--throttled-rate");
    push_arg(r, "100K");
    push_arg(r, "--extractor-retries");
    push_arg(r, "2");
    push_arg(r, "--sleep-requests");
    push_arg(r, "1");
    push_arg(r, "--progress");
    push_arg(r, "--newline");
    push_arg(r, "--merge-output-format");
    push_arg(r, format);
    assert(texts(r@) =~= texts(old(r)@) + seq![
        "-f"@,
        "best"@,
        "-o"@,
        template@,
        "--no-overwrites"@,
        "--no-warnings"@,
        "--force-ipv4"@,
        "--retries"@,
        "3"@,
        "--fragment-retries"@,
        "3"@,
        "--socket-timeout"@,
        "30"@,
        "--throttled-rate"@,
        "100K"@,
        "--extractor-retries"@,
        "2"@,
        "--sleep-requests"@,
        "1"@,
        "--progress"@,
        "--newline"@,
        "--merge-output-format"@,
        format@,
    ]);
}

/// The downloader arguments of a retried download.
pub fn retry_args(
    cookie_file: &str,
    is_tiktok: bool,
    no_watermark: bool,
    impersonate: bool,
    template: &str,
    format: &str,
    proxy: &Option<String>,
    url: &str,
) -> (r: Vec<String>)
    ensures
        texts(r@) == retry_args_spec(
            cookie_file@,
            is_tiktok,
            no_watermark,
            impersonate,
            template@,
            format@,
            *proxy,
            url@,
        ),
{
    let mut r: Vec<String> = Vec::new();
    push_extra(&mut r);
    push_cookie(&mut r, cookie_file);
    let ghost before = texts(r@);
    if is_tiktok {
        if no_watermark {
            push_arg(&mut r, "--extractor-args");
            push_arg(&mut r, "tiktok:video_codec=h264");
        }
        push_impersonate(&mut r, impersonate);
        push_arg(&mut r, "--extractor-retries");
        push_arg(&mut r, "5");
    }
    assert(texts(r@) =~= before + tiktok_retry_opts(is_tiktok, no_watermark, impersonate));
    push_retry_fixed(&mut r, template, format);
    push_proxy(&mut r, proxy);
    push_arg(&mut r, url);
    assert(texts(r@) =~= retry_args_spec(
        cookie_file@,
        is_tiktok,
        no_watermark,
        impersonate,
        template@,
        format@,
        *proxy,
        url@,
    ));
    r
}

/// The percentage that the progress pattern captures in `segment`, if it
/// matches.
pub open spec fn progress_of(segment: Seq<char>) -> Option<Seq<char>> {
    match regex_capture_text(PROGRESS_PATTERN@, segment, 1) {
        Some(Some(t)) => Some(t),
        _ => None,
    }
}

/// The percentage a progress line segment reports, if any.
pub fn progress_percent(segment: &str) -> (r: Option<String>)
    ensures
        r matches Some(t) ==> progress_of(segment@) == Some(t@),
        r is None <==> progress_of(segment@) is None,
{
    match regex_capture(PROGRESS_PATTERN, segment, 1) {
        Some(Some(t)) => Some(t),
        _ => None,
    }
}

/// The percentages reported by `segments`, in order.
pub open spec fn progress_in(segments: Seq<Seq<char>>) -> Seq<Seq<char>>
    decreases segments.len(),
{
    if segments.len() == 0 {
        Seq::empty()
    } else {
        let rest = progress_in(segments.drop_last());
        match progress_of(segments.last()) {
            Some(p) => rest.push(p),
            None => rest,
        }
    }
}

/// The percentages reported by one line of the downloader's output, whose
/// progress updates are separated by carriage returns.
pub fn line_progress(line: &str) -> (r: Vec<String>)
    ensures
        texts(r@) == progress_in(split_pieces(line@, '\r')),
{
    let segs = split_on(line, '\r');
    let ghost all = texts(segs@);
    let mut r: Vec<String> = Vec::new();
    let mut i: usize = 0;
    while i < segs.len()
        invariant
            i <= segs@.len(),
            all == texts(segs@),
            texts(r@) == progress_in(all.take(i as int)),
        decreases segs.len() - i,
    {
        assert(all.take(i + 1).drop_last() == all.take(i as int));
        assert(all.take(i + 1).last() == segs@[i as int]@);
        match progress_percent(segs[i].as_str()) {
            Some(p) => {
                let ghost prev = r@;
                r.push(p);
                assert(texts(r@) =~= texts(prev).push(p@));
            },
            None => {},
        }
        i += 1;
    }
    assert(all.take(all.len() as int) == all);
    r
}

/// The status shown while a download runs: `downloading <pct>%`.
pub fn progress_status(pct: &str) -> (r: String)
    ensures
        r@ == "downloading "@ + pct@ + "%"@,
{
    let mut r = concat2("downloading ", pct);
    r.append("%");
    r
}

/// The container of a download is the one asked for: an audio format
/// (mp3, flac, wav, ogg, m4a) is extracted into that format, and any other
/// format `f` is merged into `f` itself (`--merge-output-format f`).
pub proof fn lemma_download_container(q: DownloadRequest)
    ensures
        ({
            let f = q.format@;
            let a = download_args_spec(q);
            (f == "mp3"@ || f == "flac"@ || f == "wav"@ || f == "ogg"@ || f == "m4a"@) ==> exists|i: int|
                0 <= i && i + 2 < a.len() && #[trigger] a[i] == "--extract-audio"@ && a[i + 1]
                    == "--audio-format"@ && a[i + 2] == f
        }),
        ({
            let f = q.format@;
            let a = download_args_spec(q);
            !(f == "mp3"@ || f == "flac"@ || f == "wav"@ || f == "ogg"@ || f == "m4a"@) ==> exists|
                i: int,
            |
                0 <= i && i + 1 < a.len() && #[trigger] a[i] == "--merge-output-format"@ && a[i + 1]
                    == f
        }),
{
    let f = q.format@;
    let pre = yt_dlp_extra_args() + cookie_args(q.cookie_file@) + tiktok_download_opts(
        q.is_tiktok,
        q.no_watermark,
        q.impersonate,
    ) + common_download_opts(q.selector@, q.template@, q.max_concurrent as nat) + args_if(
        q.write_info_json,
        seq!["--write-info-json"@],
    );
    let fa = format_args(f);
    let rest = tag_args(q.auto_tag, f, q.video_title@) + proxy_args(q.proxy) + seq![q.url@];
    let a = download_args_spec(q);
    assert(a =~= pre + fa + rest);
    let w = pre.len() as int;
    if is_audio_format(f) {
        assert(a[w] == fa[0]);
        assert(a[w + 1] == fa[1]);
        assert(a[w + 2] == fa[2]);
    } else {
        assert(a[w] == fa[0]);
        assert(a[w + 1] == fa[1]);
    }
}

} // verus!

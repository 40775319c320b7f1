//! How a failed download is read: whether it is tried again, under which
//! label it is reported, which hint goes with it, and which lines of the
//! tool's error output are shown.

use vstd::prelude::*;
use crate::text::{has_substr, str_contains, owned, concat2, chars_of, string_of, sub_vec, texts};

verus! {

broadcast use vstd::string::group_string_axioms;

/// Why a failed download is tried again.
#[derive(PartialEq, Eq, Structural, Clone, Copy, Debug)]
pub enum RetryReason {
    ServerBusy,
    NoFormats,
    Network,
}

/// The server answered 503.
pub open spec fn says_server_busy(e: Seq<char>) -> bool {
    has_substr(e, "HTTP Error 503"@)
}

/// The transfer broke off.
pub open spec fn says_network_error(e: Seq<char>) -> bool {
    has_substr(e, "Giving up after"@) || has_substr(e, "bytes read"@)
}

/// The extractor found nothing to download.
pub open spec fn says_no_formats(e: Seq<char>) -> bool {
    has_substr(e, "No video formats found"@)
}

/// Whether, and why, a failed download with error output `e` is tried
/// again with a single-stream format. Audio downloads are never tried
/// again; a busy server is named before a missing format, and a missing
/// format (TikTok only) before a network error.
pub open spec fn retry_reason_of(e: Seq<char>, is_tiktok: bool, audio: bool) -> Option<RetryReason> {
    if audio {
        None
    } else if says_server_busy(e) {
        Some(RetryReason::ServerBusy)
    } else if is_tiktok && says_no_formats(e) {
        Some(RetryReason::NoFormats)
    } else if says_network_error(e) {
        Some(RetryReason::Network)
    } else {
        None
    }
}

/// Whether, and why, a failed download is tried again.
pub fn retry_reason(stderr: &str, is_tiktok: bool, audio: bool) -> (r: Option<RetryReason>)
    ensures
        r == retry_reason_of(stderr@, is_tiktok, audio),
        r is Some <==> (!audio && (says_server_busy(stderr@) || says_network_error(stderr@) || (
        is_tiktok && says_no_formats(stderr@)))),
{
    if audio {
        None
    } else if str_contains(stderr, "HTTP Error 503") {
        Some(RetryReason::ServerBusy)
    } else if is_tiktok && str_contains(stderr, "No video formats found") {
        Some(RetryReason::NoFormats)
    } else if str_contains(stderr, "Giving up after") || str_contains(stderr, "bytes read") {
        Some(RetryReason::Network)
    } else {
        None
    }
}

/// The words that name a retry reason in the log.
pub open spec fn retry_reason_text(r: RetryReason) -> Seq<char> {
    match r {
        RetryReason::ServerBusy => "Server busy (503)"@,
        RetryReason::NoFormats => "No video formats found, retrying without custom API hostname..."@,
        RetryReason::Network => "Network error"@,
    }
}

/// The log line that announces a retry.
pub fn retry_log_line(r: RetryReason) -> (s: String)
    ensures
        s@ == "  -> "@ + retry_reason_text(r) + ", retrying with single-stream format..."@,
{
    let mut s = owned("  -> ");
    match r {
        RetryReason::ServerBusy => s.append("Server busy (503)"),
        RetryReason::NoFormats => s.append(
            "No video formats found, retrying without custom API hostname...",
        ),
        RetryReason::Network => s.append("Network error"),
    }
    s.append(", retrying with single-stream format...");
    s
}

/// How a download that failed for good is reported.
#[derive(PartialEq, Eq, Structural, Clone, Copy, Debug)]
pub enum FailureKind {
    MembersOnly,
    Unavailable,
    RateLimited,
    CookieExpired,
    ServerBusy,
    NetworkError,
    Failed,
}

/// The video is for channel members, or needs a signed-in viewer.
pub open spec fn says_members_only(e: Seq<char>) -> bool {
    has_substr(e, "Join this channel"@) || has_substr(e, "members-only"@) || has_substr(
        e,
        "Sign in to confirm"@,
    )
}

/// The video is gone or private.
pub open spec fn says_unavailable(e: Seq<char>) -> bool {
    has_substr(e, "Video unavailable"@) || has_substr(e, "Private video"@)
}

/// The server answered 429.
pub open spec fn says_rate_limited(e: Seq<char>) -> bool {
    has_substr(e, "HTTP Error 429"@)
}

/// The error points at the cookies.
pub open spec fn says_cookie_expired(e: Seq<char>) -> bool {
    has_substr(e, "Sign in"@) || has_substr(e, "bot"@) || has_substr(e, "cookie"@) || has_substr(
        e,
        "HTTP Error 403"@,
    )
}

/// The kind of a failure with error output `e`: the first of members
/// only, unavailable, rate limited, cookie expired, server busy and
/// network error whose words occur in `e`, otherwise a plain failure.
pub open spec fn failure_kind_of(e: Seq<char>) -> FailureKind {
    if says_members_only(e) {
        FailureKind::MembersOnly
    } else if says_unavailable(e) {
        FailureKind::Unavailable
    } else if says_rate_limited(e) {
        FailureKind::RateLimited
    } else if says_cookie_expired(e) {
        FailureKind::CookieExpired
    } else if says_server_busy(e) {
        FailureKind::ServerBusy
    } else if says_network_error(e) {
        FailureKind::NetworkError
    } else {
        FailureKind::Failed
    }
}

/// The kind of a failed download, read from its error output.
pub fn classify_failure(stderr: &str) -> (k: FailureKind)
    ensures
        k == failure_kind_of(stderr@),
{
    if str_contains(stderr, "Join this channel") || str_contains(stderr, "members-only")
        || str_contains(stderr, "Sign in to confirm") {
        FailureKind::MembersOnly
    } else if str_contains(stderr, "Video unavailable") || str_contains(stderr, "Private video") {
        FailureKind::Unavailable
    } else if str_contains(stderr, "HTTP Error 429") {
        FailureKind::RateLimited
    } else if str_contains(stderr, "Sign in") || str_contains(stderr, "bot") || str_contains(
        stderr,
        "cookie",
    ) || str_contains(stderr, "HTTP Error 403") {
        FailureKind::CookieExpired
    } else if str_contains(stderr, "HTTP Error 503") {
        FailureKind::ServerBusy
    } else if str_contains(stderr, "Giving up after") || str_contains(stderr, "bytes read") {
        FailureKind::NetworkError
    } else {
        FailureKind::Failed
    }
}

/// The status label of a failure kind.
pub open spec fn failure_label_text(k: FailureKind) -> Seq<char> {
    match k {
        FailureKind::MembersOnly => "Members only"@,
        FailureKind::Unavailable => "Unavailable"@,
        FailureKind::RateLimited => "Rate limited"@,
        FailureKind::CookieExpired => "Cookie expired"@,
        FailureKind::ServerBusy => "Server busy"@,
        FailureKind::NetworkError => "Network error"@,
        FailureKind::Failed => "Failed"@,
    }
}

/// The status label shown for a failed download.
pub fn failure_label(k: FailureKind) -> (s: String)
    ensures
        s@ == failure_label_text(k),
{
    match k {
        FailureKind::MembersOnly => owned("Members only"),
        FailureKind::Unavailable => owned("Unavailable"),
        FailureKind::RateLimited => owned("Rate limited"),
        FailureKind::CookieExpired => owned("Cookie expired"),
        FailureKind::ServerBusy => owned("Server busy"),
        FailureKind::NetworkError => owned("Network error"),
        FailureKind::Failed => owned("Failed"),
    }
}

/// The hint logged when cookies may have expired.
pub const COOKIE_HINT: &'static str =
    "  Hint: Your cookies may have expired. Please re-export from browser and paste again.";

/// The hint logged when the server limits the request rate.
pub const RATE_LIMIT_HINT: &'static str =
    "  Hint: YouTube is rate-limiting requests. Try reducing parallel downloads or wait a few minutes.";

/// The hint that follows a failure: the cookie hint for expired cookies
/// and members-only videos, the rate-limit hint for rate limiting once a
/// retry has failed too, otherwise none.
pub open spec fn failure_hint_text(k: FailureKind, after_retry: bool) -> Option<Seq<char>> {
    match k {
        FailureKind::CookieExpired | FailureKind::MembersOnly => Some(COOKIE_HINT@),
        FailureKind::RateLimited => if after_retry {
            Some(RATE_LIMIT_HINT@)
        } else {
            None
        },
        _ => None,
    }
}

/// The hint logged after a failure, if any.
pub fn failure_hint(k: FailureKind, after_retry: bool) -> (r: Option<String>)
    ensures
        r matches Some(s) ==> failure_hint_text(k, after_retry) == Some(s@),
        r is None <==> failure_hint_text(k, after_retry) is None,
{
    match k {
        FailureKind::CookieExpired | FailureKind::MembersOnly => Some(owned(COOKIE_HINT)),
        FailureKind::RateLimited => if after_retry {
            Some(owned(RATE_LIMIT_HINT))
        } else {
            None
        },
        _ => None,
    }
}

/// The hint logged when fetching comments failed with message `msg`.
pub fn comment_error_hint(msg: &str) -> (r: Option<String>)
    ensures
        r matches Some(s) ==> s@ == COOKIE_HINT@,
        r is Some <==> says_cookie_expired(msg@),
{
    if str_contains(msg, "Sign in") || str_contains(msg, "bot") || str_contains(msg, "cookie")
        || str_contains(msg, "HTTP Error 403") {
        Some(owned(COOKIE_HINT))
    } else {
        None
    }
}

/// The log line of a failed comment fetch.
pub fn comment_error_line(msg: &str) -> (r: String)
    ensures
        r@ == "  -> Comment error: "@ + msg@,
{
    concat2("  -> Comment error: ", msg)
}

/// How an attempt to download a video ended.
#[derive(PartialEq, Eq, Structural, Clone, Copy, Debug)]
pub enum AttemptEnd {
    /// The tool ran past its time limit.
    TimedOut,
    /// The tool ended (`waited`: its exit was collected) and the media file
    /// is there or not (`saved`).
    Ended { waited: bool, saved: bool },
}

/// What follows an attempt to download a video.
#[derive(PartialEq, Eq, Structural, Clone, Copy, Debug)]
pub enum NextStep {
    /// The video is saved.
    Done,
    /// Try once more with a single-stream format.
    Retry(RetryReason),
    /// Give up: show the error output, the hint and the failure's label.
    Report(FailureKind),
    /// Give up after the time limit.
    TimedOut,
    /// Give up with the plain "Failed" status.
    Failed,
}

/// What follows the first attempt: success when the file is saved,
/// otherwise a retry when [`retry_reason_of`] names one, otherwise a report
/// of the failure.
pub open spec fn first_step_of(end: AttemptEnd, e: Seq<char>, is_tiktok: bool, audio: bool) -> NextStep {
    match end {
        AttemptEnd::TimedOut => NextStep::TimedOut,
        AttemptEnd::Ended { waited, saved } => if waited && saved {
            NextStep::Done
        } else {
            match retry_reason_of(e, is_tiktok, audio) {
                Some(r) => NextStep::Retry(r),
                None => NextStep::Report(failure_kind_of(e)),
            }
        },
    }
}

/// What follows the retried attempt: success when the file is saved, a
/// plain failure when the tool ended without it, otherwise a report.
pub open spec fn retry_step_of(end: AttemptEnd, e: Seq<char>) -> NextStep {
    match end {
        AttemptEnd::Ended { waited: true, saved } => if saved {
            NextStep::Done
        } else {
            NextStep::Failed
        },
        _ => NextStep::Report(failure_kind_of(e)),
    }
}

/// What follows the first attempt to download a video.
pub fn first_attempt_step(end: AttemptEnd, stderr: &str, is_tiktok: bool, audio: bool) -> (r: NextStep)
    ensures
        r == first_step_of(end, stderr@, is_tiktok, audio),
{
    match end {
        AttemptEnd::TimedOut => NextStep::TimedOut,
        AttemptEnd::Ended { waited, saved } => if waited && saved {
            NextStep::Done
        } else {
            match retry_reason(stderr, is_tiktok, audio) {
                Some(r) => NextStep::Retry(r),
                None => NextStep::Report(classify_failure(stderr)),
            }
        },
    }
}

/// What follows the retried attempt to download a video.
pub fn retry_attempt_step(end: AttemptEnd, stderr: &str) -> (r: NextStep)
    ensures
        r == retry_step_of(end, stderr@),
{
    match end {
        AttemptEnd::Ended { waited: true, saved } => if saved {
            NextStep::Done
        } else {
            NextStep::Failed
        },
        _ => NextStep::Report(classify_failure(stderr)),
    }
}

/// A video is tried at most twice: the retried attempt never asks for
/// another retry.
pub proof fn lemma_single_retry(end: AttemptEnd, e: Seq<char>)
    ensures
        !(retry_step_of(end, e) is Retry),
{
}

/// Audio downloads are never retried, and a retry always names why.
pub proof fn lemma_retry_only_for_video(end: AttemptEnd, e: Seq<char>, is_tiktok: bool)
    ensures
        !(first_step_of(end, e, is_tiktok, true) is Retry),
        first_step_of(end, e, is_tiktok, false) matches NextStep::Retry(r) ==> retry_reason_of(
            e,
            is_tiktok,
            false,
        ) == Some(r),
{
}

/// `l` without one carriage return at its end.
pub open spec fn strip_cr(l: Seq<char>) -> Seq<char> {
    if l.len() > 0 && l.last() == '\r' {
        l.drop_last()
    } else {
        l
    }
}

/// Line state of `s`: the lines ended by a line feed so far (each without
/// its `\r\n` or `\n`) and the characters after the last line feed.
pub open spec fn lines_state(s: Seq<char>) -> (Seq<Seq<char>>, Seq<char>)
    decreases s.len(),
{
    if s.len() == 0 {
        (Seq::empty(), Seq::empty())
    } else {
        let (done, cur) = lines_state(s.drop_last());
        if s.last() == '\n' {
            (done.push(strip_cr(cur)), Seq::empty())
        } else {
            (done, cur.push(s.last()))
        }
    }
}

/// The lines of `s` as `str::lines` gives them: split at `\n` or `\r\n`,
/// the last line ending optional.
pub open spec fn text_lines(s: Seq<char>) -> Seq<Seq<char>> {
    let (done, cur) = lines_state(s);
    if cur.len() > 0 {
        done.push(cur)
    } else {
        done
    }
}

fn finished_line(cur: &Vec<char>) -> (r: String)
    ensures
        r@ == strip_cr(cur@),
{
    if cur.len() > 0 && cur[cur.len() - 1] == '\r' {
        string_of(&sub_vec(cur, 0, cur.len() - 1))
    } else {
        string_of(cur)
    }
}

/// The lines of a text.
pub fn lines_of(s: &str) -> (r: Vec<String>)
    ensures
        texts(r@) == text_lines(s@),
{
    let v = chars_of(s);
    let mut done: Vec<String> = Vec::new();
    let mut cur: Vec<char> = Vec::new();
    let mut i: usize = 0;
    while i < v.len()
        invariant
            i <= v@.len(),
            (texts(done@), cur@) == lines_state(v@.take(i as int)),
        decreases v.len() - i,
    {
        let c = v[i];
        assert(v@.take(i + 1).drop_last() == v@.take(i as int));
        assert(v@.take(i + 1).last() == c);
        if c == '\n' {
            let ghost prev = done@;
            let line = finished_line(&cur);
            done.push(line);
            assert(texts(done@) =~= texts(prev).push(strip_cr(cur@)));
            cur = Vec::new();
        } else {
            cur.push(c);
        }
        i += 1;
    }
    assert(v@.take(v@.len() as int) == v@);
    if cur.len() > 0 {
        let ghost prev = done@;
        done.push(string_of(&cur));
        assert(texts(done@) =~= texts(prev).push(cur@));
    }
    done
}

/// The most lines of error output shown for a failed download.
pub const MAX_ERROR_LINES: usize = 40;

/// The log lines that show error output `e`: its first
/// [`MAX_ERROR_LINES`] lines, each after `"  | "`.
pub open spec fn error_log_lines_of(e: Seq<char>) -> Seq<Seq<char>> {
    let ls = text_lines(e);
    let n = if ls.len() < MAX_ERROR_LINES { ls.len() as int } else { MAX_ERROR_LINES as int };
    ls.take(n).map_values(|l: Seq<char>| "  | "@ + l)
}

/// The log lines that show the error output of a failed download.
pub fn error_log_lines(stderr: &str) -> (r: Vec<String>)
    ensures
        texts(r@) == error_log_lines_of(stderr@),
        r@.len() <= MAX_ERROR_LINES,
{
    let ls = lines_of(stderr);
    let n: usize = if ls.len() < MAX_ERROR_LINES { ls.len() } else { MAX_ERROR_LINES };
    let ghost all = texts(ls@);
    let mut r: Vec<String> = Vec::new();
    let mut i: usize = 0;
    while i < n
        invariant
            n <= ls@.len(),
            n <= MAX_ERROR_LINES,
            i <= n,
            all == texts(ls@),
            texts(r@) == all.take(i as int).map_values(|l: Seq<char>| "  | "@ + l),
        decreases n - i,
    {
        let ghost prev = r@;
        r.push(concat2("  | ", ls[i].as_str()));
        assert(all.take(i + 1) == all.take(i as int).push(all[i as int]));
        assert(texts(r@) =~= texts(prev).push("  | "@ + all[i as int]));
        assert(all.take(i + 1).map_values(|l: Seq<char>| "  | "@ + l) =~= all.take(
            i as int,
        ).map_values(|l: Seq<char>| "  | "@ + l).push("  | "@ + all[i as int]));
        i += 1;
    }
    r
}

} // verus!

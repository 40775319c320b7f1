//! HTML reports: the comments page of a video and the playlist index.

use vstd::prelude::*;
use crate::text::{occurs_at, chars_of, push_char, decimal, push_decimal, opt_text, owned, sub_vec, string_of, str_eq};
use crate::types::Comment;
use crate::templates::{
    COMMENT_0, COMMENT_1, COMMENT_2, COMMENT_3, COMMENT_4, COMMENT_5, COMMENT_6, COMMENT_7,
    COMMENT_8, OP_BADGE, AVATAR_0, AVATAR_1, PAGE_0, PAGE_1, PAGE_2, PAGE_3, PAGE_4, PAGE_5, PAGE_6,
    PAGE_7, PAGE_8, PAGE_9, ROW_0, ROW_1, ROW_2, ROW_3, ROW_4, ROW_5, ROW_6, ROW_7, INDEX_0, INDEX_1,
    INDEX_2, INDEX_3, INDEX_4, INDEX_5, INDEX_6,
};
use crate::types::VideoInfo;
use crate::escape::{html_escape, html_escaped};
use crate::utils::{
    watch_url, thumbnail_url, slugify, sanitize_folder_name, slug_of, folder_name_of, nfd_text,
    folder_cut_on_boundary,
};

verus! {

broadcast use vstd::string::group_string_axioms;

/// The text of an optional string, or `d` when absent.
pub open spec fn text_or(o: Option<String>, d: Seq<char>) -> Seq<char> {
    match o {
        Some(s) => s@,
        None => d,
    }
}

/// The author shown for a comment ("Anon" when unknown).
pub open spec fn comment_author(c: Comment) -> Seq<char> {
    text_or(c.author, "Anon"@)
}

/// The first byte of the author name is a whole character (the page takes
/// the author's first byte as the initial of the fallback avatar).
pub open spec fn initial_is_whole_char(c: Comment) -> bool {
    comment_author(c).len() == 0 || (comment_author(c)[0] as u32) < 128
}

/// The initial of the comment's author.
pub open spec fn author_initial(c: Comment) -> Seq<char> {
    comment_author(c).take(if comment_author(c).len() == 0 { 0int } else { 1int })
}

/// The avatar image of a comment: its thumbnail, or a generated one.
pub open spec fn avatar_url(c: Comment) -> Seq<char> {
    match c.author_thumbnail {
        Some(t) => t@,
        None => AVATAR_0@ + author_initial(c) + AVATAR_1@,
    }
}

/// The HTML of one comment, given its formatted date.
pub open spec fn comment_html(c: Comment, date: Seq<char>) -> Seq<char> {
    COMMENT_0@ + avatar_url(c) + COMMENT_1@ + author_initial(c) + COMMENT_2@ + text_or(
        c.author_id,
        Seq::empty(),
    ) + COMMENT_3@ + html_escaped(comment_author(c)) + COMMENT_4@ + (if c.author_is_uploader
        == Some(true) {
        OP_BADGE@
    } else {
        Seq::empty()
    }) + COMMENT_5@ + date + COMMENT_6@ + html_escaped(text_or(c.text, Seq::empty()))
        + COMMENT_7@ + decimal(
        match c.like_count {
            Some(n) => n as nat,
            None => 0,
        },
    ) + COMMENT_8@
}

/// The text of `o`, or of `d` when absent.
fn text_or_exec(o: &Option<String>, d: &str) -> (r: String)
    ensures
        r@ == text_or(*o, d@),
{
    match o {
        Some(s) => s.clone(),
        None => owned(d),
    }
}

/// The HTML of one comment with the given date text.
pub fn comment_html_with_date(c: &Comment, date: &str) -> (r: String)
    requires
        initial_is_whole_char(*c),
    ensures
        r@ == comment_html(*c, date@),
{
    let author = text_or_exec(&c.author, "Anon");
    let av = chars_of(author.as_str());
    let initial = if av.len() == 0 {
        String::new()
    } else {
        string_of(&sub_vec(&av, 0, 1))
    };
    let mut r = owned(COMMENT_0);
    match &c.author_thumbnail {
        Some(t) => r.append(t.as_str()),
        None => {
            r.append(AVATAR_0);
            r.append(initial.as_str());
            r.append(AVATAR_1);
        },
    }
    r.append(COMMENT_1);
    r.append(initial.as_str());
    r.append(COMMENT_2);
    r.append(text_or_exec(&c.author_id, "").as_str());
    r.append(COMMENT_3);
    r.append(html_escape(author.as_str()).as_str());
    r.append(COMMENT_4);
    if c.author_is_uploader == Some(true) {
        r.append(OP_BADGE);
    }
    r.append(COMMENT_5);
    r.append(date);
    r.append(COMMENT_6);
    r.append(html_escape(text_or_exec(&c.text, "").as_str()).as_str());
    r.append(COMMENT_7);
    let likes = match c.like_count {
        Some(n) => n,
        None => 0,
    };
    push_decimal(&mut r, likes);
    r.append(COMMENT_8);
    proof {
        reveal_strlit("");
    }
    r
}


/// Day, month, year, hour and minute, as comment dates are shown.
pub const DATE_FORMAT: &'static str = "%d/%m/%Y %H:%M";

/// The UTC date and time `secs` seconds after the Unix epoch, written with
/// the `chrono` format `pattern`; `None` when out of chrono's range.
pub uninterp spec fn utc_text(secs: i64, pattern: Seq<char>) -> Option<Seq<char>>;

/// `chrono::DateTime::from_timestamp(secs, 0)` formatted with
/// `DateTime::format(pattern)`. The result is the named [`utc_text`]. Only
/// the date format of this crate is admitted: a format with invalid items
/// makes chrono's `to_string` panic.
#[verifier::external_body]
pub(crate) fn format_utc(secs: i64, pattern: &str) -> (r: Option<String>)
    requires
        pattern@ == DATE_FORMAT@,
    ensures
        opt_text(r) == utc_text(secs, pattern@),
{
    match chrono::DateTime::from_timestamp(secs, 0) {
        Some(dt) => Some(dt.format(pattern).to_string()),
        None => None,
    }
}

/// The date shown for a comment: its timestamp (capped to `i64::MAX`)
/// formatted as day/month/year hour:minute, or nothing.
pub open spec fn comment_date(c: Comment) -> Seq<char> {
    match c.timestamp {
        Some(ts) => match utc_text(if ts > i64::MAX { i64::MAX } else { ts as i64 }, DATE_FORMAT@) {
            Some(t) => t,
            None => Seq::empty(),
        },
        None => Seq::empty(),
    }
}

/// The date text of a comment.
pub fn comment_date_text(c: &Comment) -> (r: String)
    ensures
        r@ == comment_date(*c),
{
    match c.timestamp {
        Some(ts) => {
            let secs: i64 = if ts > 9223372036854775807u64 {
                9223372036854775807i64
            } else {
                ts as i64
            };
            match format_utc(secs, DATE_FORMAT) {
                Some(t) => t,
                None => String::new(),
            }
        },
        None => String::new(),
    }
}

/// The HTML of one comment.
pub fn render_comment(c: &Comment) -> (r: String)
    requires
        initial_is_whole_char(*c),
    ensures
        r@ == comment_html(*c, comment_date(*c)),
{
    let date = comment_date_text(c);
    comment_html_with_date(c, date.as_str())
}

/// A top-level comment (its parent is "root").
pub open spec fn is_root_comment(c: Comment) -> bool {
    c.parent matches Some(p) && p@ == "root"@
}

/// A reply to the comment with id `id`.
pub open spec fn is_reply_to(c: Comment, id: Seq<char>) -> bool {
    c.parent matches Some(p) && p@ == id && p@ != "root"@
}

/// Some comment of `cs` replies to `id`.
pub open spec fn has_reply(cs: Seq<Comment>, id: Seq<char>) -> bool
    decreases cs.len(),
{
    cs.len() > 0 && (is_reply_to(cs.last(), id) || has_reply(cs.drop_last(), id))
}

/// The HTML of the replies to `id` among `cs`, in order; `ds` holds the
/// dates of `cs`.
pub open spec fn replies_html(cs: Seq<Comment>, ds: Seq<Seq<char>>, id: Seq<char>) -> Seq<char>
    decreases cs.len(),
{
    if cs.len() == 0 {
        Seq::empty()
    } else {
        replies_html(cs.drop_last(), ds.drop_last(), id) + if is_reply_to(cs.last(), id) {
            comment_html(cs.last(), ds.last())
        } else {
            Seq::empty()
        }
    }
}

/// The HTML of one thread: a top-level comment and, when it has replies,
/// the block of its replies.
pub open spec fn thread_html(c: Comment, d: Seq<char>, cs: Seq<Comment>, ds: Seq<Seq<char>>) -> Seq<char> {
    "<div class=\"comment-thread\">"@ + comment_html(c, d) + (match c.id {
        Some(id) => if has_reply(cs, id@) {
            "<div class=\"replies\">"@ + replies_html(cs, ds, id@) + "</div>"@
        } else {
            Seq::empty()
        },
        None => Seq::empty(),
    }) + "</div>"@
}

/// The threads of the top-level comments among the first `k` of `cs`.
pub open spec fn threads_html(cs: Seq<Comment>, ds: Seq<Seq<char>>, k: int) -> Seq<char>
    decreases k,
{
    if k <= 0 {
        Seq::empty()
    } else {
        threads_html(cs, ds, k - 1) + if is_root_comment(cs[k - 1]) {
            thread_html(cs[k - 1], ds[k - 1], cs, ds)
        } else {
            Seq::empty()
        }
    }
}

fn is_root_exec(c: &Comment) -> (b: bool)
    ensures
        b == is_root_comment(*c),
{
    match &c.parent {
        Some(p) => str_eq(p.as_str(), "root"),
        None => false,
    }
}

fn is_reply_exec(c: &Comment, id: &str) -> (b: bool)
    ensures
        b == is_reply_to(*c, id@),
{
    match &c.parent {
        Some(p) => str_eq(p.as_str(), id) && !str_eq(p.as_str(), "root"),
        None => false,
    }
}

/// A comment that the page shows: a top-level comment, or a reply to a
/// top-level comment of `cs` that has an id.
pub open spec fn is_shown(cs: Seq<Comment>, c: Comment) -> bool {
    ||| is_root_comment(c)
    ||| exists|j: int| #![trigger cs[j]] 0 <= j < cs.len() && (cs[j].id matches Some(id) && is_root_comment(cs[j]) && is_reply_to(c, id@))
}

/// Every comment of `cs` that the page shows satisfies
/// [`initial_is_whole_char`].
pub open spec fn all_initials_whole(cs: Seq<Comment>) -> bool {
    forall|i: int| 0 <= i < cs.len() && is_shown(cs, #[trigger] cs[i]) ==> initial_is_whole_char(cs[i])
}

fn initial_whole(c: &Comment) -> (b: bool)
    ensures
        b == initial_is_whole_char(*c),
{
    let author = text_or_exec(&c.author, "Anon");
    let av = chars_of(author.as_str());
    av.len() == 0 || (av[0] as u32) < 128
}

fn shown_exec(cs: &Vec<Comment>, c: &Comment) -> (b: bool)
    ensures
        b == is_shown(cs@, *c),
{
    if is_root_exec(c) {
        return true;
    }
    let mut j: usize = 0;
    while j < cs.len()
        invariant
            j <= cs@.len(),
            !is_root_comment(*c),
            forall|k: int| #![trigger cs@[k]] 0 <= k < j ==> !(cs@[k].id matches Some(id) && is_root_comment(cs@[k]) && is_reply_to(*c, id@)),
        decreases cs.len() - j,
    {
        match &cs[j].id {
            Some(id) => {
                if is_root_exec(&cs[j]) && is_reply_exec(c, id.as_str()) {
                    return true;
                }
            },
            None => {},
        }
        j += 1;
    }
    false
}

/// Whether every comment shown on the page of `cs` has an author whose
/// first byte is a whole character (see [`initial_is_whole_char`]).
pub fn initials_whole(cs: &Vec<Comment>) -> (b: bool)
    ensures
        b == all_initials_whole(cs@),
{
    let mut i: usize = 0;
    while i < cs.len()
        invariant
            i <= cs@.len(),
            forall|k: int| 0 <= k < i && is_shown(cs@, #[trigger] cs@[k]) ==> initial_is_whole_char(cs@[k]),
        decreases cs.len() - i,
    {
        if !initial_whole(&cs[i]) && shown_exec(cs, &cs[i]) {
            return false;
        }
        i += 1;
    }
    true
}

fn replies_block(cs: &Vec<Comment>, ds: &Vec<String>, id: &str) -> (r: (String, bool))
    requires
        cs@.len() == ds@.len(),
        forall|k: int| 0 <= k < cs@.len() && is_reply_to(#[trigger] cs@[k], id@) ==> initial_is_whole_char(cs@[k]),
    ensures
        r.0@ == replies_html(cs@, ds@.map_values(|s: String| s@), id@),
        r.1 == has_reply(cs@, id@),
{
    let ghost dv = ds@.map_values(|s: String| s@);
    let mut out = String::new();
    let mut found = false;
    let mut i: usize = 0;
    while i < cs.len()
        invariant
            i <= cs@.len() == ds@.len(),
            forall|k: int| 0 <= k < cs@.len() && is_reply_to(#[trigger] cs@[k], id@) ==> initial_is_whole_char(cs@[k]),
            dv == ds@.map_values(|s: String| s@),
            out@ == replies_html(cs@.take(i as int), dv.take(i as int), id@),
            found == has_reply(cs@.take(i as int), id@),
        decreases cs.len() - i,
    {
        assert(cs@.take(i + 1).drop_last() == cs@.take(i as int));
        assert(dv.take(i + 1).drop_last() == dv.take(i as int));
        assert(cs@.take(i + 1).last() == cs@[i as int]);
        assert(dv.take(i + 1).last() == ds@[i as int]@);
        if is_reply_exec(&cs[i], id) {
            assert(initial_is_whole_char(cs@[i as int]));
            let h = comment_html_with_date(&cs[i], ds[i].as_str());
            out.append(h.as_str());
            found = true;
        }
        i += 1;
    }
    assert(cs@.take(cs@.len() as int) == cs@);
    assert(dv.take(dv.len() as int) == dv);
    (out, found)
}

/// The comment threads of a video given the date text of each comment:
/// each top-level comment followed by its replies, in the order given.
pub fn nested_html(cs: &Vec<Comment>, ds: &Vec<String>) -> (r: String)
    requires
        cs@.len() == ds@.len(),
        all_initials_whole(cs@),
    ensures
        r@ == threads_html(cs@, ds@.map_values(|s: String| s@), cs@.len() as int),
{
    let ghost dv = ds@.map_values(|s: String| s@);
    let mut out = String::new();
    let mut i: usize = 0;
    while i < cs.len()
        invariant
            i <= cs@.len() == ds@.len(),
            all_initials_whole(cs@),
            dv == ds@.map_values(|s: String| s@),
            out@ == threads_html(cs@, dv, i as int),
        decreases cs.len() - i,
    {
        let c = &cs[i];
        if is_root_exec(c) {
            assert(is_shown(cs@, cs@[i as int]));
            assert(initial_is_whole_char(cs@[i as int]));
            out.append("<div class=\"comment-thread\">");
            out.append(comment_html_with_date(c, ds[i].as_str()).as_str());
            match &c.id {
                Some(id) => {
                    assert forall|k: int| 0 <= k < cs@.len() && is_reply_to(#[trigger] cs@[k], id@) implies initial_is_whole_char(cs@[k]) by {
                        assert(cs@[i as int].id matches Some(x) && is_root_comment(cs@[i as int]) && is_reply_to(cs@[k], x@));
                        assert(is_shown(cs@, cs@[k]));
                    }
                    let (block, found) = replies_block(cs, ds, id.as_str());
                    if found {
                        out.append("<div class=\"replies\">");
                        out.append(block.as_str());
                        out.append("</div>");
                    }
                },
                None => {},
            }
            out.append("</div>");
        }
        i += 1;
    }
    out
}

/// The comment threads of a video, dates formatted from the timestamps.
pub fn build_nested_html(cs: &Vec<Comment>) -> (r: String)
    requires
        all_initials_whole(cs@),
    ensures
        r@ == threads_html(cs@, cs@.map_values(|c: Comment| comment_date(c)), cs@.len() as int),
{
    let mut ds: Vec<String> = Vec::new();
    let mut i: usize = 0;
    while i < cs.len()
        invariant
            i <= cs@.len(),
            ds@.len() == i,
            forall|j: int| 0 <= j < i ==> (#[trigger] ds@[j])@ == comment_date(cs@[j]),
        decreases cs.len() - i,
    {
        ds.push(comment_date_text(&cs[i]));
        i += 1;
    }
    assert(ds@.map_values(|s: String| s@) == cs@.map_values(|c: Comment| comment_date(c)));
    nested_html(cs, &ds)
}


/// The comments page of a video around the given thread HTML; `count` is
/// the number of comments.
pub open spec fn comments_page_html(
    title: Seq<char>,
    id: Seq<char>,
    channel: Seq<char>,
    count: nat,
    threads: Seq<char>,
) -> Seq<char> {
    let url = "https://www.youtube.com/watch?v="@ + id;
    let thumb = "https://i.ytimg.com/vi/"@ + id + "/hqdefault.jpg"@;
    PAGE_0@ + html_escaped(title) + PAGE_1@ + url + PAGE_2@ + thumb + PAGE_3@ + url + PAGE_4@
        + html_escaped(title) + PAGE_5@ + html_escaped(channel) + PAGE_6@ + html_escaped(channel)
        + PAGE_7@ + decimal(count) + PAGE_8@ + (if threads.len() == 0 {
        "<p class=\"empty\">No comments.</p>"@
    } else {
        threads
    }) + PAGE_9@
}

/// The comments page of a video around the given thread HTML.
pub fn comments_page(title: &str, id: &str, channel: &str, count: usize, threads: &str) -> (r: String)
    ensures
        r@ == comments_page_html(title@, id@, channel@, count as nat, threads@),
{
    let url = watch_url(id);
    let thumb = thumbnail_url(id);
    let et = html_escape(title);
    let ec = html_escape(channel);
    let mut r = owned(PAGE_0);
    r.append(et.as_str());
    r.append(PAGE_1);
    r.append(url.as_str());
    r.append(PAGE_2);
    r.append(thumb.as_str());
    r.append(PAGE_3);
    r.append(url.as_str());
    r.append(PAGE_4);
    r.append(et.as_str());
    r.append(PAGE_5);
    r.append(ec.as_str());
    r.append(PAGE_6);
    r.append(ec.as_str());
    r.append(PAGE_7);
    push_decimal(&mut r, count as u64);
    r.append(PAGE_8);
    if chars_of(threads).len() == 0 {
        r.append("<p class=\"empty\">No comments.</p>");
    } else {
        r.append(threads);
    }
    r.append(PAGE_9);
    r
}

/// The comments page of a video, or `None` when it has no comments (then
/// no page is written).
pub fn video_comments_page(title: &str, id: &str, channel: &str, cs: &Vec<Comment>) -> (r: Option<String>)
    requires
        all_initials_whole(cs@),
    ensures
        r is None <==> cs@.len() == 0,
        r matches Some(p) ==> p@ == comments_page_html(
            title@,
            id@,
            channel@,
            cs@.len(),
            threads_html(cs@, cs@.map_values(|c: Comment| comment_date(c)), cs@.len() as int),
        ),
{
    if cs.len() == 0 {
        return None;
    }
    let threads = build_nested_html(cs);
    Some(comments_page(title, id, channel, cs.len(), threads.as_str()))
}

/// `n` with at least two digits (`{:02}`).
pub open spec fn two_digits(n: nat) -> Seq<char> {
    if n < 10 {
        seq!['0'] + decimal(n)
    } else {
        decimal(n)
    }
}

/// A video length as `h:mm:ss`, or `m:ss` under an hour.
pub open spec fn duration_text(s: nat) -> Seq<char> {
    let h = s / 3600;
    let m = (s % 3600) / 60;
    let sec = s % 60;
    if h > 0 {
        decimal(h) + seq![':'] + two_digits(m) + seq![':'] + two_digits(sec)
    } else {
        decimal(m) + seq![':'] + two_digits(sec)
    }
}

fn push_two_digits(r: &mut String, n: u64)
    ensures
        final(r)@ == old(r)@ + two_digits(n as nat),
{
    if n < 10 {
        push_char(r, '0');
    }
    push_decimal(r, n);
}

/// Formats a video length in seconds as `h:mm:ss` or `m:ss`.
pub fn format_duration(s: u64) -> (r: String)
    ensures
        r@ == duration_text(s as nat),
{
    let h = s / 3600;
    let m = (s % 3600) / 60;
    let sec = s % 60;
    let mut r = String::new();
    if h > 0 {
        push_decimal(&mut r, h);
        push_char(&mut r, ':');
        push_two_digits(&mut r, m);
        push_char(&mut r, ':');
        push_two_digits(&mut r, sec);
    } else {
        push_decimal(&mut r, m);
        push_char(&mut r, ':');
        push_two_digits(&mut r, sec);
    }
    r
}

/// The link to a video's comments page, or a note that it has none.
pub open spec fn comments_link_html(has_comments: bool, flat: bool, prefix: Seq<char>, folder: Seq<char>) -> Seq<char> {
    if has_comments {
        "<a class=\"btn-comments\" href=\""@ + (if flat {
            prefix + "-comments.html"@
        } else {
            folder + "/comments.html"@
        }) + "\">View comments</a>"@
    } else {
        "<span class=\"no-comments-link\">No comments</span>"@
    }
}

/// The index row of a video.
pub open spec fn index_row_html(
    v: VideoInfo,
    prefix: Seq<char>,
    folder: Seq<char>,
    has_video: bool,
    has_comments: bool,
    flat: bool,
) -> Seq<char> {
    ROW_0@ + v.thumbnail@ + ROW_1@ + v.id@ + ROW_2@ + html_escaped(v.title@) + ROW_3@
        + html_escaped(v.channel@) + ROW_4@ + (match v.duration {
        Some(d) => "<span class=\"badge\">"@ + duration_text(d as nat) + "</span>"@,
        None => Seq::empty(),
    }) + ROW_5@ + (if has_video {
        "<span class=\"badge badge-green\">&#9654; Video</span>"@
    } else {
        "<span class=\"badge badge-orange\">&#9632; No video</span>"@
    }) + ROW_6@ + comments_link_html(has_comments, flat, prefix, folder) + ROW_7@
}

/// The index row of a video; `prefix` is its file slug, `folder` its folder
/// name, and the flags say what was found on disk.
pub fn index_row(
    v: &VideoInfo,
    prefix: &str,
    folder: &str,
    has_video: bool,
    has_comments: bool,
    flat: bool,
) -> (r: String)
    ensures
        r@ == index_row_html(*v, prefix@, folder@, has_video, has_comments, flat),
{
    let mut r = owned(ROW_0);
    r.append(v.thumbnail.as_str());
    r.append(ROW_1);
    r.append(v.id.as_str());
    r.append(ROW_2);
    r.append(html_escape(v.title.as_str()).as_str());
    r.append(ROW_3);
    r.append(html_escape(v.channel.as_str()).as_str());
    r.append(ROW_4);
    match v.duration {
        Some(d) => {
            r.append("<span class=\"badge\">");
            r.append(format_duration(d).as_str());
            r.append("</span>");
        },
        None => {},
    }
    r.append(ROW_5);
    if has_video {
        r.append("<span class=\"badge badge-green\">&#9654; Video</span>");
    } else {
        r.append("<span class=\"badge badge-orange\">&#9632; No video</span>");
    }
    r.append(ROW_6);
    if has_comments {
        r.append("<a class=\"btn-comments\" href=\"");
        if flat {
            r.append(prefix);
            r.append("-comments.html");
        } else {
            r.append(folder);
            r.append("/comments.html");
        }
        r.append("\">View comments</a>");
    } else {
        r.append("<span class=\"no-comments-link\">No comments</span>");
    }
    r.append(ROW_7);
    r
}

/// The playlist index page around its rows.
pub open spec fn index_page_html(title: Seq<char>, n_videos: nat, video_ok: nat, total_comments: nat, rows: Seq<char>) -> Seq<char> {
    INDEX_0@ + html_escaped(title) + INDEX_1@ + html_escaped(title) + INDEX_2@ + decimal(n_videos)
        + INDEX_3@ + decimal(video_ok) + INDEX_4@ + decimal(total_comments) + INDEX_5@ + rows
        + INDEX_6@
}

/// The playlist index page: title, counts, and the rows of its videos.
pub fn index_page(title: &str, n_videos: usize, video_ok: u32, total_comments: u32, rows: &str) -> (r: String)
    ensures
        r@ == index_page_html(title@, n_videos as nat, video_ok as nat, total_comments as nat, rows@),
{
    let et = html_escape(title);
    let mut r = owned(INDEX_0);
    r.append(et.as_str());
    r.append(INDEX_1);
    r.append(et.as_str());
    r.append(INDEX_2);
    push_decimal(&mut r, n_videos as u64);
    r.append(INDEX_3);
    push_decimal(&mut r, video_ok as u64);
    r.append(INDEX_4);
    push_decimal(&mut r, total_comments as u64);
    r.append(INDEX_5);
    r.append(rows);
    r.append(INDEX_6);
    r
}


/// The index rows of the first `k` videos; `found` says for each whether
/// its media file and its comments page exist.
pub open spec fn index_rows_html(vs: Seq<VideoInfo>, found: Seq<(bool, bool)>, flat: bool, k: int) -> Seq<char>
    decreases k,
{
    if k <= 0 {
        Seq::empty()
    } else {
        index_rows_html(vs, found, flat, k - 1) + index_row_html(
            vs[k - 1],
            slug_of(nfd_text(vs[k - 1].title@)),
            folder_name_of(vs[k - 1].title@),
            found[k - 1].0,
            found[k - 1].1,
            flat,
        )
    }
}

/// The playlist index page of `videos`; `found[i]` says whether the media
/// file and the comments page of video `i` exist.
pub fn index_html(
    playlist_title: &str,
    videos: &Vec<VideoInfo>,
    found: &Vec<(bool, bool)>,
    video_ok: u32,
    total_comments: u32,
    flat: bool,
) -> (r: String)
    requires
        found@.len() == videos@.len(),
        forall|i: int| 0 <= i < videos@.len() ==> folder_cut_on_boundary(#[trigger] videos@[i].title@),
    ensures
        r@ == index_page_html(
            playlist_title@,
            videos@.len(),
            video_ok as nat,
            total_comments as nat,
            index_rows_html(videos@, found@, flat, videos@.len() as int),
        ),
{
    let mut rows = String::new();
    let mut i: usize = 0;
    while i < videos.len()
        invariant
            i <= videos@.len() == found@.len(),
            forall|j: int| 0 <= j < videos@.len() ==> folder_cut_on_boundary(#[trigger] videos@[j].title@),
            rows@ == index_rows_html(videos@, found@, flat, i as int),
        decreases videos.len() - i,
    {
        let v = &videos[i];
        assert(folder_cut_on_boundary(videos@[i as int].title@));
        let prefix = slugify(v.title.as_str());
        let folder = sanitize_folder_name(v.title.as_str());
        let (has_video, has_comments) = found[i];
        rows.append(index_row(v, prefix.as_str(), folder.as_str(), has_video, has_comments, flat).as_str());
        i += 1;
    }
    index_page(playlist_title, videos.len(), video_ok, total_comments, rows.as_str())
}

proof fn lemma_replies_append(a: Seq<Comment>, da: Seq<Seq<char>>, b: Seq<Comment>, db: Seq<Seq<char>>, id: Seq<char>)
    requires
        a.len() == da.len(),
        b.len() == db.len(),
    ensures
        replies_html(a + b, da + db, id) == replies_html(a, da, id) + replies_html(b, db, id),
    decreases b.len(),
{
    if b.len() == 0 {
        assert(a + b =~= a);
        assert(da + db =~= da);
    } else {
        lemma_replies_append(a, da, b.drop_last(), db.drop_last(), id);
        assert((a + b).drop_last() =~= a + b.drop_last());
        assert((da + db).drop_last() =~= da + db.drop_last());
        assert((a + b).last() == b.last());
        assert((da + db).last() == db.last());
    }
}

/// Every reply is shown in its place: the replies block of `id` is the
/// block of the comments before position `k`, then the rendering of
/// comment `k` when it replies to `id` (nothing otherwise), then the block
/// of the comments after it. So each reply appears once, in list order,
/// and nothing else appears.
pub proof fn lemma_replies_in_order(cs: Seq<Comment>, ds: Seq<Seq<char>>, id: Seq<char>, k: int)
    requires
        cs.len() == ds.len(),
        0 <= k < cs.len(),
    ensures
        replies_html(cs, ds, id) == replies_html(cs.take(k), ds.take(k), id) + (if is_reply_to(
            cs[k],
            id,
        ) {
            comment_html(cs[k], ds[k])
        } else {
            Seq::empty()
        }) + replies_html(cs.skip(k + 1), ds.skip(k + 1), id),
{
    let one = seq![cs[k]];
    let d1 = seq![ds[k]];
    assert(cs =~= cs.take(k) + one + cs.skip(k + 1));
    assert(ds =~= ds.take(k) + d1 + ds.skip(k + 1));
    lemma_replies_append(cs.take(k) + one, ds.take(k) + d1, cs.skip(k + 1), ds.skip(k + 1), id);
    lemma_replies_append(cs.take(k), ds.take(k), one, d1, id);
    assert(one.drop_last() =~= Seq::<Comment>::empty());
    assert(d1.drop_last() =~= Seq::<Seq<char>>::empty());
    assert(replies_html(Seq::<Comment>::empty(), Seq::<Seq<char>>::empty(), id) == Seq::<char>::empty());
    let mid = if is_reply_to(cs[k], id) {
        comment_html(cs[k], ds[k])
    } else {
        Seq::empty()
    };
    assert(one.last() == cs[k]);
    assert(d1.last() == ds[k]);
    assert(replies_html(one, d1, id) =~= mid);
    assert(replies_html(cs, ds, id) == replies_html(cs.take(k) + one + cs.skip(k + 1), ds.take(k)
        + d1 + ds.skip(k + 1), id));
}

/// The thread of a top-level comment with an id shows every reply to it:
/// the rendering of each such reply occurs in the thread's HTML.
pub proof fn lemma_thread_shows_replies(c: Comment, d: Seq<char>, cs: Seq<Comment>, ds: Seq<Seq<char>>, k: int)
    requires
        cs.len() == ds.len(),
        0 <= k < cs.len(),
        c.id is Some,
        is_reply_to(cs[k], c.id->0@),
    ensures
        exists|o: int| occurs_at(thread_html(c, d, cs, ds), comment_html(cs[k], ds[k]), o),
{
    let id = c.id->0@;
    lemma_replies_in_order(cs, ds, id, k);
    let before = replies_html(cs.take(k), ds.take(k), id);
    let h = comment_html(cs[k], ds[k]);
    let after = replies_html(cs.skip(k + 1), ds.skip(k + 1), id);
    let open_thread = "<div class=\"comment-thread\">"@ + comment_html(c, d);
    let open_replies = "<div class=\"replies\">"@;
    assert(has_reply(cs, id)) by {
        lemma_has_reply_at(cs, id, k);
    }
    let t = thread_html(c, d, cs, ds);
    assert(t =~= open_thread + open_replies + before + h + after + "</div>"@ + "</div>"@);
    let o = (open_thread.len() + open_replies.len() + before.len()) as int;
    assert(t.subrange(o, o + h.len()) =~= h);
    assert(occurs_at(t, h, o));
}

proof fn lemma_has_reply_at(cs: Seq<Comment>, id: Seq<char>, k: int)
    requires
        0 <= k < cs.len(),
        is_reply_to(cs[k], id),
    ensures
        has_reply(cs, id),
    decreases cs.len(),
{
    if k < cs.len() - 1 {
        lemma_has_reply_at(cs.drop_last(), id, k);
    }
}

} // verus!

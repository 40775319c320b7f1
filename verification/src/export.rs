//! Export of downloaded comments to JSON or CSV.

use vstd::prelude::*;
use crate::text::{digit_char, chars_of, push_char, decimal, push_decimal, owned, concat2, str_eq};
use crate::types::{Comment, CommentEntry, CommentExport};
use crate::html::{text_or, utc_text, format_utc, DATE_FORMAT};

verus! {

broadcast use vstd::string::group_string_axioms;

/// The date of an exported comment: its timestamp (0 when absent,
/// reinterpreted as a signed number) formatted as day/month/year
/// hour:minute, or nothing when out of range.
pub open spec fn export_date(c: Comment) -> Seq<char> {
    let ts: u64 = match c.timestamp {
        Some(t) => t,
        None => 0,
    };
    match utc_text(ts as i64, DATE_FORMAT@) {
        Some(t) => t,
        None => Seq::empty(),
    }
}

/// The date text of an exported comment.
pub fn export_date_text(c: &Comment) -> (r: String)
    ensures
        r@ == export_date(*c),
{
    let ts: u64 = match c.timestamp {
        Some(t) => t,
        None => 0,
    };
    match format_utc(ts as i64, DATE_FORMAT) {
        Some(t) => t,
        None => String::new(),
    }
}

fn text_or_exec(o: &Option<String>, d: &str) -> (r: String)
    ensures
        r@ == text_or(*o, d@),
{
    match o {
        Some(s) => s.clone(),
        None => owned(d),
    }
}

/// The exported form of a comment, given its date text: author "Anon" and
/// parent "root" when unknown, no likes and not the uploader by default.
pub open spec fn entry_matches(e: CommentEntry, c: Comment, date: Seq<char>) -> bool {
    &&& e.author@ == text_or(c.author, "Anon"@)
    &&& e.text@ == text_or(c.text, Seq::empty())
    &&& e.date@ == date
    &&& e.likes == match c.like_count {
        Some(n) => n,
        None => 0,
    }
    &&& e.is_creator == (c.author_is_uploader == Some(true))
    &&& e.parent@ == text_or(c.parent, "root"@)
}

/// The exported form of a comment with the given date text.
pub fn comment_entry_with_date(c: &Comment, date: String) -> (e: CommentEntry)
    ensures
        entry_matches(e, *c, date@),
{
    proof {
        reveal_strlit("");
        assert(""@ == Seq::<char>::empty());
    }
    let author = text_or_exec(&c.author, "Anon");
    let text = text_or_exec(&c.text, "");
    let parent = text_or_exec(&c.parent, "root");
    let likes = match c.like_count {
        Some(n) => n,
        None => 0,
    };
    let is_creator = c.author_is_uploader == Some(true);
    CommentEntry { author, text, date, likes, is_creator, parent }
}

/// The exported form of a comment.
pub fn comment_entry(c: &Comment) -> (e: CommentEntry)
    ensures
        entry_matches(e, *c, export_date(*c)),
{
    let date = export_date_text(c);
    comment_entry_with_date(c, date)
}

/// The exported comments of one video; title "Unknown" and an empty id when
/// the video's info file does not give them.
pub fn video_export(title: Option<String>, id: Option<String>, cs: &Vec<Comment>) -> (r: CommentExport)
    ensures
        r.video@ == text_or(title, "Unknown"@),
        r.video_id@ == text_or(id, Seq::empty()),
        r.comments@.len() == cs@.len(),
        forall|i: int| 0 <= i < cs@.len() ==> entry_matches(#[trigger] r.comments@[i], cs@[i], export_date(cs@[i])),
{
    let mut entries: Vec<CommentEntry> = Vec::new();
    let mut i: usize = 0;
    while i < cs.len()
        invariant
            i <= cs@.len(),
            entries@.len() == i,
            forall|j: int| 0 <= j < i ==> entry_matches(#[trigger] entries@[j], cs@[j], export_date(cs@[j])),
        decreases cs.len() - i,
    {
        entries.push(comment_entry(&cs[i]));
        i += 1;
    }
    proof {
        reveal_strlit("");
    }
    CommentExport { video: text_or_exec(&title, "Unknown"), video_id: text_or_exec(&id, ""), comments: entries }
}

/// Total number of comments over the first `k` videos.
pub open spec fn comment_total(all: Seq<CommentExport>, k: int) -> nat
    decreases k,
{
    if k <= 0 {
        0
    } else {
        comment_total(all, k - 1) + all[k - 1].comments@.len()
    }
}

proof fn lemma_comment_total_mono(all: Seq<CommentExport>, i: int, j: int)
    requires
        0 <= i <= j <= all.len(),
    ensures
        comment_total(all, i) <= comment_total(all, j),
    decreases j - i,
{
    if i < j {
        lemma_comment_total_mono(all, i, j - 1);
    }
}

/// The two export formats.
#[derive(PartialEq, Eq, Structural, Clone, Copy, Debug)]
pub enum ExportKind {
    Json,
    Csv,
}

/// What exporting `all` in `format` does: the error when there is nothing
/// to export or the format is unknown, otherwise the format and the total
/// number of comments.
pub open spec fn export_plan(all: Seq<CommentExport>, format: Seq<char>) -> Result<(ExportKind, nat), Seq<char>> {
    if all.len() == 0 {
        Err("No comments found to export"@)
    } else if format == "json"@ {
        Ok((ExportKind::Json, comment_total(all, all.len() as int)))
    } else if format == "csv"@ {
        Ok((ExportKind::Csv, comment_total(all, all.len() as int)))
    } else {
        Err("Unknown format: "@ + format)
    }
}

/// Decides how to export `all` in the format named `format`.
pub fn plan_export(all: &Vec<CommentExport>, format: &str) -> (r: Result<(ExportKind, usize), String>)
    requires
        comment_total(all@, all@.len() as int) <= usize::MAX,
    ensures
        match (r, export_plan(all@, format@)) {
            (Ok((k, n)), Ok((k2, n2))) => k == k2 && n == n2,
            (Err(e), Err(e2)) => e@ == e2,
            _ => false,
        },
{
    if all.len() == 0 {
        return Err(owned("No comments found to export"));
    }
    let mut total: usize = 0;
    let mut i: usize = 0;
    while i < all.len()
        invariant
            i <= all@.len(),
            total == comment_total(all@, i as int),
            comment_total(all@, all@.len() as int) <= usize::MAX,
        decreases all.len() - i,
    {
        proof {
            lemma_comment_total_mono(all@, i + 1, all@.len() as int);
        }
        total = total + all[i].comments.len();
        i += 1;
    }
    if str_eq(format, "json") {
        Ok((ExportKind::Json, total))
    } else if str_eq(format, "csv") {
        Ok((ExportKind::Csv, total))
    } else {
        Err(concat2("Unknown format: ", format))
    }
}

/// Whether the total number of comments of `all` fits in a `usize` (the
/// count an export reports).
pub fn comment_total_fits(all: &Vec<CommentExport>) -> (b: bool)
    ensures
        b == (comment_total(all@, all@.len() as int) <= usize::MAX),
{
    let mut total: usize = 0;
    let mut i: usize = 0;
    while i < all.len()
        invariant
            i <= all@.len(),
            total == comment_total(all@, i as int),
        decreases all.len() - i,
    {
        let n = all[i].comments.len();
        if total > usize::MAX - n {
            proof {
                lemma_comment_total_mono(all@, i + 1, all@.len() as int);
            }
            return false;
        }
        total = total + n;
        i += 1;
    }
    true
}

/// The file an export is written to, in the playlist folder.
pub fn export_file_name(kind: &ExportKind) -> (r: String)
    ensures
        r@ == match kind {
            ExportKind::Json => "comments.json"@,
            ExportKind::Csv => "comments.csv"@,
        },
{
    match kind {
        ExportKind::Json => owned("comments.json"),
        ExportKind::Csv => owned("comments.csv"),
    }
}

/// The report of a finished export: `<file> (<total> comments)`.
pub fn export_message(kind: &ExportKind, total: usize) -> (r: String)
    ensures
        r@ == match kind {
            ExportKind::Json => "comments.json"@,
            ExportKind::Csv => "comments.csv"@,
        } + " ("@ + decimal(total as nat) + " comments)"@,
{
    let mut r = export_file_name(kind);
    r.append(" (");
    push_decimal(&mut r, total as u64);
    r.append(" comments)");
    r
}

/// `s` with each `"` doubled, as inside a quoted CSV field.
pub open spec fn csv_escaped(s: Seq<char>) -> Seq<char>
    decreases s.len(),
{
    if s.len() == 0 {
        s
    } else if s.last() == '"' {
        csv_escaped(s.drop_last()) + seq!['"', '"']
    } else {
        csv_escaped(s.drop_last()).push(s.last())
    }
}

/// Collapses each `""` of a quoted CSV field back to `"`, reading from the
/// end.
pub open spec fn csv_unescaped(t: Seq<char>) -> Seq<char>
    decreases t.len(),
{
    if t.len() == 0 {
        t
    } else if t.len() >= 2 && t.last() == '"' && t[t.len() - 2] == '"' {
        csv_unescaped(t.drop_last().drop_last()).push('"')
    } else {
        csv_unescaped(t.drop_last()).push(t.last())
    }
}

/// Quoting a CSV field loses nothing: collapsing the doubled quotes gives
/// the text back.
pub proof fn lemma_csv_round_trip(s: Seq<char>)
    ensures
        csv_unescaped(csv_escaped(s)) == s,
    decreases s.len(),
{
    if s.len() > 0 {
        lemma_csv_round_trip(s.drop_last());
        let e = csv_escaped(s.drop_last());
        if s.last() == '"' {
            let t = e + seq!['"', '"'];
            assert(t.drop_last().drop_last() =~= e);
        } else {
            let t = e.push(s.last());
            assert(t.drop_last() =~= e);
        }
        assert(s =~= s.drop_last().push(s.last()));
    }
}

fn push_csv_escaped(out: &mut String, s: &str)
    ensures
        final(out)@ == old(out)@ + csv_escaped(s@),
{
    let v = chars_of(s);
    let ghost base = out@;
    let mut i: usize = 0;
    while i < v.len()
        invariant
            i <= v@.len(),
            out@ == base + csv_escaped(v@.take(i as int)),
        decreases v.len() - i,
    {
        assert(v@.take(i + 1).drop_last() == v@.take(i as int));
        assert(v@.take(i + 1).last() == v@[i as int]);
        if v[i] == '"' {
            push_char(out, '"');
            push_char(out, '"');
        } else {
            push_char(out, v[i]);
        }
        i += 1;
    }
    assert(v@.take(v@.len() as int) == v@);
}

/// `"true"` or `"false"`.
pub open spec fn bool_text(b: bool) -> Seq<char> {
    if b {
        "true"@
    } else {
        "false"@
    }
}

/// The CSV line of one comment of the video `e`.
pub open spec fn csv_line(e: CommentExport, c: CommentEntry) -> Seq<char> {
    seq!['"'] + csv_escaped(e.video@) + "\",\""@ + e.video_id@ + "\",\""@ + csv_escaped(c.author@)
        + "\",\""@ + csv_escaped(c.text@) + "\",\""@ + c.date@ + "\",\""@ + decimal(c.likes as nat)
        + "\",\""@ + bool_text(c.is_creator) + "\",\""@ + c.parent@ + seq!['"', '\n']
}

/// The CSV lines of the first `k` comments of `e`.
pub open spec fn csv_video_lines(e: CommentExport, k: int) -> Seq<char>
    decreases k,
{
    if k <= 0 {
        Seq::empty()
    } else {
        csv_video_lines(e, k - 1) + csv_line(e, e.comments@[k - 1])
    }
}

/// The CSV lines of the first `k` videos of `all`.
pub open spec fn csv_lines(all: Seq<CommentExport>, k: int) -> Seq<char>
    decreases k,
{
    if k <= 0 {
        Seq::empty()
    } else {
        csv_lines(all, k - 1) + csv_video_lines(all[k - 1], all[k - 1].comments@.len() as int)
    }
}

/// The header line of the CSV export.
pub open spec fn csv_header() -> Seq<char> {
    "Video,Video ID,Author,Comment,Date,Likes,Is Creator,Parent\n"@
}

fn push_csv_line(out: &mut String, e: &CommentExport, c: &CommentEntry)
    ensures
        final(out)@ == old(out)@ + csv_line(*e, *c),
{
    push_char(out, '"');
    push_csv_escaped(out, e.video.as_str());
    out.append("\",\"");
    out.append(e.video_id.as_str());
    out.append("\",\"");
    push_csv_escaped(out, c.author.as_str());
    out.append("\",\"");
    push_csv_escaped(out, c.text.as_str());
    out.append("\",\"");
    out.append(c.date.as_str());
    out.append("\",\"");
    push_decimal(out, c.likes);
    out.append("\",\"");
    if c.is_creator {
        out.append("true");
    } else {
        out.append("false");
    }
    out.append("\",\"");
    out.append(c.parent.as_str());
    push_char(out, '"');
    push_char(out, '\n');
}

/// The CSV export of all comments: a header line, then one line per
/// comment, every field quoted and the free-text fields with `"` doubled.
pub fn comments_csv(all: &Vec<CommentExport>) -> (r: String)
    ensures
        r@ == csv_header() + csv_lines(all@, all@.len() as int),
{
    let mut r = owned("Video,Video ID,Author,Comment,Date,Likes,Is Creator,Parent\n");
    let mut i: usize = 0;
    while i < all.len()
        invariant
            i <= all@.len(),
            r@ == csv_header() + csv_lines(all@, i as int),
        decreases all.len() - i,
    {
        let e = &all[i];
        let mut j: usize = 0;
        let ghost before = r@;
        while j < e.comments.len()
            invariant
                j <= e.comments@.len(),
                e == all@[i as int],
                r@ == before + csv_video_lines(*e, j as int),
            decreases e.comments.len() - j,
        {
            push_csv_line(&mut r, e, &e.comments[j]);
            j += 1;
        }
        i += 1;
    }
    r
}

/// The number of double quotes in `s`.
pub open spec fn quote_count(s: Seq<char>) -> nat
    decreases s.len(),
{
    if s.len() == 0 {
        0
    } else {
        quote_count(s.drop_last()) + if s.last() == '"' {
            1nat
        } else {
            0nat
        }
    }
}

proof fn lemma_quote_count_append(a: Seq<char>, b: Seq<char>)
    ensures
        quote_count(a + b) == quote_count(a) + quote_count(b),
    decreases b.len(),
{
    if b.len() == 0 {
        assert(a + b =~= a);
    } else {
        lemma_quote_count_append(a, b.drop_last());
        assert((a + b).drop_last() =~= a + b.drop_last());
    }
}

proof fn lemma_quote_count_escaped(s: Seq<char>)
    ensures
        quote_count(csv_escaped(s)) == 2 * quote_count(s),
    decreases s.len(),
{
    if s.len() > 0 {
        lemma_quote_count_escaped(s.drop_last());
        let e = csv_escaped(s.drop_last());
        if s.last() == '"' {
            let qq = seq!['"', '"'];
            lemma_quote_count_append(e, qq);
            assert(qq.drop_last() =~= seq!['"']);
            assert(seq!['"'].drop_last() =~= Seq::<char>::empty());
            assert(quote_count(Seq::<char>::empty()) == 0);
            assert(seq!['"'].last() == '"');
            assert(qq.last() == '"');
            assert(quote_count(seq!['"']) == 1);
            assert(quote_count(qq) == 2);
            assert(csv_escaped(s) == e + qq);
        } else {
            assert(e.push(s.last()).drop_last() =~= e);
            assert(csv_escaped(s) == e.push(s.last()));
            assert(quote_count(e.push(s.last())) == quote_count(e));
        }
    }
}

proof fn lemma_digit_not_quote(d: nat)
    requires
        d < 10,
    ensures
        digit_char(d) != '"',
{
    let c = digit_char(d);
    assert(c as u32 == d + 48);
}

proof fn lemma_quote_count_decimal(n: nat)
    ensures
        quote_count(decimal(n)) == 0,
    decreases n,
{
    if n < 10 {
        lemma_digit_not_quote(n);
        assert(seq![digit_char(n)].drop_last() =~= Seq::<char>::empty());
        assert(quote_count(Seq::<char>::empty()) == 0);
        assert(seq![digit_char(n)].last() == digit_char(n));
    } else {
        lemma_quote_count_decimal(n / 10);
        lemma_digit_not_quote(n % 10);
        assert(decimal(n).drop_last() =~= decimal(n / 10));
        assert(decimal(n).last() == digit_char(n % 10));
    }
}

proof fn lemma_quote_count_small(s: Seq<char>)
    requires
        s.len() <= 5,
    ensures
        quote_count(s) == (if s.len() > 0 && s[0] == '"' { 1nat } else { 0nat }) + (if s.len() > 1
            && s[1] == '"' {
            1nat
        } else {
            0nat
        }) + (if s.len() > 2 && s[2] == '"' {
            1nat
        } else {
            0nat
        }) + (if s.len() > 3 && s[3] == '"' {
            1nat
        } else {
            0nat
        }) + (if s.len() > 4 && s[4] == '"' {
            1nat
        } else {
            0nat
        }),
    decreases s.len(),
{
    if s.len() > 0 {
        lemma_quote_count_small(s.drop_last());
    }
}

/// Each CSV row quotes its eight fields and doubles every quote inside the
/// video title, the author and the comment text: its quotes are the 16
/// field delimiters, twice the quotes of those three texts, and the quotes
/// of the id, date and parent fields (which are written as they are).
pub proof fn lemma_csv_line_quotes(e: CommentExport, c: CommentEntry)
    ensures
        quote_count(csv_line(e, c)) == 16 + 2 * quote_count(e.video@) + quote_count(e.video_id@) + 2
            * quote_count(c.author@) + 2 * quote_count(c.text@) + quote_count(c.date@) + quote_count(
            c.parent@,
        ),
{
    reveal_strlit("\",\"");
    reveal_strlit("true");
    reveal_strlit("false");
    let sep = "\",\""@;
    lemma_quote_count_small(sep);
    lemma_quote_count_small(seq!['"']);
    lemma_quote_count_small(seq!['"', '\n']);
    lemma_quote_count_small(bool_text(c.is_creator));
    lemma_quote_count_escaped(e.video@);
    lemma_quote_count_escaped(c.author@);
    lemma_quote_count_escaped(c.text@);
    lemma_quote_count_decimal(c.likes as nat);
    let p0 = seq!['"'] + csv_escaped(e.video@);
    let p1 = p0 + sep;
    let p2 = p1 + e.video_id@;
    let p3 = p2 + sep;
    let p4 = p3 + csv_escaped(c.author@);
    let p5 = p4 + sep;
    let p6 = p5 + csv_escaped(c.text@);
    let p7 = p6 + sep;
    let p8 = p7 + c.date@;
    let p9 = p8 + sep;
    let p10 = p9 + decimal(c.likes as nat);
    let p11 = p10 + sep;
    let p12 = p11 + bool_text(c.is_creator);
    let p13 = p12 + sep;
    let p14 = p13 + c.parent@;
    let p15 = p14 + seq!['"', '\n'];
    assert(csv_line(e, c) == p15);
    lemma_quote_count_append(seq!['"'], csv_escaped(e.video@));
    lemma_quote_count_append(p0, sep);
    lemma_quote_count_append(p1, e.video_id@);
    lemma_quote_count_append(p2, sep);
    lemma_quote_count_append(p3, csv_escaped(c.author@));
    lemma_quote_count_append(p4, sep);
    lemma_quote_count_append(p5, csv_escaped(c.text@));
    lemma_quote_count_append(p6, sep);
    lemma_quote_count_append(p7, c.date@);
    lemma_quote_count_append(p8, sep);
    lemma_quote_count_append(p9, decimal(c.likes as nat));
    lemma_quote_count_append(p10, sep);
    lemma_quote_count_append(p11, bool_text(c.is_creator));
    lemma_quote_count_append(p12, sep);
    lemma_quote_count_append(p13, c.parent@);
    lemma_quote_count_append(p14, seq!['"', '\n']);
}

/// Reads the content of a quoted CSV field up to its closing quote, a
/// doubled quote standing for one quote: the content and what follows the
/// closing quote, or `None` when the field is not closed.
pub open spec fn read_field(s: Seq<char>) -> Option<(Seq<char>, Seq<char>)>
    decreases s.len(),
{
    if s.len() == 0 {
        None
    } else if s[0] == '"' {
        if s.len() > 1 && s[1] == '"' {
            match read_field(s.skip(2)) {
                Some((f, r)) => Some((seq!['"'] + f, r)),
                None => None,
            }
        } else {
            Some((Seq::empty(), s.skip(1)))
        }
    } else {
        match read_field(s.skip(1)) {
            Some((f, r)) => Some((seq![s[0]] + f, r)),
            None => None,
        }
    }
}

/// What follows a read field is shorter than the text read.
pub proof fn lemma_read_field_shorter(s: Seq<char>)
    ensures
        read_field(s) matches Some((f, r)) ==> r.len() < s.len(),
    decreases s.len(),
{
    if s.len() > 0 {
        if s[0] == '"' {
            if s.len() > 1 && s[1] == '"' {
                lemma_read_field_shorter(s.skip(2));
            }
        } else {
            lemma_read_field_shorter(s.skip(1));
        }
    }
}

/// Reads a CSV row of quoted fields, `"f1","f2",…,"fn"` and a line feed
/// (RFC 4180 quoting): its field contents, or `None` when it is not such a
/// row.
pub open spec fn read_row(s: Seq<char>) -> Option<Seq<Seq<char>>>
    decreases s.len(),
{
    if s.len() > 0 && s[0] == '"' {
        match read_field(s.skip(1)) {
            Some((f, r)) => if r == seq!['\n'] {
                Some(seq![f])
            } else if r.len() > 0 && r[0] == ',' {
                proof {
                    lemma_read_field_shorter(s.skip(1));
                }
                match read_row(r.skip(1)) {
                    Some(fs) => Some(seq![f] + fs),
                    None => None,
                }
            } else {
                None
            },
            None => None,
        }
    } else {
        None
    }
}

proof fn lemma_escaped_append(a: Seq<char>, b: Seq<char>)
    ensures
        csv_escaped(a + b) == csv_escaped(a) + csv_escaped(b),
    decreases b.len(),
{
    if b.len() == 0 {
        assert(a + b =~= a);
        assert(csv_escaped(a) + csv_escaped(b) =~= csv_escaped(a));
    } else {
        lemma_escaped_append(a, b.drop_last());
        assert((a + b).drop_last() =~= a + b.drop_last());
        assert((a + b).last() == b.last());
        if b.last() == '"' {
            assert(csv_escaped(a) + csv_escaped(b) =~= csv_escaped(a) + csv_escaped(b.drop_last())
                + seq!['"', '"']);
        } else {
            assert(csv_escaped(a) + csv_escaped(b) =~= (csv_escaped(a) + csv_escaped(
                b.drop_last(),
            )).push(b.last()));
        }
    }
}

proof fn lemma_escaped_one(c: char)
    ensures
        csv_escaped(seq![c]) == if c == '"' {
            seq!['"', '"']
        } else {
            seq![c]
        },
{
    assert(seq![c].drop_last() =~= Seq::<char>::empty());
    assert(csv_escaped(Seq::<char>::empty()) =~= Seq::<char>::empty());
    if c == '"' {
        assert(Seq::<char>::empty() + seq!['"', '"'] =~= seq!['"', '"']);
    } else {
        assert(Seq::<char>::empty().push(c) =~= seq![c]);
    }
}

proof fn lemma_read_escaped(t: Seq<char>, rest: Seq<char>)
    requires
        rest.len() == 0 || rest[0] != '"',
    ensures
        read_field(csv_escaped(t) + seq!['"'] + rest) == Some((t, rest)),
    decreases t.len(),
{
    let s = csv_escaped(t) + seq!['"'] + rest;
    if t.len() == 0 {
        assert(csv_escaped(t) =~= Seq::<char>::empty());
        assert(s =~= seq!['"'] + rest);
        assert(s.skip(1) =~= rest);
    } else {
        let c = t[0];
        let u = t.drop_first();
        assert(t =~= seq![c] + u);
        lemma_escaped_append(seq![c], u);
        lemma_escaped_one(c);
        lemma_read_escaped(u, rest);
        let tail = csv_escaped(u) + seq!['"'] + rest;
        if c == '"' {
            assert(s =~= seq!['"', '"'] + tail);
            assert(s.skip(2) =~= tail);
        } else {
            assert(s =~= seq![c] + tail);
            assert(s.skip(1) =~= tail);
        }
        assert(seq![c] + u =~= t);
    }
}

proof fn lemma_escaped_plain(x: Seq<char>)
    requires
        !x.contains('"'),
    ensures
        csv_escaped(x) == x,
    decreases x.len(),
{
    if x.len() > 0 {
        assert(!x.drop_last().contains('"')) by {
            if x.drop_last().contains('"') {
                let i = choose|i: int| 0 <= i < x.drop_last().len() && x.drop_last()[i] == '"';
                assert(x[i] == '"');
            }
        }
        lemma_escaped_plain(x.drop_last());
        assert(x[x.len() - 1] == x.last());
        assert(x.drop_last().push(x.last()) =~= x);
    }
}

proof fn lemma_row_field(t: Seq<char>, more: Seq<char>)
    requires
        more.len() > 0 && more[0] == '"',
    ensures
        read_row(seq!['"'] + csv_escaped(t) + seq!['"', ','] + more) == match read_row(more) {
            Some(fs) => Some(seq![t] + fs),
            None => None::<Seq<Seq<char>>>,
        },
{
    let s = seq!['"'] + csv_escaped(t) + seq!['"', ','] + more;
    let rest = seq![','] + more;
    assert(s.skip(1) =~= csv_escaped(t) + seq!['"'] + rest);
    lemma_read_escaped(t, rest);
    assert(rest != seq!['\n']) by {
        assert(rest[0] == ',');
    }
    assert(rest.skip(1) =~= more);
}

proof fn lemma_row_last(t: Seq<char>)
    ensures
        read_row(seq!['"'] + csv_escaped(t) + seq!['"', '\n']) == Some(seq![t]),
{
    let s = seq!['"'] + csv_escaped(t) + seq!['"', '\n'];
    assert(s.skip(1) =~= csv_escaped(t) + seq!['"'] + seq!['\n']);
    lemma_read_escaped(t, seq!['\n']);
}

/// A CSV row laid out as its quoted fields, each followed by `",` (the
/// last by `"` and a line feed), from the field texts as written.
pub open spec fn quoted_row(fields: Seq<Seq<char>>) -> Seq<char>
    decreases fields.len(),
{
    if fields.len() == 0 {
        Seq::empty()
    } else if fields.len() == 1 {
        seq!['"'] + fields[0] + seq!['"', '\n']
    } else {
        seq!['"'] + fields[0] + seq!['"', ','] + quoted_row(fields.drop_first())
    }
}

proof fn lemma_read_quoted_row(ts: Seq<Seq<char>>)
    requires
        ts.len() > 0,
    ensures
        read_row(quoted_row(ts.map_values(|t: Seq<char>| csv_escaped(t)))) == Some(ts),
    decreases ts.len(),
{
    let es = ts.map_values(|t: Seq<char>| csv_escaped(t));
    if ts.len() == 1 {
        lemma_row_last(ts[0]);
        assert(seq![ts[0]] =~= ts);
    } else {
        let rest = ts.drop_first();
        lemma_read_quoted_row(rest);
        assert(es.drop_first() =~= rest.map_values(|t: Seq<char>| csv_escaped(t)));
        let more = quoted_row(es.drop_first());
        assert(more[0] == '"');
        lemma_row_field(ts[0], more);
        assert(seq![ts[0]] + rest =~= ts);
    }
}

proof fn lemma_quoted_row_cons(a: Seq<char>, rest: Seq<Seq<char>>)
    requires
        rest.len() > 0,
    ensures
        quoted_row(seq![a] + rest) == seq!['"'] + a + seq!['"', ','] + quoted_row(rest),
{
    assert((seq![a] + rest).drop_first() =~= rest);
}

#[verifier::rlimit(40)]
proof fn lemma_csv_line_layout(e: CommentExport, c: CommentEntry)
    ensures
        csv_line(e, c) == quoted_row(
            seq![
                csv_escaped(e.video@),
                e.video_id@,
                csv_escaped(c.author@),
                csv_escaped(c.text@),
                c.date@,
                decimal(c.likes as nat),
                bool_text(c.is_creator),
                c.parent@,
            ],
        ),
{
    reveal_strlit("\",\"");
    let f0 = csv_escaped(e.video@);
    let f1 = e.video_id@;
    let f2 = csv_escaped(c.author@);
    let f3 = csv_escaped(c.text@);
    let f4 = c.date@;
    let f5 = decimal(c.likes as nat);
    let f6 = bool_text(c.is_creator);
    let f7 = c.parent@;
    let q = seq!['"'];
    let qc = seq!['"', ','];
    let r7 = quoted_row(seq![f7]);
    assert(r7 == q + f7 + seq!['"', '\n']);
    lemma_quoted_row_cons(f6, seq![f7]);
    assert(seq![f6] + seq![f7] =~= seq![f6, f7]);
    let r6 = quoted_row(seq![f6, f7]);
    lemma_quoted_row_cons(f5, seq![f6, f7]);
    assert(seq![f5] + seq![f6, f7] =~= seq![f5, f6, f7]);
    let r5 = quoted_row(seq![f5, f6, f7]);
    lemma_quoted_row_cons(f4, seq![f5, f6, f7]);
    assert(seq![f4] + seq![f5, f6, f7] =~= seq![f4, f5, f6, f7]);
    let r4 = quoted_row(seq![f4, f5, f6, f7]);
    lemma_quoted_row_cons(f3, seq![f4, f5, f6, f7]);
    assert(seq![f3] + seq![f4, f5, f6, f7] =~= seq![f3, f4, f5, f6, f7]);
    let r3 = quoted_row(seq![f3, f4, f5, f6, f7]);
    lemma_quoted_row_cons(f2, seq![f3, f4, f5, f6, f7]);
    assert(seq![f2] + seq![f3, f4, f5, f6, f7] =~= seq![f2, f3, f4, f5, f6, f7]);
    let r2 = quoted_row(seq![f2, f3, f4, f5, f6, f7]);
    lemma_quoted_row_cons(f1, seq![f2, f3, f4, f5, f6, f7]);
    assert(seq![f1] + seq![f2, f3, f4, f5, f6, f7] =~= seq![f1, f2, f3, f4, f5, f6, f7]);
    let r1 = quoted_row(seq![f1, f2, f3, f4, f5, f6, f7]);
    lemma_quoted_row_cons(f0, seq![f1, f2, f3, f4, f5, f6, f7]);
    assert(seq![f0] + seq![f1, f2, f3, f4, f5, f6, f7] =~= seq![f0, f1, f2, f3, f4, f5, f6, f7]);
    let r0 = quoted_row(seq![f0, f1, f2, f3, f4, f5, f6, f7]);
    let sep = "\",\""@;
    assert(sep =~= qc + q);
    assert(r0 =~= q + f0 + sep + f1 + sep + f2 + sep + f3 + sep + f4 + sep + f5 + sep + f6 + sep
        + f7 + seq!['"', '\n']);
}

/// Every CSV row reads back, by RFC 4180 quoting, into its eight fields:
/// the video title, video id, author, comment text, date, likes, creator
/// flag and parent, each exactly as given (quotes in the title, author and
/// text come back single). The id, date and parent are written without
/// doubling their quotes, so the row reads back when they hold none.
pub proof fn lemma_csv_line_reads_back(e: CommentExport, c: CommentEntry)
    requires
        !e.video_id@.contains('"'),
        !c.date@.contains('"'),
        !c.parent@.contains('"'),
    ensures
        read_row(csv_line(e, c)) == Some(
            seq![
                e.video@,
                e.video_id@,
                c.author@,
                c.text@,
                c.date@,
                decimal(c.likes as nat),
                bool_text(c.is_creator),
                c.parent@,
            ],
        ),
{
    reveal_strlit("true");
    reveal_strlit("false");
    let likes = decimal(c.likes as nat);
    let flag = bool_text(c.is_creator);
    lemma_escaped_plain(e.video_id@);
    lemma_escaped_plain(c.date@);
    lemma_escaped_plain(c.parent@);
    lemma_quote_count_decimal(c.likes as nat);
    assert(!likes.contains('"')) by {
        if likes.contains('"') {
            lemma_quote_count_positive(likes);
        }
    }
    lemma_escaped_plain(likes);
    assert(!flag.contains('"'));
    lemma_escaped_plain(flag);
    let ts = seq![e.video@, e.video_id@, c.author@, c.text@, c.date@, likes, flag, c.parent@];
    lemma_csv_line_layout(e, c);
    assert(ts.map_values(|t: Seq<char>| csv_escaped(t)) =~= seq![
        csv_escaped(e.video@),
        e.video_id@,
        csv_escaped(c.author@),
        csv_escaped(c.text@),
        c.date@,
        likes,
        flag,
        c.parent@,
    ]);
    lemma_read_quoted_row(ts);
}

proof fn lemma_quote_count_positive(s: Seq<char>)
    requires
        s.contains('"'),
    ensures
        quote_count(s) > 0,
    decreases s.len(),
{
    let i = choose|i: int| 0 <= i < s.len() && s[i] == '"';
    if i < s.len() - 1 {
        assert(s.drop_last()[i] == '"');
        lemma_quote_count_positive(s.drop_last());
    }
}

} // verus!

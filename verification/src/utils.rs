//! Naming rules and small helpers: output formats, playlist ids, titles,
//! folder and file names.

use vstd::prelude::*;
use unicode_normalization::UnicodeNormalization;
use crate::text::{
    owned_all, texts, str_eq, owned, opt_text, trim, trim_ws, chars_of, find_seq, first_occurrence,
    trim_bounds, push_chars, sub_vec, join_words, join_words_exec, utf8_len, fitting_prefix,
    lemma_utf8_len_mono, string_of, words_shape, lemma_join_words_shape, lemma_join_words_fixed,
    is_ws, ascii_lower, ascii_lower_char, concat2, trim_start_ws,
};
use crate::patterns::{
    regex_capture, regex_is_match, regex_replace_all, regex_replace_all_text,
    TITLE_DECORATION_PATTERN, FOLDER_FORBIDDEN_PATTERN, strip_folder_forbidden, is_folder_forbidden,
    lemma_strip_folder_forbidden, playlist_param_capture, is_plain_id, PLAYLIST_PARAM_PATTERN,
    PLAIN_ID_PATTERN, first_list_param, list_param_at, id_run_end, is_id_char,
};

verus! {

broadcast use vstd::string::group_string_axioms;

/// The extra arguments passed to every downloader invocation.
pub open spec fn yt_dlp_extra_args() -> Seq<Seq<char>> {
    seq!["--js-runtimes"@, "node"@, "--remote-components"@, "ejs:github"@]
}

/// Extra arguments that every downloader invocation carries.
pub fn yt_dlp_extra() -> (r: Vec<String>)
    ensures
        texts(r@) == yt_dlp_extra_args(),
{
    let r = owned_all(&["--js-runtimes", "node", "--remote-components", "ejs:github"]);
    assert(texts(r@) =~= yt_dlp_extra_args());
    r
}


/// Output formats that hold audio only.
pub open spec fn is_audio_format(f: Seq<char>) -> bool {
    f == "mp3"@ || f == "flac"@ || f == "wav"@ || f == "ogg"@ || f == "m4a"@
}

/// Whether `format` names an audio-only output format.
pub fn is_audio(format: &str) -> (b: bool)
    ensures
        b == is_audio_format(format@),
{
    str_eq(format, "mp3") || str_eq(format, "flac") || str_eq(format, "wav") || str_eq(format, "ogg")
        || str_eq(format, "m4a")
}

/// The downloader's format selector for a quality and an output format.
pub open spec fn quality_selector(quality: Seq<char>, format: Seq<char>) -> Seq<char> {
    if is_audio_format(format) {
        "ba/b"@
    } else if quality == "1080p"@ {
        "bv*[height<=1080]+ba/b[height<=1080]/bv*+ba/b"@
    } else if quality == "720p"@ {
        "bv*[height<=720]+ba/b[height<=720]/bv*+ba/b"@
    } else if quality == "480p"@ {
        "bv*[height<=480]+ba/b[height<=480]/bv*+ba/b"@
    } else {
        "bv*+ba/b"@
    }
}

/// The format selector handed to the downloader: best audio for audio
/// formats, otherwise the best video capped at the requested height.
pub fn quality_format(quality: &str, format: &str) -> (r: String)
    ensures
        r@ == quality_selector(quality@, format@),
{
    if is_audio(format) {
        owned("ba/b")
    } else if str_eq(quality, "1080p") {
        owned("bv*[height<=1080]+ba/b[height<=1080]/bv*+ba/b")
    } else if str_eq(quality, "720p") {
        owned("bv*[height<=720]+ba/b[height<=720]/bv*+ba/b")
    } else if str_eq(quality, "480p") {
        owned("bv*[height<=480]+ba/b[height<=480]/bv*+ba/b")
    } else {
        owned("bv*+ba/b")
    }
}

/// The playlist id in a URL or text: the id of its first `list=` parameter,
/// or else the trimmed text itself when that is a bare id.
pub open spec fn playlist_id_of(url: Seq<char>) -> Option<Seq<char>> {
    match playlist_param_capture(url) {
        Some(id) => Some(id),
        None => if is_plain_id(trim_ws(url)) {
            Some(trim_ws(url))
        } else {
            None
        },
    }
}

/// Extracts a playlist id from a playlist URL or a bare id.
pub fn extract_playlist_id(url: &str) -> (r: Option<String>)
    ensures
        opt_text(r) == playlist_id_of(url@),
{
    match regex_capture(PLAYLIST_PARAM_PATTERN, url, 1) {
        Some(Some(id)) => {
            return Some(id);
        },
        _ => {},
    }
    let t = trim(url);
    match regex_is_match(PLAIN_ID_PATTERN, t.as_str()) {
        Some(true) => Some(t),
        _ => None,
    }
}


proof fn lemma_first_list_param_found(h: Seq<char>, i: nat)
    ensures
        first_list_param(h, i) matches Some(k) ==> list_param_at(h, k as int),
    decreases h.len() - i,
{
    if i + 7 > h.len() {
    } else if list_param_at(h, i as int) {
    } else {
        lemma_first_list_param_found(h, i + 1);
    }
}

proof fn lemma_id_run(h: Seq<char>, j: nat)
    requires
        j <= h.len(),
    ensures
        j <= id_run_end(h, j) <= h.len(),
        forall|k: int| j <= k < id_run_end(h, j) ==> is_id_char(#[trigger] h[k]),
    decreases h.len() - j,
{
    if j < h.len() && is_id_char(h[j as int]) {
        lemma_id_run(h, j + 1);
    }
}

proof fn lemma_no_list_param_in_id(s: Seq<char>, i: nat)
    requires
        is_plain_id(s),
    ensures
        first_list_param(s, i) is None,
    decreases s.len() - i,
{
    if i + 7 > s.len() {
    } else {
        assert(is_id_char(s[i as int]));
        lemma_no_list_param_in_id(s, i + 1);
    }
}

/// A playlist id that is found is a bare id, and reading the id from it
/// gives the same id back.
pub proof fn lemma_playlist_id_stable(url: Seq<char>)
    ensures
        playlist_id_of(url) matches Some(id) ==> is_plain_id(id) && playlist_id_of(id) == Some(id),
{
    if let Some(id) = playlist_id_of(url) {
        match first_list_param(url, 0) {
            Some(i) => {
                lemma_first_list_param_found(url, 0);
                assert(list_param_at(url, i as int));
                lemma_id_run(url, (i + 7) as nat);
                assert(id_run_end(url, (i + 6) as nat) == id_run_end(url, (i + 7) as nat));
                assert(id == url.subrange(i + 6int, id_run_end(url, (i + 6) as nat) as int));
                assert forall|k: int| 0 <= k < id.len() implies is_id_char(#[trigger] id[k]) by {
                    assert(id[k] == url[i + 6 + k]);
                }
            },
            None => {},
        }
        assert(is_plain_id(id));
        lemma_no_list_param_in_id(id, 0);
        assert(!is_ws(id[0]));
        assert(trim_start_ws(id) == id);
        assert(!is_ws(id.last()));
        assert(trim_ws(id) == id);
    }
}

/// Artist and remaining title of a "Artist - Title" video title: the trimmed
/// text before and after the first `" - "`.
pub open spec fn artist_title_split(t: Seq<char>) -> Option<(Seq<char>, Seq<char>)> {
    match first_occurrence(t, " - "@) {
        Some(p) => Some((trim_ws(t.take(p as int)), trim_ws(t.skip(p + 3int)))),
        None => None,
    }
}

/// Splits "Artist - Title" at the first `" - "`, trimming both parts.
pub fn split_artist_title(title: &str) -> (r: Option<(String, String)>)
    ensures
        r is None <==> artist_title_split(title@) is None,
        r matches Some((a, b)) ==> artist_title_split(title@) == Some((a@, b@)),
{
    let v = chars_of(title);
    let sep = chars_of(" - ");
    proof {
        reveal_strlit(" - ");
        assert(sep@.len() == 3);
    }
    match find_seq(&v, &sep) {
        Some(p) => {
            let n = v.len();
            assert(p + 3 <= n);
            let head = sub_vec(&v, 0, p);
            let tail = sub_vec(&v, p + 3, n);
            let (a0, a1) = trim_bounds(&head);
            let (b0, b1) = trim_bounds(&tail);
            let mut artist = String::new();
            push_chars(&mut artist, &head, a0, a1);
            let mut rest = String::new();
            push_chars(&mut rest, &tail, b0, b1);
            assert(head@ == title@.take(p as int));
            assert(tail@ == title@.skip(p + 3));
            Some((artist, rest))
        },
        None => None,
    }
}

/// Artist, cleaned title and an always-empty third part (no genre is read
/// from a title) parsed from a video title.
pub open spec fn title_metadata(t: Seq<char>) -> (Seq<char>, Seq<char>, Seq<char>) {
    match artist_title_split(t) {
        Some((artist, rest)) => (
            artist,
            trim_ws(regex_replace_all_text(TITLE_DECORATION_PATTERN@, rest, ""@)->0),
            Seq::empty(),
        ),
        None => (Seq::empty(), t, Seq::empty()),
    }
}

/// Artist and title from a video title of the form "Artist - Title", with
/// bracketed decorations such as "(Official Video)" removed from the title.
/// The third part is always empty: no genre (or album) is read from a
/// title.
pub fn parse_title_metadata(title: &str) -> (r: (String, String, String))
    ensures
        (r.0@, r.1@, r.2@) == title_metadata(title@),
{
    match split_artist_title(title) {
        Some((artist, rest)) => {
            let cleaned = match regex_replace_all(TITLE_DECORATION_PATTERN, rest.as_str(), "") {
                Some(c) => trim(c.as_str()),
                None => String::new(),
            };
            assert(artist_title_split(title@) == Some((artist@, rest@)));
            assert(cleaned@ == trim_ws(regex_replace_all_text(TITLE_DECORATION_PATTERN@, rest@, ""@)->0));
            (artist, cleaned, String::new())
        },
        None => (String::new(), owned(title), String::new()),
    }
}


/// The words of a title with the characters `< > : " / \ | ? *` removed,
/// joined by single spaces.
pub open spec fn folder_words(name: Seq<char>) -> Seq<char> {
    join_words(strip_folder_forbidden(name), ' ')
}

/// Either the folder words fit in 200 bytes, or their first 200 bytes end
/// on a character boundary (otherwise cutting them there panics).
pub open spec fn folder_cut_on_boundary(name: Seq<char>) -> bool {
    let t = folder_words(name);
    utf8_len(t) > 200 ==> exists|k: int| 0 <= k <= t.len() && utf8_len(#[trigger] t.take(k)) == 200
}

/// The folder name for a title: its folder words, cut to their first 200
/// bytes when longer.
pub open spec fn folder_name_of(name: Seq<char>) -> Seq<char> {
    let t = folder_words(name);
    if utf8_len(t) <= 200 {
        t
    } else {
        t.take(choose|k: int| 0 <= k <= t.len() && utf8_len(#[trigger] t.take(k)) == 200)
    }
}

/// The folder words of `name` and their fitting 200-byte prefix.
fn folder_words_and_cut(name: &str) -> (r: (Vec<char>, usize, usize))
    ensures
        r.0@ == folder_words(name@),
        r.1 <= r.0@.len(),
        r.2 == utf8_len(r.0@.take(r.1 as int)),
        r.2 <= 200,
        r.1 < r.0@.len() ==> utf8_len(r.0@.take(r.1 + 1)) > 200,
{
    proof {
        reveal_strlit("");
    }
    let stripped = match regex_replace_all(FOLDER_FORBIDDEN_PATTERN, name, "") {
        Some(t) => t,
        None => String::new(),
    };
    let words = join_words_exec(&chars_of(stripped.as_str()), ' ');
    let wv = chars_of(words.as_str());
    let (k, bytes) = fitting_prefix(&wv, 200);
    (wv, k, bytes)
}

proof fn lemma_cut_point(t: Seq<char>, k: int, bytes: nat)
    requires
        0 <= k <= t.len(),
        bytes == utf8_len(t.take(k)),
        bytes <= 200,
        k < t.len() ==> utf8_len(t.take(k + 1)) > 200,
    ensures
        (utf8_len(t) <= 200) == (k == t.len()),
        (exists|j: int| 0 <= j <= t.len() && utf8_len(#[trigger] t.take(j)) == 200) == (k == t.len()
            && bytes == 200 || k < t.len() && bytes == 200),
        forall|j: int| 0 <= j <= t.len() && utf8_len(#[trigger] t.take(j)) == 200 ==> j == k,
{
    assert(t.take(t.len() as int) == t);
    if k < t.len() {
        lemma_utf8_len_mono(t, k + 1, t.len() as int);
    }
    assert forall|j: int| 0 <= j <= t.len() && utf8_len(#[trigger] t.take(j)) == 200 implies j == k by {
        if j < k {
            lemma_utf8_len_mono(t, j, k);
        } else if j > k {
            lemma_utf8_len_mono(t, k + 1, j);
        }
    }
    if bytes == 200 {
        assert(utf8_len(t.take(k)) == 200);
    }
}

/// Whether [`sanitize_folder_name`] can cut the folder words of `name`
/// (a cut that falls inside a character cannot be made: byte slicing panics there).
pub fn folder_name_cut_ok(name: &str) -> (b: bool)
    ensures
        b == folder_cut_on_boundary(name@),
{
    let (wv, k, bytes) = folder_words_and_cut(name);
    proof {
        lemma_cut_point(wv@, k as int, bytes as nat);
    }
    k == wv.len() || bytes == 200
}

/// A folder name for a title: forbidden characters removed, white space
/// collapsed to single spaces, at most 200 bytes.
pub fn sanitize_folder_name(name: &str) -> (r: String)
    requires
        folder_cut_on_boundary(name@),
    ensures
        r@ == folder_name_of(name@),
{
    let (wv, k, bytes) = folder_words_and_cut(name);
    proof {
        lemma_cut_point(wv@, k as int, bytes as nat);
    }
    let kept = sub_vec(&wv, 0, k);
    proof {
        if k == wv@.len() {
            assert(wv@.subrange(0, k as int) == wv@);
        }
    }
    string_of(&kept)
}


/// A character that a folder name may hold besides the separating space.
pub open spec fn folder_word_char(c: char) -> bool {
    !is_folder_forbidden(c)
}

/// A folder name that [`sanitize_folder_name`] may return: spaces as the
/// only white space, never leading or doubled, no forbidden character.
pub open spec fn is_clean_folder_name(s: Seq<char>) -> bool {
    &&& forall|i: int| 0 <= i < s.len() ==> #[trigger] s[i] == ' ' || (!is_ws(s[i])
        && !is_folder_forbidden(s[i]))
    &&& s.len() > 0 ==> s[0] != ' '
    &&& forall|i: int| 0 <= i < s.len() - 1 ==> !(#[trigger] s[i] == ' ' && s[i + 1] == ' ')
}

proof fn lemma_folder_words_shape(name: Seq<char>)
    ensures
        words_shape(folder_words(name), ' ', |c: char| folder_word_char(c)),
{
    let st = strip_folder_forbidden(name);
    lemma_strip_folder_forbidden(name);
    assert forall|i: int| 0 <= i < st.len() && !is_ws(#[trigger] st[i]) implies st[i] != ' '
        && (|c: char| folder_word_char(c))(st[i]) by {}
    lemma_join_words_shape(st, ' ', |c: char| folder_word_char(c));
}

/// Laws of folder names: every result of [`sanitize_folder_name`] is a clean
/// folder name of at most 200 bytes, and when the title's words fit in 200
/// bytes it does not end with a space either.
pub proof fn lemma_folder_name_clean(name: Seq<char>)
    requires
        folder_cut_on_boundary(name),
    ensures
        is_clean_folder_name(folder_name_of(name)),
        utf8_len(folder_name_of(name)) <= 200,
        utf8_len(folder_words(name)) <= 200 ==> folder_name_of(name).len() > 0 ==> folder_name_of(
            name,
        ).last() != ' ',
{
    let t = folder_words(name);
    lemma_folder_words_shape(name);
    let r = folder_name_of(name);
    if utf8_len(t) > 200 {
        let k = choose|k: int| 0 <= k <= t.len() && utf8_len(#[trigger] t.take(k)) == 200;
        assert(r == t.take(k));
        assert forall|i: int| 0 <= i < r.len() implies #[trigger] r[i] == ' ' || (!is_ws(r[i])
            && !is_folder_forbidden(r[i])) by {
            assert(r[i] == t[i]);
        }
        assert forall|i: int| 0 <= i < r.len() - 1 implies !(#[trigger] r[i] == ' ' && r[i + 1]
            == ' ') by {
            assert(r[i] == t[i] && r[i + 1] == t[i + 1]);
        }
        if r.len() > 0 {
            assert(r[0] == t[0]);
        }
    }
}

/// Sanitizing is idempotent: a folder name that does not end with a space
/// is its own folder name. (A cut at 200 bytes can end with a space, which
/// a second pass removes.)
pub proof fn lemma_folder_name_idempotent(name: Seq<char>)
    requires
        folder_cut_on_boundary(name),
        folder_name_of(name).len() == 0 || folder_name_of(name).last() != ' ',
    ensures
        folder_cut_on_boundary(folder_name_of(name)),
        folder_name_of(folder_name_of(name)) == folder_name_of(name),
{
    let r = folder_name_of(name);
    lemma_folder_name_clean(name);
    assert forall|i: int| 0 <= i < r.len() implies #[trigger] r[i] == ' ' || (!is_ws(r[i]) && (|
        c: char,
    | folder_word_char(c))(r[i])) by {}
    assert(words_shape(r, ' ', |c: char| folder_word_char(c)));
    assert forall|i: int| 0 <= i < r.len() implies !is_folder_forbidden(#[trigger] r[i]) by {
        assert(r[i] == ' ' || !is_folder_forbidden(r[i]));
    }
    lemma_strip_folder_forbidden(r);
    lemma_join_words_fixed(r, ' ', |c: char| folder_word_char(c));
    assert(folder_words(r) == r);
}


/// The canonical decomposition (Unicode NFD) of `s`, as computed by the
/// `unicode-normalization` crate.
pub uninterp spec fn nfd_text(s: Seq<char>) -> Seq<char>;

/// `unicode_normalization::UnicodeNormalization::nfd`, collected into a
/// `String`. The result is the named [`nfd_text`] of the input.
#[verifier::external_body]
fn nfd(s: &str) -> (r: String)
    ensures
        r@ == nfd_text(s@),
{
    s.nfd().collect::<String>()
}

/// An ASCII letter or digit.
pub open spec fn is_ascii_alnum(c: char) -> bool {
    ('a' <= c && c <= 'z') || ('A' <= c && c <= 'Z') || ('0' <= c && c <= '9')
}

/// The ASCII letters, digits and spaces of `s`, lower-cased.
pub open spec fn slug_letters(s: Seq<char>) -> Seq<char>
    decreases s.len(),
{
    if s.len() == 0 {
        s
    } else if is_ascii_alnum(s.last()) || s.last() == ' ' {
        slug_letters(s.drop_last()).push(ascii_lower(s.last()))
    } else {
        slug_letters(s.drop_last())
    }
}

/// `s` without its trailing hyphens.
pub open spec fn trim_end_hyphens(s: Seq<char>) -> Seq<char>
    decreases s.len(),
{
    if s.len() > 0 && s.last() == '-' {
        trim_end_hyphens(s.drop_last())
    } else {
        s
    }
}

/// The slug of already decomposed text: its lower-cased ASCII words joined
/// by hyphens, cut to 150 characters without trailing hyphens.
pub open spec fn slug_of(d: Seq<char>) -> Seq<char> {
    let j = join_words(slug_letters(d), '-');
    if j.len() > 150 {
        trim_end_hyphens(j.take(150))
    } else {
        j
    }
}

/// A lower-case ASCII letter or a digit.
pub open spec fn is_slug_char(c: char) -> bool {
    ('a' <= c && c <= 'z') || ('0' <= c && c <= '9')
}

/// A slug: lower-case letters, digits and single inner hyphens.
pub open spec fn is_slug(s: Seq<char>) -> bool {
    &&& forall|i: int| 0 <= i < s.len() ==> #[trigger] s[i] == '-' || is_slug_char(s[i])
    &&& s.len() > 0 ==> s[0] != '-' && s.last() != '-'
    &&& forall|i: int| 0 <= i < s.len() - 1 ==> !(#[trigger] s[i] == '-' && s[i + 1] == '-')
}

proof fn lemma_slug_letters(s: Seq<char>)
    ensures
        forall|i: int| 0 <= i < slug_letters(s).len() ==> #[trigger] slug_letters(s)[i] == ' '
            || is_slug_char(slug_letters(s)[i]),
    decreases s.len(),
{
    if s.len() > 0 {
        lemma_slug_letters(s.drop_last());
        let r = slug_letters(s.drop_last());
        if is_ascii_alnum(s.last()) || s.last() == ' ' {
            assert forall|i: int| 0 <= i < r.push(ascii_lower(s.last())).len() implies #[trigger] r.push(
                ascii_lower(s.last()),
            )[i] == ' ' || is_slug_char(r.push(ascii_lower(s.last()))[i]) by {
                if i < r.len() {
                    assert(r.push(ascii_lower(s.last()))[i] == r[i]);
                }
            }
        }
    }
}

proof fn lemma_trim_end_hyphens(s: Seq<char>)
    ensures
        trim_end_hyphens(s).len() <= s.len(),
        trim_end_hyphens(s) == s.take(trim_end_hyphens(s).len() as int),
        trim_end_hyphens(s).len() > 0 ==> trim_end_hyphens(s).last() != '-',
    decreases s.len(),
{
    if s.len() > 0 && s.last() == '-' {
        lemma_trim_end_hyphens(s.drop_last());
        let t = trim_end_hyphens(s.drop_last());
        assert(s.drop_last().take(t.len() as int) == s.take(t.len() as int));
    } else {
        assert(s.take(s.len() as int) == s);
    }
}

/// Laws of slugs: every slug is at most 150 characters of lower-case
/// letters and digits, with single hyphens only between them.
pub proof fn lemma_slug_shape(d: Seq<char>)
    ensures
        is_slug(slug_of(d)),
        slug_of(d).len() <= 150,
{
    let l = slug_letters(d);
    lemma_slug_letters(d);
    assert forall|i: int| 0 <= i < l.len() && !is_ws(#[trigger] l[i]) implies l[i] != '-' && (|
        c: char,
    | is_slug_char(c))(l[i]) by {}
    lemma_join_words_shape(l, '-', |c: char| is_slug_char(c));
    let j = join_words(l, '-');
    if j.len() > 150 {
        let p = j.take(150);
        lemma_trim_end_hyphens(p);
        let r = trim_end_hyphens(p);
        assert forall|i: int| 0 <= i < r.len() implies #[trigger] r[i] == '-' || is_slug_char(r[i]) by {
            assert(r[i] == j[i]);
        }
        assert forall|i: int| 0 <= i < r.len() - 1 implies !(#[trigger] r[i] == '-' && r[i + 1]
            == '-') by {
            assert(r[i] == j[i] && r[i + 1] == j[i + 1]);
        }
        if r.len() > 0 {
            assert(r[0] == j[0]);
        }
    }
}

/// The slug of already decomposed text.
pub fn slug_from_decomposed(d: &str) -> (r: String)
    ensures
        r@ == slug_of(d@),
        is_slug(r@),
        r@.len() <= 150,
{
    let v = chars_of(d);
    let mut letters: Vec<char> = Vec::new();
    let mut i: usize = 0;
    while i < v.len()
        invariant
            i <= v@.len(),
            letters@ == slug_letters(v@.take(i as int)),
        decreases v.len() - i,
    {
        let c = v[i];
        assert(v@.take(i + 1).drop_last() == v@.take(i as int));
        assert(v@.take(i + 1).last() == c);
        if ('a' <= c && c <= 'z') || ('A' <= c && c <= 'Z') || ('0' <= c && c <= '9') || c == ' ' {
            letters.push(ascii_lower_char(c));
        }
        i += 1;
    }
    assert(v@.take(v@.len() as int) == v@);
    let joined = join_words_exec(&letters, '-');
    let jv = chars_of(joined.as_str());
    proof {
        lemma_slug_shape(d@);
    }
    if jv.len() > 150 {
        let mut k: usize = 150;
        while k > 0 && jv[k - 1] == '-'
            invariant
                k <= 150 < jv@.len(),
                trim_end_hyphens(jv@.take(150)) == trim_end_hyphens(jv@.take(k as int)),
            decreases k,
        {
            assert(jv@.take(k as int).drop_last() == jv@.take(k - 1));
            k -= 1;
        }
        let kept = sub_vec(&jv, 0, k);
        assert(kept@ == jv@.take(k as int));
        string_of(&kept)
    } else {
        joined
    }
}

/// A file-name slug for a title: decomposed to NFD, reduced to lower-case
/// ASCII words joined by hyphens, at most 150 characters.
pub fn slugify(name: &str) -> (r: String)
    ensures
        r@ == slug_of(nfd_text(name@)),
        is_slug(r@),
        r@.len() <= 150,
{
    let d = nfd(name);
    slug_from_decomposed(d.as_str())
}


/// The watch page of a video.
pub fn watch_url(id: &str) -> (r: String)
    ensures
        r@ == "https://www.youtube.com/watch?v="@ + id@,
{
    concat2("https://www.youtube.com/watch?v=", id)
}

/// The standard thumbnail image of a video.
pub fn thumbnail_url(id: &str) -> (r: String)
    ensures
        r@ == "https://i.ytimg.com/vi/"@ + id@ + "/hqdefault.jpg"@,
{
    let mut r = concat2("https://i.ytimg.com/vi/", id);
    r.append("/hqdefault.jpg");
    r
}

/// The playlist page for a playlist id.
pub fn playlist_url(id: &str) -> (r: String)
    ensures
        r@ == "https://www.youtube.com/playlist?list="@ + id@,
{
    concat2("https://www.youtube.com/playlist?list=", id)
}

} // verus!

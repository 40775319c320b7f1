//! Regular expressions of the application, evaluated by the `regex` crate.

use vstd::prelude::*;

verus! {

/// Characters that may not appear in a folder name.
pub const FOLDER_FORBIDDEN_PATTERN: &'static str = "[<>:\"/\\\\|?*]";

/// Bracketed title decorations such as "(Official Video)" or "[4K]".
pub const TITLE_DECORATION_PATTERN: &'static str =
    "(?i)\\s*[\\(\\[{].*?(official|video|mv|music|lyric|audio|4k|hd|1080p).*?[\\)\\]}]";

/// A `list=` query parameter, capturing the playlist id.
pub const PLAYLIST_PARAM_PATTERN: &'static str = "[?&]list=([a-zA-Z0-9_-]+)";

/// A bare playlist id.
pub const PLAIN_ID_PATTERN: &'static str = "^[a-zA-Z0-9_-]+$";

/// A download progress line of the downloader, capturing the percentage.
pub const PROGRESS_PATTERN: &'static str = "\\[download\\]\\s+([\\d.]+)%";

/// A TikTok profile address; group 1 is the user name.
pub const TIKTOK_USER_PATTERN: &'static str = "tiktok\\.com/@([A-Za-z0-9_.-]+)";

/// One of `< > : " / \ | ? *`.
pub open spec fn is_folder_forbidden(c: char) -> bool {
    c == '<' || c == '>' || c == ':' || c == '"' || c == '/' || c == '\\' || c == '|' || c == '?'
        || c == '*'
}

/// `s` with every character of [`is_folder_forbidden`] removed.
pub open spec fn strip_folder_forbidden(s: Seq<char>) -> Seq<char>
    decreases s.len(),
{
    if s.len() == 0 {
        s
    } else if is_folder_forbidden(s.last()) {
        strip_folder_forbidden(s.drop_last())
    } else {
        strip_folder_forbidden(s.drop_last()).push(s.last())
    }
}

/// [`strip_folder_forbidden`] removes exactly the forbidden characters: its
/// result has none, and text without any is left unchanged.
pub proof fn lemma_strip_folder_forbidden(s: Seq<char>)
    ensures
        forall|i: int| 0 <= i < strip_folder_forbidden(s).len() ==> !is_folder_forbidden(
            #[trigger] strip_folder_forbidden(s)[i],
        ),
        (forall|i: int| 0 <= i < s.len() ==> !is_folder_forbidden(#[trigger] s[i]))
            ==> strip_folder_forbidden(s) == s,
    decreases s.len(),
{
    if s.len() > 0 {
        lemma_strip_folder_forbidden(s.drop_last());
        let r = strip_folder_forbidden(s.drop_last());
        if !is_folder_forbidden(s.last()) {
            assert forall|i: int| 0 <= i < r.push(s.last()).len() implies !is_folder_forbidden(
                #[trigger] r.push(s.last())[i],
            ) by {
                if i < r.len() {
                    assert(r.push(s.last())[i] == r[i]);
                }
            }
        }
        if forall|i: int| 0 <= i < s.len() ==> !is_folder_forbidden(#[trigger] s[i]) {
            assert forall|i: int| 0 <= i < s.drop_last().len() implies !is_folder_forbidden(
                #[trigger] s.drop_last()[i],
            ) by {
                assert(s.drop_last()[i] == s[i]);
            }
            assert(!is_folder_forbidden(s[s.len() - 1]));
            assert(s.drop_last().push(s.last()) == s);
        }
    }
}

/// A character of `[a-zA-Z0-9_-]`.
pub open spec fn is_id_char(c: char) -> bool {
    ('a' <= c && c <= 'z') || ('A' <= c && c <= 'Z') || ('0' <= c && c <= '9') || c == '_' || c
        == '-'
}

/// `s` is a non-empty run of [`is_id_char`] characters.
pub open spec fn is_plain_id(s: Seq<char>) -> bool {
    s.len() > 0 && forall|i: int| 0 <= i < s.len() ==> is_id_char(#[trigger] s[i])
}

/// At index `i` of `h` starts `?list=` or `&list=` followed by an id character.
pub open spec fn list_param_at(h: Seq<char>, i: int) -> bool {
    &&& 0 <= i && i + 7 <= h.len()
    &&& (h[i] == '?' || h[i] == '&')
    &&& h[i + 1] == 'l' && h[i + 2] == 'i' && h[i + 3] == 's' && h[i + 4] == 't' && h[i + 5] == '='
    &&& is_id_char(h[i + 6])
}

/// The first index at or after `i` where [`list_param_at`] holds.
pub open spec fn first_list_param(h: Seq<char>, i: nat) -> Option<nat>
    decreases h.len() - i,
{
    if i + 7 > h.len() {
        None
    } else if list_param_at(h, i as int) {
        Some(i)
    } else {
        first_list_param(h, i + 1)
    }
}

/// The end of the run of id characters of `h` that starts at `j`.
pub open spec fn id_run_end(h: Seq<char>, j: nat) -> nat
    decreases h.len() - j,
{
    if j < h.len() && is_id_char(h[j as int]) {
        id_run_end(h, j + 1)
    } else {
        j
    }
}

/// The playlist id that [`PLAYLIST_PARAM_PATTERN`] captures in `h`: the
/// longest id after the leftmost `?list=` or `&list=` that has one.
pub open spec fn playlist_param_capture(h: Seq<char>) -> Option<Seq<char>> {
    match first_list_param(h, 0) {
        Some(i) => Some(h.subrange(i + 6 as int, id_run_end(h, (i + 6) as nat) as int)),
        None => None,
    }
}

/// The text that `regex::Regex::new(pattern)` followed by
/// `replace_all(haystack, replacement)` yields; `None` when the pattern
/// does not compile.
pub uninterp spec fn regex_replace_all_text(
    pattern: Seq<char>,
    haystack: Seq<char>,
    replacement: Seq<char>,
) -> Option<Seq<char>>;

/// Whether `regex::Regex::new(pattern)` matches `haystack`; `None` when the
/// pattern does not compile.
pub uninterp spec fn regex_match_result(pattern: Seq<char>, haystack: Seq<char>) -> Option<bool>;

/// The text of capture group `group` of the leftmost-first match of
/// `regex::Regex::new(pattern)` in `haystack` (inner `None`: no match, or
/// the group took no part); outer `None` when the pattern does not compile.
pub uninterp spec fn regex_capture_text(
    pattern: Seq<char>,
    haystack: Seq<char>,
    group: nat,
) -> Option<Option<Seq<char>>>;

/// `regex::Regex::new` then `Regex::replace_all`. The result is the named
/// [`regex_replace_all_text`]. For the folder pattern with an empty
/// replacement it is `haystack` without the class's characters (each match
/// of a one-character class is removed); the title pattern compiles.
#[verifier::external_body]
pub(crate) fn regex_replace_all(pattern: &str, haystack: &str, replacement: &str) -> (r: Option<String>)
    ensures
        r is None ==> regex_replace_all_text(pattern@, haystack@, replacement@) is None,
        r matches Some(t) ==> regex_replace_all_text(pattern@, haystack@, replacement@) == Some(t@),
        r is Some || (pattern@ != FOLDER_FORBIDDEN_PATTERN@ && pattern@ != TITLE_DECORATION_PATTERN@),
        r matches Some(t) ==> (pattern@ == FOLDER_FORBIDDEN_PATTERN@ && replacement@.len() == 0 ==> t@ == strip_folder_forbidden(haystack@)),
{
    match regex::Regex::new(pattern) {
        Ok(re) => Some(re.replace_all(haystack, replacement).into_owned()),
        Err(_) => None,
    }
}

/// `regex::Regex::new` then `Regex::is_match`. The result is the named
/// [`regex_match_result`]; for the anchored id pattern it is whether the
/// whole haystack is a non-empty run of id characters.
#[verifier::external_body]
pub(crate) fn regex_is_match(pattern: &str, haystack: &str) -> (r: Option<bool>)
    ensures
        r == regex_match_result(pattern@, haystack@),
        r == Some(is_plain_id(haystack@)) || pattern@ != PLAIN_ID_PATTERN@,
{
    match regex::Regex::new(pattern) {
        Ok(re) => Some(re.is_match(haystack)),
        Err(_) => None,
    }
}

/// `regex::Regex::new`, `Regex::captures`, then `Captures::get(group)`. The
/// result is the named [`regex_capture_text`]; for the playlist pattern and
/// group 1 it is [`playlist_param_capture`]; the progress and TikTok user
/// patterns compile.
#[verifier::external_body]
pub(crate) fn regex_capture(pattern: &str, haystack: &str, group: usize) -> (r: Option<Option<String>>)
    ensures
        r is None ==> regex_capture_text(pattern@, haystack@, group as nat) is None,
        r matches Some(None) ==> regex_capture_text(pattern@, haystack@, group as nat) == Some(None::<Seq<char>>),
        r matches Some(Some(t)) ==> regex_capture_text(pattern@, haystack@, group as nat) == Some(Some(t@)),
        r is Some || (pattern@ != PLAYLIST_PARAM_PATTERN@ && pattern@ != PROGRESS_PATTERN@
            && pattern@ != TIKTOK_USER_PATTERN@),
        r matches Some(inner) ==> (pattern@ == PLAYLIST_PARAM_PATTERN@ && group == 1 ==> (inner is None <==> playlist_param_capture(haystack@) is None)),
        r matches Some(Some(t)) ==> (pattern@ == PLAYLIST_PARAM_PATTERN@ && group == 1 ==> playlist_param_capture(haystack@) == Some(t@)),
{
    let re = match regex::Regex::new(pattern) {
        Ok(re) => re,
        Err(_) => return None,
    };
    match re.captures(haystack) {
        Some(caps) => match caps.get(group) {
            Some(m) => Some(Some(m.as_str().to_string())),
            None => Some(None),
        },
        None => Some(None),
    }
}

} // verus!

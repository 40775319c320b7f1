//! The program search path handed to the downloader and its helpers: the
//! usual tool folders first, then the folders of the inherited path that
//! are not listed yet.

use vstd::prelude::*;
use crate::text::{texts, push_arg, concat2, str_eq, owned, chars_of, split_pieces, split_on};

verus! {

broadcast use vstd::string::group_string_axioms;

/// The tool folders searched first on Windows, from the local application
/// data folder, the two program-files folders and the roaming application
/// data folder (an empty one contributes nothing).
pub open spec fn windows_dirs(
    local_app_data: Seq<char>,
    program_files: Seq<char>,
    program_files_x86: Seq<char>,
    app_data: Seq<char>,
) -> Seq<Seq<char>> {
    (if local_app_data.len() > 0 {
        seq![
            local_app_data + "\\Programs\\Python"@,
            local_app_data + "\\Programs\\Python\\Python311"@,
            local_app_data + "\\Programs\\Python\\Python310"@,
            local_app_data + "\\Programs\\Python\\Python39"@,
        ]
    } else {
        Seq::empty()
    }) + seq![
        program_files + "\\Python311"@,
        program_files + "\\Python310"@,
        program_files + "\\Python39"@,
        program_files_x86 + "\\Python311"@,
    ] + (if app_data.len() > 0 {
        seq![app_data + "\\yt-playlist-downloader"@]
    } else {
        Seq::empty()
    })
}

/// The tool folders searched first on Windows.
pub fn windows_tool_dirs(
    local_app_data: &str,
    program_files: &str,
    program_files_x86: &str,
    app_data: &str,
) -> (r: Vec<String>)
    ensures
        texts(r@) == windows_dirs(local_app_data@, program_files@, program_files_x86@, app_data@),
{
    let mut r: Vec<String> = Vec::new();
    if chars_of(local_app_data).len() > 0 {
        r.push(concat2(local_app_data, "\\Programs\\Python"));
        r.push(concat2(local_app_data, "\\Programs\\Python\\Python311"));
        r.push(concat2(local_app_data, "\\Programs\\Python\\Python310"));
        r.push(concat2(local_app_data, "\\Programs\\Python\\Python39"));
    }
    r.push(concat2(program_files, "\\Python311"));
    r.push(concat2(program_files, "\\Python310"));
    r.push(concat2(program_files, "\\Python39"));
    r.push(concat2(program_files_x86, "\\Python311"));
    if chars_of(app_data).len() > 0 {
        r.push(concat2(app_data, "\\yt-playlist-downloader"));
    }
    assert(texts(r@) =~= windows_dirs(
        local_app_data@,
        program_files@,
        program_files_x86@,
        app_data@,
    ));
    r
}

/// The node folder assumed when no node installation was found.
pub open spec fn default_node_dir(home: Seq<char>) -> Seq<char> {
    home + "/.nvm/versions/node/v20.14.0/bin"@
}

/// The tool folders searched first elsewhere: the `bin` folders of the
/// node installations found (or the assumed one), then the cargo folder of
/// `home` and the usual system folders.
pub open spec fn unix_dirs(home: Seq<char>, node_bins: Seq<Seq<char>>) -> Seq<Seq<char>> {
    (if node_bins.len() > 0 {
        node_bins
    } else {
        seq![default_node_dir(home)]
    }) + seq![home + "/.cargo/bin"@, "/usr/local/bin"@, "/opt/homebrew/bin"@, "/usr/bin"@]
}

/// The tool folders searched first outside Windows.
pub fn unix_tool_dirs(home: &str, node_bins: &Vec<String>) -> (r: Vec<String>)
    ensures
        texts(r@) == unix_dirs(home@, texts(node_bins@)),
{
    let mut r: Vec<String> = Vec::new();
    if node_bins.len() > 0 {
        crate::text::push_all_args(&mut r, node_bins);
    } else {
        r.push(concat2(home, "/.nvm/versions/node/v20.14.0/bin"));
    }
    r.push(concat2(home, "/.cargo/bin"));
    r.push(owned("/usr/local/bin"));
    r.push(owned("/opt/homebrew/bin"));
    r.push(owned("/usr/bin"));
    assert(texts(r@) =~= unix_dirs(home@, texts(node_bins@)));
    r
}

/// `dirs` followed by each of `more` that is not in the list by then.
pub open spec fn merge_dirs(dirs: Seq<Seq<char>>, more: Seq<Seq<char>>) -> Seq<Seq<char>>
    decreases more.len(),
{
    if more.len() == 0 {
        dirs
    } else {
        let m = merge_dirs(dirs, more.drop_last());
        if m.contains(more.last()) {
            m
        } else {
            m.push(more.last())
        }
    }
}

/// `parts` joined by `sep`.
pub open spec fn join_with(parts: Seq<Seq<char>>, sep: char) -> Seq<char>
    decreases parts.len(),
{
    if parts.len() == 0 {
        Seq::empty()
    } else if parts.len() == 1 {
        parts[0]
    } else {
        join_with(parts.drop_last(), sep) + seq![sep] + parts.last()
    }
}

/// The search path: the tool folders `dirs`, then the folders of the
/// inherited path (if any) not listed yet, joined by `sep`.
pub open spec fn search_path_text(dirs: Seq<Seq<char>>, inherited: Option<Seq<char>>, sep: char) -> Seq<char> {
    match inherited {
        Some(p) => join_with(merge_dirs(dirs, split_pieces(p, sep)), sep),
        None => join_with(dirs, sep),
    }
}

fn list_contains(v: &Vec<String>, s: &str) -> (b: bool)
    ensures
        b == texts(v@).contains(s@),
{
    let mut i: usize = 0;
    while i < v.len()
        invariant
            i <= v@.len(),
            forall|j: int| 0 <= j < i ==> v@[j]@ != s@,
        decreases v.len() - i,
    {
        if str_eq(v[i].as_str(), s) {
            assert(texts(v@)[i as int] == s@);
            return true;
        }
        i += 1;
    }
    assert forall|j: int| 0 <= j < texts(v@).len() implies texts(v@)[j] != s@ by {
        assert(texts(v@)[j] == v@[j]@);
    }
    false
}

/// `dirs` extended by each of `more` not listed yet.
pub fn merge_dir_lists(dirs: &Vec<String>, more: &Vec<String>) -> (r: Vec<String>)
    ensures
        texts(r@) == merge_dirs(texts(dirs@), texts(more@)),
{
    let mut r: Vec<String> = Vec::new();
    crate::text::push_all_args(&mut r, dirs);
    assert(texts(r@) =~= texts(dirs@));
    let ghost m = texts(more@);
    let mut i: usize = 0;
    while i < more.len()
        invariant
            i <= more@.len(),
            m == texts(more@),
            texts(r@) == merge_dirs(texts(dirs@), m.take(i as int)),
        decreases more.len() - i,
    {
        assert(m.take(i + 1).drop_last() == m.take(i as int));
        assert(m.take(i + 1).last() == more@[i as int]@);
        if !list_contains(&r, more[i].as_str()) {
            push_arg(&mut r, more[i].as_str());
        }
        i += 1;
    }
    assert(m.take(m.len() as int) == m);
    r
}

/// `parts` joined by `sep`.
pub fn join_parts(parts: &Vec<String>, sep: char) -> (r: String)
    ensures
        r@ == join_with(texts(parts@), sep),
{
    let ghost t = texts(parts@);
    let mut r = String::new();
    let mut i: usize = 0;
    while i < parts.len()
        invariant
            i <= parts@.len(),
            t == texts(parts@),
            r@ == join_with(t.take(i as int), sep),
        decreases parts.len() - i,
    {
        assert(t.take(i + 1).drop_last() == t.take(i as int));
        assert(t.take(i + 1).last() == parts@[i as int]@);
        if i > 0 {
            crate::text::push_char(&mut r, sep);
        } else {
            assert(t.take(1)[0] == t[0]);
        }
        r.append(parts[i].as_str());
        i += 1;
    }
    assert(t.take(t.len() as int) == t);
    r
}

/// The search path of the tool processes.
pub fn search_path(dirs: &Vec<String>, inherited: &Option<String>, sep: char) -> (r: String)
    ensures
        r@ == search_path_text(
            texts(dirs@),
            match inherited {
                Some(p) => Some(p@),
                None => None,
            },
            sep,
        ),
{
    match inherited {
        Some(p) => {
            let pieces = split_on(p.as_str(), sep);
            let merged = merge_dir_lists(dirs, &pieces);
            join_parts(&merged, sep)
        },
        None => join_parts(dirs, sep),
    }
}

/// Merging keeps the tool folders first, in their order.
pub proof fn lemma_merge_keeps_dirs(dirs: Seq<Seq<char>>, more: Seq<Seq<char>>)
    ensures
        merge_dirs(dirs, more).len() >= dirs.len(),
        merge_dirs(dirs, more).take(dirs.len() as int) == dirs,
    decreases more.len(),
{
    if more.len() > 0 {
        lemma_merge_keeps_dirs(dirs, more.drop_last());
        let m = merge_dirs(dirs, more.drop_last());
        assert(m.push(more.last()).take(dirs.len() as int) =~= m.take(dirs.len() as int));
    }
}

/// Every folder of the inherited path is in the merged list, and the
/// merged list holds nothing else than the tool folders and those.
pub proof fn lemma_merge_covers(dirs: Seq<Seq<char>>, more: Seq<Seq<char>>)
    ensures
        forall|x: Seq<char>| more.contains(x) ==> #[trigger] merge_dirs(dirs, more).contains(x),
        forall|x: Seq<char>| #[trigger] merge_dirs(dirs, more).contains(x) ==> dirs.contains(x)
            || more.contains(x),
    decreases more.len(),
{
    if more.len() > 0 {
        let rest = more.drop_last();
        lemma_merge_covers(dirs, rest);
        let m = merge_dirs(dirs, rest);
        assert forall|x: Seq<char>| more.contains(x) implies #[trigger] merge_dirs(dirs, more).contains(x) by {
            let k = choose|k: int| 0 <= k < more.len() && more[k] == x;
            if k < more.len() - 1 {
                assert(rest[k] == x);
                assert(rest.contains(x));
                assert(m.contains(x));
                if !m.contains(more.last()) {
                    let j = choose|j: int| 0 <= j < m.len() && m[j] == x;
                    assert(m.push(more.last())[j] == x);
                }
            } else {
                if !m.contains(more.last()) {
                    assert(m.push(more.last())[m.len() as int] == x);
                }
            }
        }
        assert forall|x: Seq<char>| #[trigger] merge_dirs(dirs, more).contains(x) implies dirs.contains(x)
            || more.contains(x) by {
            if m.contains(x) {
                if rest.contains(x) {
                    let k = choose|k: int| 0 <= k < rest.len() && rest[k] == x;
                    assert(more[k] == x);
                }
            } else {
                assert(x == more.last());
                assert(more[more.len() - 1] == x);
            }
        }
    }
}

/// No folder is listed twice in the merged list when none is listed
/// twice among the tool folders.
pub proof fn lemma_merge_no_repeats(dirs: Seq<Seq<char>>, more: Seq<Seq<char>>)
    requires
        dirs.no_duplicates(),
    ensures
        merge_dirs(dirs, more).no_duplicates(),
    decreases more.len(),
{
    if more.len() > 0 {
        lemma_merge_no_repeats(dirs, more.drop_last());
        let m = merge_dirs(dirs, more.drop_last());
        if !m.contains(more.last()) {
            let n = m.push(more.last());
            assert forall|i: int, j: int| 0 <= i < n.len() && 0 <= j < n.len() && i != j implies n[i]
                != n[j] by {
                if i < m.len() && j < m.len() {
                } else if i == m.len() {
                    assert(m[j] == n[j]);
                } else {
                    assert(m[i] == n[i]);
                }
            }
        }
    }
}

} // verus!

//! Escaping text for HTML reports, and what escaping guarantees.

use vstd::prelude::*;
use crate::text::{chars_of, push_char};

verus! {

broadcast use vstd::string::group_string_axioms;

/// The HTML text of one character: `& < > "` become entities.
pub open spec fn escape_char(c: char) -> Seq<char> {
    if c == '&' {
        "&amp;"@
    } else if c == '<' {
        "&lt;"@
    } else if c == '>' {
        "&gt;"@
    } else if c == '"' {
        "&quot;"@
    } else {
        seq![c]
    }
}

/// `s` with `& < > "` replaced by their HTML entities.
pub open spec fn html_escaped(s: Seq<char>) -> Seq<char>
    decreases s.len(),
{
    if s.len() == 0 {
        Seq::empty()
    } else {
        escape_char(s[0]) + html_escaped(s.drop_first())
    }
}

proof fn lemma_html_escaped_push(s: Seq<char>, c: char)
    ensures
        html_escaped(s.push(c)) == html_escaped(s) + escape_char(c),
    decreases s.len(),
{
    if s.len() == 0 {
        assert(s.push(c).drop_first() == s);
    } else {
        lemma_html_escaped_push(s.drop_first(), c);
        assert(s.push(c).drop_first() == s.drop_first().push(c));
    }
}

/// Escapes `& < > "` for use in HTML text and attribute values.
pub fn html_escape(s: &str) -> (r: String)
    ensures
        r@ == html_escaped(s@),
{
    let v = chars_of(s);
    let mut r = String::new();
    let mut i: usize = 0;
    while i < v.len()
        invariant
            i <= v@.len(),
            r@ == html_escaped(v@.take(i as int)),
        decreases v.len() - i,
    {
        let c = v[i];
        proof {
            lemma_html_escaped_push(v@.take(i as int), c);
            assert(v@.take(i + 1) == v@.take(i as int).push(c));
        }
        if c == '&' {
            r.append("&amp;");
        } else if c == '<' {
            r.append("&lt;");
        } else if c == '>' {
            r.append("&gt;");
        } else if c == '"' {
            r.append("&quot;");
        } else {
            push_char(&mut r, c);
        }
        i += 1;
    }
    assert(v@.take(v@.len() as int) == v@);
    r
}

/// Decodes the four entities that [`html_escaped`] writes, left to right.
pub open spec fn html_unescaped(t: Seq<char>) -> Seq<char>
    decreases t.len(),
{
    if t.len() == 0 {
        Seq::empty()
    } else if t.len() >= 5 && t.take(5) == "&amp;"@ {
        seq!['&'] + html_unescaped(t.skip(5))
    } else if t.len() >= 4 && t.take(4) == "&lt;"@ {
        seq!['<'] + html_unescaped(t.skip(4))
    } else if t.len() >= 4 && t.take(4) == "&gt;"@ {
        seq!['>'] + html_unescaped(t.skip(4))
    } else if t.len() >= 6 && t.take(6) == "&quot;"@ {
        seq!['"'] + html_unescaped(t.skip(6))
    } else {
        seq![t[0]] + html_unescaped(t.drop_first())
    }
}

/// Escaping loses nothing: decoding the entities gives the text back.
pub proof fn lemma_html_escape_round_trip(s: Seq<char>)
    ensures
        html_unescaped(html_escaped(s)) == s,
    decreases s.len(),
{
    reveal_strlit("&amp;");
    reveal_strlit("&lt;");
    reveal_strlit("&gt;");
    reveal_strlit("&quot;");
    if s.len() > 0 {
        let c = s[0];
        let rest = html_escaped(s.drop_first());
        lemma_html_escape_round_trip(s.drop_first());
        let e = escape_char(c);
        let t = e + rest;
        assert(html_escaped(s) == t);
        assert(t.take(e.len() as int) =~= e);
        assert(t.skip(e.len() as int) =~= rest);
        assert(t[0] == e[0]);
        if c == '&' {
            assert(html_unescaped(t) == seq!['&'] + html_unescaped(rest));
        } else if c == '<' {
            assert(t[1] == 'l');
            assert(t.len() >= 5 ==> t.take(5)[1] != "&amp;"@[1]);
            assert(html_unescaped(t) == seq!['<'] + html_unescaped(rest));
        } else if c == '>' {
            assert(t[1] == 'g');
            assert(t.len() >= 5 ==> t.take(5)[1] != "&amp;"@[1]);
            assert(t.take(4)[1] != "&lt;"@[1]);
            assert(html_unescaped(t) == seq!['>'] + html_unescaped(rest));
        } else if c == '"' {
            assert(t[1] == 'q');
            assert(t.take(5)[1] != "&amp;"@[1]);
            assert(t.take(4)[1] != "&lt;"@[1]);
            assert(t.take(4)[1] != "&gt;"@[1]);
            assert(html_unescaped(t) == seq!['"'] + html_unescaped(rest));
        } else {
            assert(t[0] == c);
            assert(t.len() >= 5 ==> t.take(5)[0] != "&amp;"@[0]);
            assert(t.len() >= 4 ==> t.take(4)[0] != "&lt;"@[0]);
            assert(t.len() >= 4 ==> t.take(4)[0] != "&gt;"@[0]);
            assert(t.len() >= 6 ==> t.take(6)[0] != "&quot;"@[0]);
            assert(t.drop_first() =~= rest);
            assert(html_unescaped(t) == seq![c] + html_unescaped(rest));
        }
        assert(s =~= seq![c] + s.drop_first());
    }
}

/// Escaped text holds no `<`, `>` or `"`, so it cannot open or close a tag
/// or an attribute value.
pub proof fn lemma_html_escaped_inert(s: Seq<char>)
    ensures
        forall|i: int| 0 <= i < html_escaped(s).len() ==> {
            let c = #[trigger] html_escaped(s)[i];
            c != '<' && c != '>' && c != '"'
        },
    decreases s.len(),
{
    reveal_strlit("&amp;");
    reveal_strlit("&lt;");
    reveal_strlit("&gt;");
    reveal_strlit("&quot;");
    if s.len() > 0 {
        lemma_html_escaped_inert(s.drop_first());
        let e = escape_char(s[0]);
        let rest = html_escaped(s.drop_first());
        assert forall|i: int| 0 <= i < html_escaped(s).len() implies {
            let c = #[trigger] html_escaped(s)[i];
            c != '<' && c != '>' && c != '"'
        } by {
            if i < e.len() {
                assert(html_escaped(s)[i] == e[i]);
            } else {
                assert(html_escaped(s)[i] == rest[i - e.len()]);
            }
        }
    }
}

} // verus!

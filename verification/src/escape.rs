//! Escaping of text for HTML.
//!
//! Every value that a page shows comes from the caller of the server, so it is
//! escaped before it is put between tags: the five characters that HTML gives a
//! meaning to are replaced by character references, all others stay.

use crate::text::{occurs_at, lemma_occurs_at_middle, lemma_occurs_at_widen};
use vstd::prelude::*;

verus! {

broadcast use vstd::string::group_string_axioms;

/// The characters that are replaced.
pub open spec fn is_markup(c: char) -> bool {
    c == '&' || c == '<' || c == '>' || c == '"' || c == '\''
}

/// The characters that open or close a tag or an attribute value.
pub open spec fn is_delimiter(c: char) -> bool {
    c == '<' || c == '>' || c == '"' || c == '\''
}

/// A text without any character that is replaced.
pub open spec fn is_plain(s: Seq<char>) -> bool {
    forall|i: int| 0 <= i < s.len() ==> !is_markup(#[trigger] s[i])
}

/// What stands for one character in escaped text.
pub open spec fn escape_char(c: char) -> Seq<char> {
    if c == '&' {
        "&amp;"@
    } else if c == '<' {
        "&lt;"@
    } else if c == '>' {
        "&gt;"@
    } else if c == '"' {
        "&quot;"@
    } else if c == '\'' {
        "&#x27;"@
    } else {
        seq![c]
    }
}

/// The escaped form of a text: the escaped forms of its characters, in order.
pub open spec fn escape_text(s: Seq<char>) -> Seq<char>
    decreases s.len(),
{
    if s.len() == 0 {
        Seq::empty()
    } else {
        escape_text(s.drop_last()) + escape_char(s.last())
    }
}

/// The five character references, spelled out.
proof fn lemma_references()
    ensures
        "&amp;"@ == seq!['&', 'a', 'm', 'p', ';'],
        "&lt;"@ == seq!['&', 'l', 't', ';'],
        "&gt;"@ == seq!['&', 'g', 't', ';'],
        "&quot;"@ == seq!['&', 'q', 'u', 'o', 't', ';'],
        "&#x27;"@ == seq!['&', '#', 'x', '2', '7', ';'],
{
    reveal_strlit("&amp;");
    reveal_strlit("&lt;");
    reveal_strlit("&gt;");
    reveal_strlit("&quot;");
    reveal_strlit("&#x27;");
    assert("&amp;"@ =~= seq!['&', 'a', 'm', 'p', ';']);
    assert("&lt;"@ =~= seq!['&', 'l', 't', ';']);
    assert("&gt;"@ =~= seq!['&', 'g', 't', ';']);
    assert("&quot;"@ =~= seq!['&', 'q', 'u', 'o', 't', ';']);
    assert("&#x27;"@ =~= seq!['&', '#', 'x', '2', '7', ';']);
}

/// What stands for a character is never empty, holds no delimiter, and holds
/// `&` at its start or nowhere. It starts with `&` exactly for the characters that are
/// replaced.
pub proof fn lemma_escape_char_shape(c: char)
    ensures
        escape_char(c).len() >= 1,
        forall|k: int| 0 <= k < escape_char(c).len() ==> !is_delimiter(#[trigger] escape_char(c)[k]),
        forall|k: int| 1 <= k < escape_char(c).len() ==> #[trigger] escape_char(c)[k] != '&',
        escape_char(c)[0] == '&' <==> is_markup(c),
        !is_markup(c) ==> escape_char(c) == seq![c],
{
    lemma_references();
}

/// Escaping goes through concatenation.
pub proof fn lemma_escape_concat(a: Seq<char>, b: Seq<char>)
    ensures
        escape_text(a + b) == escape_text(a) + escape_text(b),
    decreases b.len(),
{
    if b.len() == 0 {
        assert(a + b =~= a);
        assert(escape_text(a) + escape_text(b) =~= escape_text(a));
    } else {
        assert((a + b).drop_last() =~= a + b.drop_last());
        assert((a + b).last() == b.last());
        lemma_escape_concat(a, b.drop_last());
        assert(escape_text(a + b) =~= escape_text(a) + escape_text(b));
    }
}

/// The escaped form of a single character.
pub proof fn lemma_escape_single(c: char)
    ensures
        escape_text(seq![c]) == escape_char(c),
{
    let s = seq![c];
    assert(s.drop_last() =~= Seq::<char>::empty());
    assert(escape_text(s.drop_last()) =~= Seq::<char>::empty());
    assert(escape_text(s) =~= escape_char(c));
}

/// A text without markup characters is its own escaped form.
pub proof fn lemma_escape_plain(s: Seq<char>)
    requires
        is_plain(s),
    ensures
        escape_text(s) == s,
    decreases s.len(),
{
    if s.len() == 0 {
        assert(escape_text(s) =~= s);
    } else {
        let front = s.drop_last();
        assert forall|i: int| 0 <= i < front.len() implies !is_markup(#[trigger] front[i]) by {
            assert(front[i] == s[i]);
        }
        lemma_escape_plain(front);
        assert(!is_markup(s[s.len() - 1]));
        assert(escape_text(s) =~= s);
    }
}

/// Escaped text holds no character that opens or closes a tag or an attribute
/// value, whatever the text was.
pub proof fn lemma_escaped_has_no_delimiter(s: Seq<char>)
    ensures
        forall|k: int| 0 <= k < escape_text(s).len() ==> !is_delimiter(#[trigger] escape_text(s)[k]),
    decreases s.len(),
{
    if s.len() > 0 {
        lemma_escaped_has_no_delimiter(s.drop_last());
        lemma_escape_char_shape(s.last());
        let front = escape_text(s.drop_last());
        let back = escape_char(s.last());
        assert forall|k: int| 0 <= k < escape_text(s).len() implies !is_delimiter(
            #[trigger] escape_text(s)[k],
        ) by {
            if k < front.len() {
                assert(escape_text(s)[k] == front[k]);
            } else {
                assert(escape_text(s)[k] == back[k - front.len()]);
            }
        }
    }
}

/// Every `&` in escaped text is the start of the reference that stands for a
/// replaced character.
pub proof fn lemma_escaped_ampersand_opens_reference(s: Seq<char>, k: int)
    requires
        0 <= k < escape_text(s).len(),
        escape_text(s)[k] == '&',
    ensures
        exists|c: char| is_markup(c) && occurs_at(#[trigger] escape_char(c), escape_text(s), k),
    decreases s.len(),
{
    if s.len() > 0 {
        let front = escape_text(s.drop_last());
        let back = escape_char(s.last());
        let none = Seq::<char>::empty();
        lemma_escape_char_shape(s.last());
        assert(escape_text(s) =~= none + front + back);
        assert(escape_text(s) =~= front + back + none);
        if k < front.len() {
            assert(front[k] == escape_text(s)[k]);
            lemma_escaped_ampersand_opens_reference(s.drop_last(), k);
            let c = choose|c: char| is_markup(c) && occurs_at(#[trigger] escape_char(c), front, k);
            lemma_occurs_at_widen(escape_char(c), front, k, none, back);
        } else {
            assert(escape_text(s)[k] == back[k - front.len()]);
            assert(k == front.len());
            lemma_occurs_at_middle(front, back, none);
            assert(is_markup(s.last()));
        }
    }
}

/// The escaped form of a text that is not empty: what stands for its first
/// character, then the escaped form of the rest.
pub proof fn lemma_escape_first(s: Seq<char>)
    requires
        s.len() > 0,
    ensures
        escape_text(s) == escape_char(s[0]) + escape_text(s.drop_first()),
{
    assert(s =~= seq![s[0]] + s.drop_first());
    lemma_escape_concat(seq![s[0]], s.drop_first());
    lemma_escape_single(s[0]);
}

/// Escaping loses nothing: two texts with the same escaped form are the same
/// text.
pub proof fn lemma_escape_is_injective(a: Seq<char>, b: Seq<char>)
    requires
        escape_text(a) == escape_text(b),
    ensures
        a == b,
    decreases a.len(),
{
    if a.len() > 0 {
        lemma_escape_first(a);
        lemma_escape_char_shape(a[0]);
    }
    if b.len() > 0 {
        lemma_escape_first(b);
        lemma_escape_char_shape(b[0]);
    }
    if a.len() == 0 || b.len() == 0 {
        assert(escape_text(a).len() == 0 || escape_text(b).len() == 0);
        assert(a =~= b);
    } else {
        let whole = escape_text(a);
        let first_a = escape_char(a[0]);
        let first_b = escape_char(b[0]);
        let rest_a = escape_text(a.drop_first());
        let rest_b = escape_text(b.drop_first());
        assert(whole[0] == first_a[0] && whole[0] == first_b[0]);
        assert(a[0] == b[0]) by {
            if is_markup(a[0]) {
                lemma_references();
                assert(whole[1] == first_a[1] && whole[1] == first_b[1]);
            } else {
                assert(first_a[0] == a[0] && first_b[0] == b[0]);
            }
        }
        assert(rest_a =~= whole.subrange(first_a.len() as int, whole.len() as int));
        assert(rest_b =~= whole.subrange(first_b.len() as int, whole.len() as int));
        lemma_escape_is_injective(a.drop_first(), b.drop_first());
        assert(a =~= seq![a[0]] + a.drop_first());
        assert(b =~= seq![b[0]] + b.drop_first());
    }
}

/// `String::push`: the character is added at the end.
#[verifier::external_body]
fn push_char(s: &mut String, c: char)
    ensures
        final(s)@ == old(s)@.push(c),
{
    s.push(c)
}

/// Escapes a text for HTML.
pub fn escape_html(s: &str) -> (out: String)
    ensures
        out@ == escape_text(s@),
{
    let mut out = String::new();
    for c in it: s.chars()
        invariant
            it.seq() == s@,
            out@ == escape_text(s@.take(it.index() as int)),
    {
        proof {
            let k = it.index() as int;
            assert(s@.take(k + 1).drop_last() == s@.take(k));
            assert(s@.take(k + 1).last() == c);
        }
        if c == '&' {
            out.append("&amp;");
        } else if c == '<' {
            out.append("&lt;");
        } else if c == '>' {
            out.append("&gt;");
        } else if c == '"' {
            out.append("&quot;");
        } else if c == '\'' {
            out.append("&#x27;");
        } else {
            push_char(&mut out, c);
        }
    }
    proof {
        assert(s@.take(s@.len() as int) == s@);
    }
    out
}

} // verus!

//! Text primitives shared by the compilers: joining fragments with a
//! separator, appending characters, and counting placeholders.

use itertools::Itertools;
use vstd::prelude::*;

verus! {

/// The fragments of `parts` written one after another with `sep` between
/// each neighbouring pair.
pub open spec fn joined(parts: Seq<Seq<char>>, sep: Seq<char>) -> Seq<char>
    decreases parts.len(),
{
    if parts.len() == 0 {
        Seq::empty()
    } else if parts.len() == 1 {
        parts[0]
    } else {
        joined(parts.drop_last(), sep) + sep + parts.last()
    }
}

/// Calls `Itertools::join` on the strings of `parts`.
///
/// Trusted: the result is the first string followed, for every later string,
/// by the separator and that string; it is empty for no strings. The outside
/// function reserves `sep.len() * (parts.len() - 1)` bytes up front, which
/// must not overflow: a vector of strings never holds more than
/// `isize::MAX / size_of::<String>()` of them, so a separator of at most
/// eight bytes keeps the product in range.
#[verifier::external_body]
pub(crate) fn join_strings(parts: &Vec<String>, sep: &str) -> (out: String)
    requires
        sep.is_ascii(),
        sep@.len() <= 8,
    ensures
        out@ == joined(parts.deep_view(), sep@),
{
    parts.iter().join(sep)
}

/// Calls `String::push`.
///
/// Trusted: the string afterwards is the string before with `c` appended.
#[verifier::external_body]
pub(crate) fn push_char(s: &mut String, c: char)
    ensures
        final(s)@ == old(s)@.push(c),
{
    s.push(c)
}

/// The two characters that a `LIKE` pattern reads as wildcards.
pub open spec fn is_wildcard(c: char) -> bool {
    c == '%' || c == '_'
}

/// `raw` with a backslash in front of every wildcard character.
pub open spec fn escape_like(raw: Seq<char>) -> Seq<char>
    decreases raw.len(),
{
    if raw.len() == 0 {
        Seq::empty()
    } else if is_wildcard(raw.last()) {
        escape_like(raw.drop_last()).push('\\').push(raw.last())
    } else {
        escape_like(raw.drop_last()).push(raw.last())
    }
}

/// Escapes the wildcard characters of `raw` so that a `LIKE` pattern built
/// from the result matches them literally.
pub fn escape_like_pattern(raw: &str) -> (out: String)
    ensures
        out@ == escape_like(raw@),
{
    let mut out = String::new();
    for c in it: raw.chars()
        invariant
            it.seq() == raw@,
            out@ == escape_like(raw@.take(it.index() as int)),
    {
        proof {
            assert(raw@.take(it.index() + 1).drop_last() == raw@.take(it.index() as int));
        }
        if c == '%' || c == '_' {
            push_char(&mut out, '\\');
        }
        push_char(&mut out, c);
    }
    proof {
        assert(raw@.take(raw@.len() as int) == raw@);
    }
    out
}

/// Whether `c` may start an identifier: an ASCII letter or an underscore.
pub open spec fn is_ident_start(c: char) -> bool {
    ('a' <= c && c <= 'z') || ('A' <= c && c <= 'Z') || c == '_'
}

/// Whether `c` may occur in an identifier: an ASCII letter, an ASCII digit or
/// an underscore.
pub open spec fn is_ident_char(c: char) -> bool {
    is_ident_start(c) || ('0' <= c && c <= '9')
}

/// Whether `s` is a plain SQL identifier: not empty, made of ASCII letters,
/// digits and underscores, and not starting with a digit.
pub open spec fn is_identifier(s: Seq<char>) -> bool {
    &&& s.len() > 0
    &&& is_ident_start(s[0])
    &&& forall|i: int| 0 <= i < s.len() ==> is_ident_char(#[trigger] s[i])
}

/// Decides whether `s` is a plain SQL identifier.
pub fn is_identifier_str(s: &str) -> (b: bool)
    ensures
        b == is_identifier(s@),
{
    let mut seen_any = false;
    for c in it: s.chars()
        invariant
            it.seq() == s@,
            seen_any == (it.index() > 0),
            it.index() > 0 ==> is_ident_start(s@[0]),
            forall|j: int| 0 <= j < it.index() ==> is_ident_char(#[trigger] s@[j]),
    {
        let letter = ('a' <= c && c <= 'z') || ('A' <= c && c <= 'Z') || c == '_';
        let ok = letter || (seen_any && '0' <= c && c <= '9');
        if !ok {
            return false;
        }
        seen_any = true;
    }
    seen_any
}

/// The number of `?` placeholders in `text`.
pub open spec fn placeholders(text: Seq<char>) -> nat
    decreases text.len(),
{
    if text.len() == 0 {
        0
    } else if text.last() == '?' {
        placeholders(text.drop_last()) + 1
    } else {
        placeholders(text.drop_last())
    }
}

/// Placeholders of a concatenation are those of its two halves.
pub proof fn lemma_placeholders_concat(a: Seq<char>, b: Seq<char>)
    ensures
        placeholders(a + b) == placeholders(a) + placeholders(b),
    decreases b.len(),
{
    if b.len() == 0 {
        assert(a + b =~= a);
    } else {
        assert((a + b).drop_last() =~= a + b.drop_last());
        lemma_placeholders_concat(a, b.drop_last());
    }
}

/// A text without a `?` holds no placeholder.
pub proof fn lemma_placeholders_absent(text: Seq<char>)
    requires
        forall|i: int| 0 <= i < text.len() ==> text[i] != '?',
    ensures
        placeholders(text) == 0,
    decreases text.len(),
{
    if text.len() > 0 {
        lemma_placeholders_absent(text.drop_last());
    }
}

/// An identifier holds no placeholder.
pub proof fn lemma_identifier_has_no_placeholder(name: Seq<char>)
    requires
        is_identifier(name),
    ensures
        placeholders(name) == 0,
{
    assert forall|i: int| 0 <= i < name.len() implies name[i] != '?' by {
        assert(is_ident_char(name[i]));
    }
    lemma_placeholders_absent(name);
}

/// Whether `c` may occur in compiled text: what identifiers are made of, the
/// space, the placeholder, and the punctuation of comparisons, groups and
/// lists. No quote, semicolon, backslash or dash is among them.
pub open spec fn is_plain(c: char) -> bool {
    is_ident_char(c) || c == ' ' || c == '?' || c == '=' || c == '<' || c == '>' || c == '('
        || c == ')' || c == ','
}

/// Whether `text` is made of plain characters alone.
pub open spec fn all_plain(text: Seq<char>) -> bool {
    forall|i: int| 0 <= i < text.len() ==> is_plain(#[trigger] text[i])
}

/// Two plain texts make a plain text.
pub proof fn lemma_plain_concat(a: Seq<char>, b: Seq<char>)
    requires
        all_plain(a),
        all_plain(b),
    ensures
        all_plain(a + b),
{
    assert forall|i: int| 0 <= i < (a + b).len() implies is_plain(#[trigger] (a + b)[i]) by {
        if i < a.len() {
            assert((a + b)[i] == a[i]);
        } else {
            assert((a + b)[i] == b[i - a.len()]);
        }
    }
}

/// Plain fragments joined by a plain separator make a plain text.
pub proof fn lemma_plain_joined(parts: Seq<Seq<char>>, sep: Seq<char>)
    requires
        all_plain(sep),
        forall|i: int| 0 <= i < parts.len() ==> all_plain(#[trigger] parts[i]),
    ensures
        all_plain(joined(parts, sep)),
    decreases parts.len(),
{
    if parts.len() == 0 {
    } else if parts.len() == 1 {
        assert(all_plain(parts[0]));
    } else {
        let head = parts.drop_last();
        assert forall|i: int| 0 <= i < head.len() implies all_plain(#[trigger] head[i]) by {
            assert(head[i] == parts[i]);
        }
        lemma_plain_joined(head, sep);
        lemma_plain_concat(joined(head, sep), sep);
        assert(all_plain(parts[parts.len() - 1]));
        lemma_plain_concat(joined(head, sep) + sep, parts.last());
    }
}

} // verus!

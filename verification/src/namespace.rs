//! Namespace resolution: a logical collection maps to one physical
//! collection per namespace. The physical name is the logical name, or the
//! logical name, an underscore and the sanitized namespace.

use crate::text::join3;
use crate::text::optional_str;
use crate::text::string_of;
use vstd::prelude::*;
use vstd::string::*;

verus! {

/// Whether `c` may occur in a sanitized namespace: `a`..`z`, `0`..`9`, `_`.
pub open spec fn is_name_char(c: char) -> bool {
    ('a' <= c && c <= 'z') || ('0' <= c && c <= '9') || c == '_'
}

/// What one character of a namespace becomes: an ASCII letter its lower-case
/// form, an ASCII digit itself, anything else an underscore.
pub open spec fn sanitize_char(c: char) -> char {
    if ('a' <= c && c <= 'z') || ('0' <= c && c <= '9') {
        c
    } else if 'A' <= c && c <= 'Z' {
        ((c as u8) + 32) as char
    } else {
        '_'
    }
}

/// The namespace with every character replaced by `sanitize_char`.
pub open spec fn replaced(n: Seq<char>) -> Seq<char> {
    Seq::new(n.len(), |i: int| sanitize_char(n[i]))
}

/// `s` without its leading underscores.
pub open spec fn trim_start(s: Seq<char>) -> Seq<char>
    decreases s.len(),
{
    if s.len() > 0 && s[0] == '_' {
        trim_start(s.skip(1))
    } else {
        s
    }
}

/// `s` without its trailing underscores.
pub open spec fn trim_end(s: Seq<char>) -> Seq<char>
    decreases s.len(),
{
    if s.len() > 0 && s.last() == '_' {
        trim_end(s.drop_last())
    } else {
        s
    }
}

/// The sanitized form of a namespace: lower-cased, every character that is
/// no ASCII letter or digit turned into `_`, then leading and trailing `_`
/// removed.
pub open spec fn sanitized(n: Seq<char>) -> Seq<char> {
    trim_end(trim_start(replaced(n)))
}

/// The physical collection that a logical collection and an optional
/// namespace resolve to. A namespace that sanitizes to nothing counts as no
/// namespace.
pub open spec fn physical_name(logical: Seq<char>, namespace: Option<Seq<char>>) -> Seq<char> {
    match namespace {
        Some(n) => if sanitized(n).len() > 0 {
            logical + seq!['_'] + sanitized(n)
        } else {
            logical
        },
        None => logical,
    }
}

proof fn lemma_trim_start(s: Seq<char>, start: int)
    requires
        0 <= start <= s.len(),
        forall|i: int| 0 <= i < start ==> s[i] == '_',
        start < s.len() ==> s[start] != '_',
    ensures
        trim_start(s) == s.skip(start),
    decreases start,
{
    if start == 0 {
        assert(s.skip(0) =~= s);
    } else {
        let t = s.skip(1);
        assert forall|i: int| 0 <= i < start - 1 implies t[i] == '_' by {
            assert(t[i] == s[i + 1]);
        }
        lemma_trim_start(t, start - 1);
        assert(t.skip(start - 1) =~= s.skip(start));
    }
}

proof fn lemma_trim_end(s: Seq<char>, end: int)
    requires
        0 <= end <= s.len(),
        forall|i: int| end <= i < s.len() ==> s[i] == '_',
        0 < end ==> s[end - 1] != '_',
    ensures
        trim_end(s) == s.take(end),
    decreases s.len() - end,
{
    if end == s.len() {
        assert(s.take(end) =~= s);
    } else {
        let t = s.drop_last();
        lemma_trim_end(t, end);
        assert(t.take(end) =~= s.take(end));
    }
}

/// A sanitized namespace holds only `a`..`z`, `0`..`9` and `_`, and neither
/// begins nor ends with `_`.
pub proof fn lemma_sanitized_shape(n: Seq<char>)
    ensures
        forall|i: int| 0 <= i < sanitized(n).len() ==> is_name_char(#[trigger] sanitized(n)[i]),
        sanitized(n).len() > 0 ==> sanitized(n)[0] != '_' && sanitized(n).last() != '_',
{
    let r = replaced(n);
    assert forall|i: int| 0 <= i < r.len() implies is_name_char(#[trigger] r[i]) by {}
    lemma_trim_start_shape(r);
    lemma_trim_end_shape(trim_start(r));
}

proof fn lemma_trim_start_shape(s: Seq<char>)
    requires
        forall|i: int| 0 <= i < s.len() ==> is_name_char(#[trigger] s[i]),
    ensures
        forall|i: int| 0 <= i < trim_start(s).len() ==> is_name_char(#[trigger] trim_start(s)[i]),
        trim_start(s).len() > 0 ==> trim_start(s)[0] != '_',
    decreases s.len(),
{
    if s.len() > 0 && s[0] == '_' {
        let t = s.skip(1);
        assert forall|i: int| 0 <= i < t.len() implies is_name_char(#[trigger] t[i]) by {
            assert(t[i] == s[i + 1]);
        }
        lemma_trim_start_shape(t);
    }
}

proof fn lemma_trim_end_shape(s: Seq<char>)
    requires
        forall|i: int| 0 <= i < s.len() ==> is_name_char(#[trigger] s[i]),
        s.len() > 0 ==> s[0] != '_',
    ensures
        forall|i: int| 0 <= i < trim_end(s).len() ==> is_name_char(#[trigger] trim_end(s)[i]),
        trim_end(s).len() > 0 ==> trim_end(s)[0] != '_' && trim_end(s).last() != '_',
    decreases s.len(),
{
    if s.len() > 0 && s.last() == '_' {
        let t = s.drop_last();
        assert forall|i: int| 0 <= i < t.len() implies is_name_char(#[trigger] t[i]) by {
            assert(t[i] == s[i]);
        }
        lemma_trim_end_shape(t);
    }
}

/// The empty namespace sanitizes to nothing, so it selects the default
/// collection.
pub proof fn lemma_empty_namespace(logical: Seq<char>)
    ensures
        sanitized(Seq::<char>::empty()).len() == 0,
        physical_name(logical, Some(Seq::<char>::empty())) == logical,
{
    assert(replaced(Seq::<char>::empty()) =~= Seq::<char>::empty());
}

fn sanitize_one(c: char) -> (r: char)
    ensures
        r == sanitize_char(c),
{
    if (c >= 'a' && c <= 'z') || (c >= '0' && c <= '9') {
        c
    } else if c >= 'A' && c <= 'Z' {
        ((c as u8) + 32) as char
    } else {
        '_'
    }
}

/// Sanitizes a namespace. The result holds only `a`..`z`, `0`..`9` and `_`
/// and neither begins nor ends with `_`; it may be empty.
pub fn sanitize_namespace(value: &str) -> (out: String)
    ensures
        out@ == sanitized(value@),
        forall|i: int| 0 <= i < out@.len() ==> is_name_char(#[trigger] out@[i]),
        out@.len() > 0 ==> out@[0] != '_' && out@.last() != '_',
{
    let mut chars: Vec<char> = Vec::new();
    for c in iter: value.chars()
        invariant
            iter.seq() == value@,
            chars@ == replaced(value@.take(iter.index() as int)),
    {
        chars.push(sanitize_one(c));
        assert(chars@ =~= replaced(value@.take(iter.index() + 1)));
    }
    assert(value@.take(value@.len() as int) =~= value@);
    let mut start: usize = 0;
    while start < chars.len() && chars[start] == '_'
        invariant
            start <= chars.len(),
            forall|i: int| 0 <= i < start ==> chars@[i] == '_',
        decreases chars.len() - start,
    {
        start += 1;
    }
    let mut end: usize = chars.len();
    while end > start && chars[end - 1] == '_'
        invariant
            start <= end <= chars.len(),
            forall|i: int| end <= i < chars.len() ==> chars@[i] == '_',
        decreases end,
    {
        end -= 1;
    }
    proof {
        lemma_trim_start(chars@, start as int);
        let t = chars@.skip(start as int);
        assert forall|i: int| end - start <= i < t.len() implies t[i] == '_' by {
            assert(t[i] == chars@[i + start]);
        }
        lemma_trim_end(t, end - start);
        assert(t.take(end - start) =~= chars@.subrange(start as int, end as int));
        lemma_sanitized_shape(value@);
    }
    string_of(&chars, start, end)
}

/// Resolves the physical collection name for a logical collection and an
/// optional namespace. Never fails: a namespace that sanitizes to nothing
/// selects the bare logical name.
pub fn resolve_collection_name(logical: &str, namespace: Option<&str>) -> (name: String)
    ensures
        name@ == physical_name(logical@, optional_str(namespace)),
{
    match namespace {
        Some(n) => {
            let suffix = sanitize_namespace(n);
            if suffix.as_str().is_empty() {
                String::from_str(logical)
            } else {
                proof {
                    reveal_strlit("_");
                    assert("_"@ =~= seq!['_']);
                }
                join3(logical, "_", suffix.as_str())
            }
        },
        None => String::from_str(logical),
    }
}

} // verus!

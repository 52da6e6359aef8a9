//! The queries that a request is turned into.
use crate::text::{words, words_of_separated};
use std::borrow::Cow;
use vstd::prelude::*;

verus! {

/// What `char::to_lowercase` of std yields for a character: its Unicode
/// lowercase mapping.
pub uninterp spec fn lowercase_mapping(c: char) -> Seq<char>;

/// The lowercase letter of an ASCII capital, and any other character itself.
pub open spec fn ascii_lowercase(c: char) -> char {
    if 'A' <= c <= 'Z' {
        (c as u32 + 32) as char
    } else {
        c
    }
}

/// Whether a character is one of the 128 of ASCII.
pub open spec fn is_ascii(c: char) -> bool {
    (c as u32) < 128
}

/// `char::to_lowercase` of std: the lowercase mapping of a character, one or
/// more characters. Of an ASCII character it is the one ASCII character that
/// [`ascii_lowercase`] gives.
#[verifier::external_body]
fn to_lowercase(c: char) -> (mapped: Vec<char>)
    ensures
        mapped@ == lowercase_mapping(c),
        mapped@.len() > 0,
        is_ascii(c) ==> mapped@ == seq![ascii_lowercase(c)],
{
    c.to_lowercase().collect()
}

/// A query behind the constraints that a request gives apart from it, with a
/// space between them; without constraints, the query alone.
pub open spec fn merged(constraints: Seq<char>, query: Seq<char>) -> Seq<char> {
    if constraints.len() == 0 {
        query
    } else {
        constraints.push(' ') + query
    }
}

/// Puts the constraints that a request gives apart from its query in front of
/// it, where they act like those inside it.
pub fn merge_constraints<'a>(constraints: &str, query: &'a str) -> (out: Cow<'a, str>)
    ensures
        out@ == merged(constraints@, query@),
        out is Borrowed <==> constraints@.len() == 0,
{
    if constraints.is_empty() {
        Cow::Borrowed(query)
    } else {
        let mut text: String = constraints.to_owned();
        text.push(' ');
        text.append(query);
        Cow::Owned(text)
    }
}

/// Whether a character is dropped from a query that is matched approximately.
pub open spec fn is_joiner(c: char) -> bool {
    c == ':' || c == '-' || c == '_'
}

/// The lower case of a character: within ASCII what [`ascii_lowercase`] gives,
/// and beyond it the lowercase mapping.
pub open spec fn lowered(c: char) -> Seq<char> {
    if is_ascii(c) {
        seq![ascii_lowercase(c)]
    } else {
        lowercase_mapping(c)
    }
}

/// A query as it is matched approximately: without colons, hyphens and
/// underscores, and in lower case.
pub open spec fn cleaned(s: Seq<char>) -> Seq<char>
    decreases s.len(),
{
    if s.len() == 0 {
        Seq::empty()
    } else if is_joiner(s.last()) {
        cleaned(s.drop_last())
    } else {
        cleaned(s.drop_last()) + lowered(s.last())
    }
}

/// Writes a query as it is matched approximately.
pub fn cleanup_fuzzy_query(s: &str) -> (out: String)
    ensures
        out@ == cleaned(s@),
{
    let mut out: String = String::new();
    for c in it: s.chars()
        invariant
            it.seq() == s@,
            out@ == cleaned(s@.take(it.index())),
    {
        let ghost more = s@.take(it.index() + 1);
        assert(more.drop_last() == s@.take(it.index()));
        assert(more.last() == s@[it.index()]);
        if !(c == ':' || c == '-' || c == '_') {
            let ghost before = out@;
            let mapped: Vec<char> = to_lowercase(c);
            let mut k: usize = 0;
            while k < mapped.len()
                invariant
                    k <= mapped@.len(),
                    out@ == before + mapped@.take(k as int),
                decreases mapped@.len() - k,
            {
                out.push(mapped[k]);
                k += 1;
                assert(mapped@.take(k as int) == mapped@.take(k - 1).push(mapped@[k - 1]));
            }
            assert(mapped@.take(mapped@.len() as int) == mapped@);
            assert(mapped@ == lowered(c));
        }
    }
    assert(s@.take(s@.len() as int) == s@);
    out
}

/// Each character is cleaned up by itself: two texts behind each other are
/// cleaned up to the one and the other, cleaned up.
pub proof fn cleaning_goes_by_parts(a: Seq<char>, b: Seq<char>)
    ensures
        cleaned(a + b) == cleaned(a) + cleaned(b),
    decreases b.len(),
{
    if b.len() == 0 {
        assert(a + b =~= a);
        assert(cleaned(a) + cleaned(b) =~= cleaned(a));
    } else {
        cleaning_goes_by_parts(a, b.drop_last());
        assert((a + b).drop_last() =~= a + b.drop_last());
        assert((a + b).last() == b.last());
        assert(cleaned(a + b) =~= cleaned(a) + cleaned(b));
    }
}

/// An ASCII character that is neither dropped nor a capital is kept in its
/// place: spaces, slashes, dots and asterisks among them.
pub proof fn cleaning_keeps_other_characters(a: Seq<char>, c: char, b: Seq<char>)
    requires
        is_ascii(c),
        !is_joiner(c),
        !('A' <= c <= 'Z'),
    ensures
        cleaned(a.push(c) + b) == cleaned(a).push(c) + cleaned(b),
{
    cleaning_goes_by_parts(a.push(c), b);
    assert(a.push(c).drop_last() =~= a);
    assert(cleaned(a.push(c)) =~= cleaned(a).push(c));
}

/// Whether cleaning up leaves a character as it is: it is neither dropped nor
/// changed in lower case.
pub open spec fn is_clean(c: char) -> bool {
    !is_joiner(c) && lowered(c) == seq![c]
}

/// A query of clean characters is left as it is.
pub proof fn clean_query_is_kept(s: Seq<char>)
    requires
        forall|i: int| 0 <= i < s.len() ==> is_clean(#[trigger] s[i]),
    ensures
        cleaned(s) == s,
    decreases s.len(),
{
    if s.len() > 0 {
        let init = s.drop_last();
        assert forall|i: int| 0 <= i < init.len() implies is_clean(#[trigger] init[i]) by {
            assert(is_clean(s[i]));
        }
        clean_query_is_kept(init);
        assert(is_clean(s[s.len() - 1]));
        assert(cleaned(s) =~= s);
    }
}

/// Whether the lower case of a character is in lower case itself and holds
/// none of the dropped characters.
pub open spec fn lowers_cleanly(c: char) -> bool {
    forall|i: int| 0 <= i < lowered(c).len() ==> is_clean(#[trigger] lowered(c)[i])
}

/// Where the lower case of each character is clean, so is the query that is
/// cleaned up: it holds none of the dropped characters, and cleaning it up
/// again changes nothing.
pub proof fn cleaning_is_idempotent(s: Seq<char>)
    requires
        forall|i: int|
            0 <= i < s.len() && !is_joiner(#[trigger] s[i]) ==> lowers_cleanly(s[i]),
    ensures
        forall|i: int| 0 <= i < cleaned(s).len() ==> is_clean(#[trigger] cleaned(s)[i]),
        cleaned(cleaned(s)) == cleaned(s),
    decreases s.len(),
{
    if s.len() > 0 {
        let init = s.drop_last();
        assert forall|i: int| 0 <= i < init.len() && !is_joiner(#[trigger] init[i]) implies
            lowers_cleanly(init[i]) by {
            assert(init[i] == s[i]);
        }
        cleaning_is_idempotent(init);
        let last = s[s.len() - 1];
        if !is_joiner(last) {
            assert(lowers_cleanly(last));
            let n = cleaned(init).len();
            assert forall|i: int| 0 <= i < cleaned(s).len() implies is_clean(
                #[trigger] cleaned(s)[i],
            ) by {
                if i < n {
                    assert(cleaned(s)[i] == cleaned(init)[i]);
                } else {
                    assert(cleaned(s)[i] == lowered(last)[i - n]);
                }
            }
        }
    }
    clean_query_is_kept(cleaned(s));
}

/// The lower case of an ASCII character is clean, unless the character is
/// dropped: a cleaned up ASCII query holds none of the dropped characters and no
/// capital, and cleaning it up again changes nothing.
pub proof fn cleaning_ascii_is_idempotent(s: Seq<char>)
    requires
        forall|i: int| 0 <= i < s.len() ==> is_ascii(#[trigger] s[i]),
    ensures
        forall|i: int|
            0 <= i < cleaned(s).len() ==> !is_joiner(#[trigger] cleaned(s)[i]) && !('A'
                <= cleaned(s)[i] <= 'Z'),
        cleaned(cleaned(s)) == cleaned(s),
{
    assert forall|i: int| 0 <= i < s.len() && !is_joiner(#[trigger] s[i]) implies lowers_cleanly(
        s[i],
    ) by {
        let low = ascii_lowercase(s[i]);
        assert(is_ascii(s[i]));
        assert(lowered(s[i]) == seq![low]);
        assert(is_clean(low));
    }
    cleaning_is_idempotent(s);
    assert forall|i: int| 0 <= i < cleaned(s).len() implies !('A' <= #[trigger] cleaned(s)[i]
        <= 'Z') by {
        let c = cleaned(s)[i];
        assert(is_clean(c));
        if 'A' <= c <= 'Z' {
            assert(lowered(c)[0] == ascii_lowercase(c));
            assert(seq![c][0] == c);
        }
    }
}

/// Constraints that are given apart from the query act like constraints in
/// front of it: the words of both together are those of the constraints, then
/// those of the query.
pub proof fn merged_words(constraints: Seq<char>, query: Seq<char>)
    ensures
        words(merged(constraints, query)) == words(constraints) + words(query),
{
    if constraints.len() == 0 {
        assert(words(constraints) + words(query) =~= words(query));
    } else {
        words_of_separated(constraints, ' ', query);
    }
}

/// How one character is cleaned up: colons, hyphens and underscores are
/// dropped, an ASCII capital becomes its small letter, any other ASCII
/// character is kept, and one beyond ASCII becomes its lowercase mapping.
pub proof fn character_is_cleaned(c: char)
    ensures
        ({
            let out = cleaned(seq![c]);
            if c == ':' || c == '-' || c == '_' {
                out.len() == 0
            } else if 'A' <= c <= 'Z' {
                out.len() == 1 && out[0] as u32 == c as u32 - 'A' as u32 + 'a' as u32
            } else if c as u32 <= 0x7f {
                out == seq![c]
            } else {
                out == lowercase_mapping(c)
            }
        }),
{
    assert(seq![c].drop_last() =~= Seq::<char>::empty());
    assert(cleaned(Seq::<char>::empty()) =~= Seq::<char>::empty());
    assert(cleaned(seq![c]) =~= if is_joiner(c) {
        Seq::<char>::empty()
    } else {
        lowered(c)
    });
}

/// Constraints stand in front of the query with one space between them; without
/// constraints the query stands alone.
pub proof fn constraints_stand_in_front(constraints: Seq<char>, query: Seq<char>)
    ensures
        merged(Seq::empty(), query) == query,
        constraints.len() > 0 ==> merged(constraints, query) == constraints + seq![' '] + query,
{
    assert(constraints.push(' ') + query =~= constraints + seq![' '] + query);
}

} // verus!

//! Text as sequences of characters: words, joining, decimal numbers.
use vstd::prelude::*;

verus! {

/// `String::push` of std: the character is appended at the end.
pub assume_specification[ String::push ](s: &mut String, c: char)
    ensures
        final(s)@ == old(s)@.push(c),
;

/// The characters with the Unicode property `White_Space`.
pub open spec fn is_white_space(c: char) -> bool {
    let code = c as u32;
    ||| 0x09 <= code <= 0x0d
    ||| code == 0x20
    ||| code == 0x85
    ||| code == 0xa0
    ||| code == 0x1680
    ||| 0x2000 <= code <= 0x200a
    ||| code == 0x2028
    ||| code == 0x2029
    ||| code == 0x202f
    ||| code == 0x205f
    ||| code == 0x3000
}

/// `char::is_whitespace` of std: whether the character has the Unicode
/// property `White_Space`, whose members [`is_white_space`] lists.
pub assume_specification[ char::is_whitespace ](c: char) -> (white: bool)
    ensures
        white == is_white_space(c),
;

/// What each string of a list holds.
pub open spec fn views(strings: Seq<String>) -> Seq<Seq<char>> {
    Seq::new(strings.len(), |i: int| strings[i]@)
}

/// The text of an optional string.
pub open spec fn view_option(s: Option<String>) -> Option<Seq<char>> {
    match s {
        Some(text) => Some(text@),
        None => None,
    }
}

/// The words of a text: its maximal runs of characters that are not white
/// space, in order. A character that is white space ends a word; any other
/// one extends the word before it or, at the start or after white space,
/// begins a word.
pub open spec fn words(s: Seq<char>) -> Seq<Seq<char>>
    decreases s.len(),
{
    if s.len() == 0 {
        Seq::empty()
    } else {
        let before = words(s.drop_last());
        if is_white_space(s.last()) {
            before
        } else if s.len() == 1 || is_white_space(s[s.len() - 2]) {
            before.push(seq![s.last()])
        } else {
            before.drop_last().push(before.last().push(s.last()))
        }
    }
}

/// Whether a text is one word: not empty, and without white space.
pub open spec fn is_word(s: Seq<char>) -> bool {
    s.len() > 0 && forall|i: int| 0 <= i < s.len() ==> !is_white_space(#[trigger] s[i])
}

/// The parts in order, with the separator between each two neighbours.
pub open spec fn joined(parts: Seq<Seq<char>>, separator: Seq<char>) -> Seq<char>
    decreases parts.len(),
{
    if parts.len() == 0 {
        Seq::empty()
    } else if parts.len() == 1 {
        parts[0]
    } else {
        joined(parts.take(parts.len() - 1), separator) + separator + parts[parts.len() - 1]
    }
}

/// The decimal digits of a number, without leading zeros.
pub open spec fn decimal(n: nat) -> Seq<char>
    decreases n,
{
    if n < 10 {
        seq![digit(n)]
    } else {
        decimal(n / 10).push(digit(n % 10))
    }
}

/// The character of a decimal digit.
pub open spec fn digit(d: nat) -> char {
    (48 + d) as char
}

/// Splits a text at white space into its words.
pub fn split_words(s: &str) -> (out: Vec<String>)
    ensures
        views(out@) == words(s@),
{
    let mut out: Vec<String> = Vec::new();
    let mut word: String = String::new();
    for c in it: s.chars()
        invariant
            it.seq() == s@,
            word@.len() == 0 ==> {
                &&& views(out@) == words(s@.take(it.index()))
                &&& it.index() == 0 || is_white_space(s@[it.index() - 1])
            },
            word@.len() > 0 ==> {
                &&& views(out@).push(word@) == words(s@.take(it.index()))
                &&& it.index() > 0
                &&& !is_white_space(s@[it.index() - 1])
            },
    {
        let ghost done = s@.take(it.index());
        let ghost more = s@.take(it.index() + 1);
        proof {
            assert(more.drop_last() == done);
            assert(more.last() == c);
            if it.index() > 0 {
                assert(more[more.len() - 2] == s@[it.index() - 1]);
            }
        }
        if c.is_whitespace() {
            if !word.as_str().is_empty() {
                let ghost held = views(out@).push(word@);
                out.push(word);
                assert(views(out@) == held);
                word = String::new();
            }
        } else {
            let ghost held = word@;
            word.push(c);
            proof {
                if held.len() > 0 {
                    assert(words(done).drop_last() == views(out@));
                    assert(words(done).last() == held);
                } else {
                    assert(word@ == seq![c]);
                }
            }
        }
    }
    assert(s@.take(s@.len() as int) == s@);
    if !word.as_str().is_empty() {
        let ghost held = views(out@).push(word@);
        out.push(word);
        assert(views(out@) == held);
    }
    out
}

/// Joins the strings of a list from the index `from` on.
pub fn join_from(parts: &Vec<String>, from: usize, separator: &str) -> (out: String)
    requires
        from <= parts@.len(),
    ensures
        out@ == joined(views(parts@).skip(from as int), separator@),
{
    let ghost all = views(parts@).skip(from as int);
    let mut out: String = String::new();
    let mut i: usize = from;
    while i < parts.len()
        invariant
            from <= i <= parts@.len(),
            all == views(parts@).skip(from as int),
            out@ == joined(all.take(i - from), separator@),
        decreases parts@.len() - i,
    {
        if i > from {
            out.append(separator);
        }
        out.append(parts[i].as_str());
        proof {
            let more = all.take(i - from + 1);
            assert(more.take(more.len() - 1) == all.take(i - from));
            assert(more[more.len() - 1] == parts@[i as int]@);
            if i == from {
                assert(out@ == more[0]);
            }
        }
        i += 1;
    }
    assert(all.take(all.len() as int) == all);
    out
}

/// Joins the strings of a list.
pub fn join(parts: &Vec<String>, separator: &str) -> (out: String)
    ensures
        out@ == joined(views(parts@), separator@),
{
    assert(views(parts@).skip(0) == views(parts@));
    join_from(parts, 0, separator)
}

/// A text that is one space.
pub fn space() -> (out: String)
    ensures
        out@ == seq![' '],
{
    let mut out: String = String::new();
    out.push(' ');
    assert(out@ =~= seq![' ']);
    out
}

/// A text that is one line break.
pub fn line_break() -> (out: String)
    ensures
        out@ == seq!['\n'],
{
    let mut out: String = String::new();
    out.push('\n');
    assert(out@ =~= seq!['\n']);
    out
}

/// The decimal digits of a number.
pub fn decimal_text(n: u64) -> (out: String)
    ensures
        out@ == decimal(n as nat),
    decreases n,
{
    let last: u8 = 48 + (n % 10) as u8;
    let mut out: String = if n < 10 { String::new() } else { decimal_text(n / 10) };
    out.push(last as char);
    assert(n < 10 ==> out@ == seq![digit(n as nat)]);
    out
}

/// Whether a text holds a character.
pub fn contains_char(s: &str, wanted: char) -> (found: bool)
    ensures
        found == s@.contains(wanted),
{
    for c in it: s.chars()
        invariant
            it.seq() == s@,
            forall|i: int| 0 <= i < it.index() ==> s@[i] != wanted,
    {
        if c == wanted {
            assert(s@[it.index()] == wanted);
            return true;
        }
    }
    false
}

/// Whether a text begins with a character.
pub fn starts_with_char(s: &str, wanted: char) -> (yes: bool)
    ensures
        yes == (s@.len() > 0 && s@[0] == wanted),
{
    let mut chars = s.chars();
    match chars.next() {
        Some(c) => c == wanted,
        None => false,
    }
}

/// Whether two texts are the same.
pub fn same_text(a: &str, b: &str) -> (same: bool)
    ensures
        same == (a@ == b@),
{
    a.to_owned() == b.to_owned()
}

/// A text without the white space that it begins with.
pub open spec fn trimmed_start(s: Seq<char>) -> Seq<char>
    decreases s.len(),
{
    if s.len() > 0 && is_white_space(s[0]) {
        trimmed_start(s.drop_first())
    } else {
        s
    }
}

/// A text without the white space that it ends with.
pub open spec fn trimmed_end(s: Seq<char>) -> Seq<char>
    decreases s.len(),
{
    if s.len() > 0 && is_white_space(s.last()) {
        trimmed_end(s.drop_last())
    } else {
        s
    }
}

/// A text without the white space around it.
pub open spec fn trimmed(s: Seq<char>) -> Seq<char> {
    trimmed_end(trimmed_start(s))
}

/// Writes a text without the white space around it.
pub fn trim(s: &str) -> (out: String)
    ensures
        out@ == trimmed(s@),
{
    let mut chars: Vec<char> = Vec::new();
    for c in it: s.chars()
        invariant
            it.seq() == s@,
            chars@ == s@.take(it.index()),
    {
        chars.push(c);
        assert(s@.take(it.index() + 1) == s@.take(it.index()).push(c));
    }
    assert(s@.take(s@.len() as int) == s@);
    let mut from: usize = 0;
    assert(s@.skip(0) == s@);
    while from < chars.len() && chars[from].is_whitespace()
        invariant
            chars@ == s@,
            from <= chars@.len(),
            trimmed_start(s@.skip(from as int)) == trimmed_start(s@),
        decreases chars@.len() - from,
    {
        assert(s@.skip(from as int)[0] == s@[from as int]);
        assert(s@.skip(from as int).drop_first() == s@.skip(from + 1));
        from += 1;
    }
    let ghost rest = trimmed_start(s@);
    assert(rest == s@.skip(from as int)) by {
        if from < s@.len() {
            assert(s@.skip(from as int)[0] == s@[from as int]);
        }
    }
    let mut to: usize = chars.len();
    assert(s@.subrange(from as int, to as int) == rest);
    while to > from && chars[to - 1].is_whitespace()
        invariant
            chars@ == s@,
            from <= to <= chars@.len(),
            trimmed_end(s@.subrange(from as int, to as int)) == trimmed_end(rest),
        decreases to,
    {
        let ghost held = s@.subrange(from as int, to as int);
        assert(held.last() == s@[to - 1]);
        assert(held.drop_last() == s@.subrange(from as int, to - 1));
        to -= 1;
    }
    let ghost kept = s@.subrange(from as int, to as int);
    assert(trimmed_end(kept) == kept) by {
        if to > from {
            assert(kept.last() == s@[to - 1]);
        }
    }
    let mut out: String = String::new();
    let mut i: usize = from;
    while i < to
        invariant
            chars@ == s@,
            from <= i <= to <= chars@.len(),
            kept == s@.subrange(from as int, to as int),
            out@ == kept.take(i - from),
        decreases to - i,
    {
        out.push(chars[i]);
        assert(kept.take(i - from + 1) == kept.take(i - from).push(kept[i - from]));
        i += 1;
    }
    assert(kept.take(kept.len() as int) == kept);
    out
}

/// The words of two texts with one white space character between them are
/// the words of the first, then those of the second.
pub proof fn words_of_separated(a: Seq<char>, white: char, b: Seq<char>)
    requires
        is_white_space(white),
    ensures
        words(a.push(white) + b) == words(a) + words(b),
    decreases b.len(),
{
    let s = a.push(white) + b;
    if b.len() == 0 {
        assert(s == a.push(white));
        assert(s.drop_last() == a);
        assert(words(b) == Seq::<Seq<char>>::empty());
    } else {
        words_of_separated(a, white, b.drop_last());
        assert(s.drop_last() == a.push(white) + b.drop_last());
        assert(s.last() == b.last());
        let before = words(b.drop_last());
        if !is_white_space(b.last()) {
            if b.len() == 1 {
                assert(s[s.len() - 2] == white);
            } else {
                assert(s[s.len() - 2] == b[b.len() - 2]);
                if !is_white_space(b[b.len() - 2]) {
                    words_are_words(b.drop_last());
                    assert((words(a) + before).last() == before.last());
                    assert((words(a) + before).drop_last() == words(a) + before.drop_last());
                }
            }
        }
        assert(words(s) == words(a) + words(b));
    }
}

/// One word is the only word of itself.
pub proof fn words_of_word(s: Seq<char>)
    requires
        is_word(s),
    ensures
        words(s) == seq![s],
    decreases s.len(),
{
    if s.len() == 1 {
        assert(!is_white_space(s[0]));
        assert(words(s.drop_last()) =~= Seq::<Seq<char>>::empty());
        assert(s == seq![s.last()]);
        assert(words(s) =~= seq![s]);
    } else {
        assert(is_word(s.drop_last())) by {
            assert forall|i: int| 0 <= i < s.len() - 1 implies !is_white_space(
                #[trigger] s.drop_last()[i],
            ) by {
                assert(!is_white_space(s[i]));
            }
        }
        words_of_word(s.drop_last());
        assert(!is_white_space(s[s.len() - 1]));
        assert(!is_white_space(s[s.len() - 2]));
        assert(s.drop_last().push(s.last()) == s);
        assert(words(s) =~= seq![s]);
    }
}

/// Splitting undoes joining: words joined by a space split into the same
/// words.
pub proof fn words_of_joined(parts: Seq<Seq<char>>)
    requires
        forall|i: int| 0 <= i < parts.len() ==> is_word(#[trigger] parts[i]),
    ensures
        words(joined(parts, seq![' '])) == parts,
    decreases parts.len(),
{
    if parts.len() == 0 {
        assert(parts =~= Seq::<Seq<char>>::empty());
    } else if parts.len() == 1 {
        words_of_word(parts[0]);
        assert(parts =~= seq![parts[0]]);
    } else {
        let init = parts.take(parts.len() - 1);
        let last = parts[parts.len() - 1];
        assert forall|i: int| 0 <= i < init.len() implies is_word(#[trigger] init[i]) by {
            assert(is_word(parts[i]));
        }
        words_of_joined(init);
        words_of_word(last);
        words_of_separated(joined(init, seq![' ']), ' ', last);
        assert(joined(init, seq![' ']).push(' ') + last == joined(init, seq![' ']) + seq![' ']
            + last);
        assert(init + seq![last] =~= parts);
    }
}

/// Each word of a text is a word: not empty, and without white space.
pub proof fn words_are_words(s: Seq<char>)
    ensures
        forall|i: int| 0 <= i < words(s).len() ==> is_word(#[trigger] words(s)[i]),
        s.len() > 0 && !is_white_space(s.last()) ==> words(s).len() > 0,
    decreases s.len(),
{
    if s.len() > 0 {
        words_are_words(s.drop_last());
        let before = words(s.drop_last());
        if !is_white_space(s.last()) && s.len() > 1 && !is_white_space(s[s.len() - 2]) {
            assert(!is_white_space(s.drop_last().last()));
            let grown = before.last().push(s.last());
            assert(is_word(before[before.len() - 1]));
            assert forall|i: int| 0 <= i < grown.len() implies !is_white_space(
                #[trigger] grown[i],
            ) by {
                if i < before.last().len() {
                    assert(!is_white_space(before.last()[i]));
                }
            }
            assert(is_word(grown));
        }
        assert forall|i: int| 0 <= i < words(s).len() implies is_word(#[trigger] words(s)[i]) by {
            if i < before.len() {
                assert(is_word(before[i]));
            }
        }
    }
}

/// Behind more parts, one part more comes after what they join to; without a
/// separator nothing comes between.
proof fn joined_with_one_more(parts: Seq<Seq<char>>, part: Seq<char>)
    ensures
        joined(parts.push(part), Seq::empty()) == joined(parts, Seq::empty()) + part,
{
    let more = parts.push(part);
    assert(more.take(more.len() - 1) == parts);
    if parts.len() == 0 {
        assert(joined(parts, Seq::empty()) + part =~= part);
    } else {
        assert(joined(parts, Seq::<char>::empty()) + Seq::<char>::empty() + part =~= joined(
            parts,
            Seq::<char>::empty(),
        ) + part);
    }
}

/// The words of a text hold all of it but the white space, in order.
pub proof fn words_hold_all_but_white_space(s: Seq<char>)
    ensures
        joined(words(s), Seq::empty()) == s.filter(|c: char| !is_white_space(c)),
    decreases s.len(),
{
    let solid = |c: char| !is_white_space(c);
    reveal(Seq::filter);
    if s.len() > 0 {
        let init = s.drop_last();
        let before = words(init);
        words_hold_all_but_white_space(init);
        words_are_words(init);
        if !is_white_space(s.last()) {
            if s.len() == 1 || is_white_space(s[s.len() - 2]) {
                joined_with_one_more(before, seq![s.last()]);
                assert(joined(words(s), Seq::empty()) =~= init.filter(solid).push(s.last()));
            } else {
                assert(!is_white_space(init.last()));
                joined_with_one_more(before.drop_last(), before.last());
                joined_with_one_more(before.drop_last(), before.last().push(s.last()));
                assert(before.drop_last().push(before.last()) =~= before);
                assert(joined(words(s), Seq::empty()) =~= init.filter(solid).push(s.last()));
            }
        }
    }
}

/// Joined parts stand behind each other, with the separator once between each
/// two of them and nowhere else: a list that is cut in two joins to what its
/// two halves join to, with the separator between them.
pub proof fn joining_goes_by_parts(a: Seq<Seq<char>>, b: Seq<Seq<char>>, separator: Seq<char>)
    ensures
        joined(Seq::<Seq<char>>::empty(), separator) == Seq::<char>::empty(),
        a.len() == 1 ==> joined(a, separator) == a[0],
        a.len() > 0 && b.len() > 0 ==> joined(a + b, separator) == joined(a, separator)
            + separator + joined(b, separator),
    decreases b.len(),
{
    if a.len() > 0 && b.len() > 0 {
        let all = a + b;
        assert(all.take(all.len() - 1) =~= a + b.take(b.len() - 1));
        assert(all[all.len() - 1] == b[b.len() - 1]);
        if b.len() == 1 {
            assert(all.take(all.len() - 1) =~= a);
        } else {
            joining_goes_by_parts(a, b.take(b.len() - 1), separator);
            assert(joined(all, separator) =~= joined(a, separator) + separator + joined(
                b,
                separator,
            ));
        }
    }
}

/// The number that decimal digits stand for.
pub open spec fn number_of_digits(s: Seq<char>) -> int
    decreases s.len(),
{
    if s.len() == 0 {
        0
    } else {
        10 * number_of_digits(s.drop_last()) + (s.last() as u32 - '0' as u32)
    }
}

/// The decimal digits of a number are digits, stand for the number, and begin
/// with a zero for zero alone.
pub proof fn digits_stand_for_number(n: nat)
    ensures
        decimal(n).len() > 0,
        forall|i: int| 0 <= i < decimal(n).len() ==> '0' <= #[trigger] decimal(n)[i] <= '9',
        number_of_digits(decimal(n)) == n,
        n > 0 ==> decimal(n)[0] != '0',
        n == 0 ==> decimal(n).len() == 1,
    decreases n,
{
    reveal_with_fuel(number_of_digits, 2);
    if n >= 10 {
        digits_stand_for_number(n / 10);
        let init = decimal(n / 10);
        let last = digit(n % 10);
        assert(decimal(n) == init.push(last));
        assert(decimal(n).drop_last() =~= init);
        assert(decimal(n).last() == last);
        assert(decimal(n)[0] == init[0]);
    } else {
        assert(decimal(n).drop_last() =~= Seq::<char>::empty());
    }
}

/// Trimming takes away the white space at both ends and nothing else.
pub proof fn trimming_takes_white_ends(s: Seq<char>)
    ensures
        exists|from: int, to: int|
            {
                &&& 0 <= from <= to <= s.len()
                &&& trimmed(s) == #[trigger] s.subrange(from, to)
                &&& forall|i: int|
                    0 <= i < from || to <= i < s.len() ==> is_white_space(#[trigger] s[i])
            },
        trimmed(s).len() > 0 ==> !is_white_space(trimmed(s)[0]) && !is_white_space(
            trimmed(s).last(),
        ),
    decreases s.len(),
{
    if s.len() > 0 && is_white_space(s[0]) {
        let rest = s.drop_first();
        trimming_takes_white_ends(rest);
        let (from, to) = choose|from: int, to: int|
            {
                &&& 0 <= from <= to <= rest.len()
                &&& trimmed(rest) == #[trigger] rest.subrange(from, to)
                &&& forall|i: int|
                    0 <= i < from || to <= i < rest.len() ==> is_white_space(#[trigger] rest[i])
            };
        assert(s.subrange(from + 1, to + 1) =~= rest.subrange(from, to));
        assert forall|i: int| 0 <= i < from + 1 || to + 1 <= i < s.len() implies is_white_space(
            #[trigger] s[i],
        ) by {
            if i > 0 {
                assert(rest[i - 1] == s[i]);
            }
        }
    } else {
        trimming_takes_white_end(s);
        let to = trimmed_end(s).len() as int;
        assert(s.subrange(0, to) =~= trimmed_end(s));
        if to > 0 {
            assert(trimmed_end(s)[0] == s[0]);
        }
    }
}

/// Trimming the end takes away the white space there and nothing else.
proof fn trimming_takes_white_end(s: Seq<char>)
    ensures
        trimmed_end(s).len() <= s.len(),
        trimmed_end(s) == s.take(trimmed_end(s).len() as int),
        forall|i: int| trimmed_end(s).len() <= i < s.len() ==> is_white_space(#[trigger] s[i]),
        trimmed_end(s).len() > 0 ==> !is_white_space(trimmed_end(s).last()),
    decreases s.len(),
{
    if s.len() > 0 && is_white_space(s.last()) {
        let init = s.drop_last();
        trimming_takes_white_end(init);
        assert(init.take(trimmed_end(init).len() as int) =~= s.take(
            trimmed_end(init).len() as int,
        ));
        assert forall|i: int| trimmed_end(s).len() <= i < s.len() implies is_white_space(
            #[trigger] s[i],
        ) by {
            if i < init.len() {
                assert(init[i] == s[i]);
            }
        }
    } else {
        assert(s.take(s.len() as int) =~= s);
    }
}

/// A list of strings is seen as the texts of its strings, in order.
pub proof fn strings_are_seen_as_texts(strings: Seq<String>, s: Option<String>)
    ensures
        views(strings).len() == strings.len(),
        forall|i: int| 0 <= i < strings.len() ==> #[trigger] views(strings)[i] == strings[i]@,
        s is None <==> view_option(s) is None,
        s matches Some(text) ==> view_option(s) == Some(text@),
{
}

} // verus!

//! Field values of a request, read with tolerance for the shapes that callers
//! get wrong: lists in place of texts, lists written as texts, numbers
//! written as texts.
use crate::number::Binary64;
use crate::text::{join, joined, space, starts_with_char, views};
use vstd::prelude::*;

verus! {

/// The value of a field, as far as any field is read.
#[derive(Debug)]
pub enum FieldValue {
    Null,
    Bool,
    Number(Binary64),
    /// A text, with the number that it reads as where it is one, surrounding
    /// white space aside.
    Text { text: String, number: Option<Binary64> },
    /// A list, with the text of each element that is one.
    Array(Vec<Option<String>>),
    Object,
}

/// What a field value holds.
pub enum FieldShape {
    Null,
    Bool,
    Number(Binary64),
    Text { text: Seq<char>, number: Option<Binary64> },
    Array(Seq<Option<Seq<char>>>),
    Object,
}

/// What the elements of a list hold.
pub open spec fn element_views(items: Seq<Option<String>>) -> Seq<Option<Seq<char>>> {
    Seq::new(
        items.len(),
        |i: int|
            match items[i] {
                Some(text) => Some(text@),
                None => None,
            },
    )
}

impl View for FieldValue {
    type V = FieldShape;

    open spec fn view(&self) -> FieldShape {
        match self {
            FieldValue::Null => FieldShape::Null,
            FieldValue::Bool => FieldShape::Bool,
            FieldValue::Number(n) => FieldShape::Number(*n),
            FieldValue::Text { text, number } => FieldShape::Text { text: text@, number: *number },
            FieldValue::Array(items) => FieldShape::Array(element_views(items@)),
            FieldValue::Object => FieldShape::Object,
        }
    }
}

/// Why a value cannot be read.
#[derive(Clone, Copy, Debug, PartialEq, Eq, Structural)]
pub enum FieldError {
    /// Neither a text nor a list.
    NotPatterns,
    /// Neither a text nor a list nor null.
    NotText,
    /// An element of a list that is no text.
    NotTextElement,
    /// A truth value in place of a number.
    NotNumber,
    /// Neither a plain number nor null.
    NotLimit,
}

impl FieldError {
    /// What was expected in place of the value.
    pub open spec fn expectation(self) -> Seq<char> {
        match self {
            FieldError::NotPatterns =>
                "a string, an array of strings, or a stringified JSON array"@,
            FieldError::NotText =>
                "a string, an array of strings, a stringified JSON array, or null"@,
            FieldError::NotTextElement => "a string"@,
            FieldError::NotNumber => "a number, a numeric string, or null"@,
            FieldError::NotLimit => "f64"@,
        }
    }

    /// Says what was expected in place of the value.
    pub fn expecting(self) -> (text: &'static str)
        ensures
            text@ == self.expectation(),
    {
        match self {
            FieldError::NotPatterns => "a string, an array of strings, or a stringified JSON array",
            FieldError::NotText =>
                "a string, an array of strings, a stringified JSON array, or null",
            FieldError::NotTextElement => "a string",
            FieldError::NotNumber => "a number, a numeric string, or null",
            FieldError::NotLimit => "f64",
        }
    }
}

/// What `serde_json::from_str` returns for a text that is read as a list of
/// strings; nothing where it returns an error.
pub uninterp spec fn json_string_array(text: Seq<char>) -> Option<Seq<Seq<char>>>;

/// A hexadecimal digit.
pub open spec fn hex_digit(d: nat) -> char {
    if d < 10 {
        (48 + d) as char
    } else {
        (87 + d) as char
    }
}

/// How JSON writes a character between quotes: the quote, the backslash and
/// the control characters by an escape, any other one as it is.
pub open spec fn escaped_char(c: char) -> Seq<char> {
    let code = c as u32 as nat;
    if c == '"' || c == '\\' {
        seq!['\\', c]
    } else if code == 0x08 {
        seq!['\\', 'b']
    } else if code == 0x09 {
        seq!['\\', 't']
    } else if code == 0x0a {
        seq!['\\', 'n']
    } else if code == 0x0c {
        seq!['\\', 'f']
    } else if code == 0x0d {
        seq!['\\', 'r']
    } else if code < 0x20 {
        seq!['\\', 'u', '0', '0', hex_digit(code / 16), hex_digit(code % 16)]
    } else {
        seq![c]
    }
}

/// How JSON writes a text between quotes.
pub open spec fn escaped(text: Seq<char>) -> Seq<char>
    decreases text.len(),
{
    if text.len() == 0 {
        Seq::empty()
    } else {
        escaped(text.drop_last()) + escaped_char(text.last())
    }
}

/// A text as JSON writes it, between quotes.
pub open spec fn quoted(text: Seq<char>) -> Seq<char> {
    seq!['"'] + escaped(text) + seq!['"']
}

/// A list of texts, written in JSON without white space.
pub open spec fn json_array_of(items: Seq<Seq<char>>) -> Seq<char> {
    seq!['['] + joined(Seq::new(items.len(), |i: int| quoted(items[i])), seq![',']) + seq![']']
}

/// What the strings of an optional list hold.
pub open spec fn view_list(list: Option<Vec<String>>) -> Option<Seq<Seq<char>>> {
    match list {
        Some(items) => Some(views(items@)),
        None => None,
    }
}

/// `serde_json::from_str` for a list of strings: a function of the text. A
/// list of texts that is written in JSON is read back.
#[verifier::external_body]
fn parse_string_array(text: &str) -> (parsed: Option<Vec<String>>)
    ensures
        view_list(parsed) == json_string_array(text@),
        forall|items: Seq<Seq<char>>|
            text@ == #[trigger] json_array_of(items) ==> view_list(parsed) == Some(items),
{
    serde_json::from_str::<Vec<String>>(text).ok()
}

/// The list that a text stands for where it begins like one and reads as one.
pub open spec fn list_in(text: Seq<char>) -> Option<Seq<Seq<char>>> {
    if text.len() > 0 && text[0] == '[' {
        json_string_array(text)
    } else {
        None
    }
}

/// Whether a text that is a list of texts written in JSON stands for that
/// list.
pub open spec fn reads_back(text: Seq<char>) -> bool {
    forall|items: Seq<Seq<char>>|
        text == #[trigger] json_array_of(items) ==> list_in(text) == Some(items)
}

/// Reads a text as the list that it stands for.
fn list_in_text(text: &str) -> (list: Option<Vec<String>>)
    ensures
        view_list(list) == list_in(text@),
        reads_back(text@),
{
    proof {
        assert forall|items: Seq<Seq<char>>| text@ == #[trigger] json_array_of(
            items,
        ) implies text@.len() > 0 && text@[0] == '[' by {}
    }
    if starts_with_char(text, '[') {
        parse_string_array(text)
    } else {
        None
    }
}

/// The elements of a list where all of them are texts.
pub open spec fn all_texts(items: Seq<Option<Seq<char>>>) -> Option<Seq<Seq<char>>> {
    if forall|i: int| 0 <= i < items.len() ==> (#[trigger] items[i]) is Some {
        Some(Seq::new(items.len(), |i: int| items[i]->0))
    } else {
        None
    }
}

/// Takes the elements of a list where all of them are texts.
fn collect_texts(items: Vec<Option<String>>) -> (texts: Option<Vec<String>>)
    ensures
        view_list(texts) == all_texts(element_views(items@)),
{
    let ghost shape = element_views(items@);
    let mut texts: Vec<String> = Vec::new();
    let mut i: usize = 0;
    while i < items.len()
        invariant
            i <= items@.len(),
            shape == element_views(items@),
            texts@.len() == i,
            forall|k: int|
                0 <= k < i ==> (#[trigger] shape[k]) is Some && texts@[k]@ == shape[k]->0,
        decreases items@.len() - i,
    {
        match &items[i] {
            Some(text) => {
                texts.push(text.clone());
                assert(shape[i as int] == Some(text@));
            },
            None => {
                assert(shape[i as int] is None);
                return None;
            },
        }
        i += 1;
    }
    assert(views(texts@) =~= Seq::new(shape.len(), |k: int| shape[k]->0));
    Some(texts)
}

/// The patterns that a text gives: those of the list that it stands for, or
/// itself alone.
pub open spec fn text_patterns(text: Seq<char>, list: Option<Seq<Seq<char>>>) -> Seq<Seq<char>> {
    match list {
        Some(items) => items,
        None => seq![text],
    }
}

/// Takes the patterns that a text gives, given the list that it stands for.
pub fn patterns_from_text(text: String, list: Option<Vec<String>>) -> (patterns: Vec<String>)
    ensures
        views(patterns@) == text_patterns(text@, view_list(list)),
{
    match list {
        Some(items) => items,
        None => {
            let mut patterns: Vec<String> = Vec::new();
            patterns.push(text);
            assert(views(patterns@) =~= seq![text@]);
            patterns
        },
    }
}

/// The text that a text gives: the items of the list that it stands for, with
/// spaces between them, or itself.
pub open spec fn flattened(text: Seq<char>, list: Option<Seq<Seq<char>>>) -> Seq<char> {
    match list {
        Some(items) => joined(items, seq![' ']),
        None => text,
    }
}

/// Joins strings with spaces between them.
fn join_with_spaces(items: &Vec<String>) -> (text: String)
    ensures
        text@ == joined(views(items@), seq![' ']),
{
    join(items, space().as_str())
}

/// Takes the text that a text gives, given the list that it stands for.
pub fn text_from_text(text: String, list: Option<Vec<String>>) -> (out: String)
    ensures
        out@ == flattened(text@, view_list(list)),
{
    match list {
        Some(items) => join_with_spaces(&items),
        None => text,
    }
}

/// The patterns that a value gives.
pub open spec fn patterns_of(value: FieldShape) -> Result<Seq<Seq<char>>, FieldError> {
    match value {
        FieldShape::Text { text, number } => Ok(text_patterns(text, list_in(text))),
        FieldShape::Array(items) => match all_texts(items) {
            Some(texts) => Ok(texts),
            None => Err(FieldError::NotTextElement),
        },
        _ => Err(FieldError::NotPatterns),
    }
}

/// What a list that was read holds.
pub open spec fn view_patterns(out: Result<Vec<String>, FieldError>) -> Result<
    Seq<Seq<char>>,
    FieldError,
> {
    match out {
        Ok(items) => Ok(views(items@)),
        Err(e) => Err(e),
    }
}

/// Reads a list of patterns: from a list of texts, a list written as a text,
/// or one text.
pub fn deserialize_patterns(value: FieldValue) -> (out: Result<Vec<String>, FieldError>)
    ensures
        view_patterns(out) == patterns_of(value@),
        value@ is Text ==> reads_back(value@->text),
        forall|items: Seq<Seq<char>>|
            value@ is Text && value@->text == #[trigger] json_array_of(items) ==> view_patterns(out) == Ok::<Seq<Seq<char>>, FieldError>(items),
{
    match value {
        FieldValue::Text { text, number } => {
            let list = list_in_text(text.as_str());
            Ok(patterns_from_text(text, list))
        },
        FieldValue::Array(items) => match collect_texts(items) {
            Some(texts) => Ok(texts),
            None => Err(FieldError::NotTextElement),
        },
        _ => Err(FieldError::NotPatterns),
    }
}

/// The optional text that a value gives.
pub open spec fn optional_text_of(value: FieldShape) -> Result<Option<Seq<char>>, FieldError> {
    match value {
        FieldShape::Null => Ok(None),
        FieldShape::Text { text, number } => Ok(Some(flattened(text, list_in(text)))),
        FieldShape::Array(items) => match all_texts(items) {
            Some(texts) => Ok(Some(joined(texts, seq![' ']))),
            None => Err(FieldError::NotTextElement),
        },
        _ => Err(FieldError::NotText),
    }
}

/// What an optional text that was read holds.
pub open spec fn view_optional_text(out: Result<Option<String>, FieldError>) -> Result<
    Option<Seq<char>>,
    FieldError,
> {
    match out {
        Ok(Some(text)) => Ok(Some(text@)),
        Ok(None) => Ok(None),
        Err(e) => Err(e),
    }
}

/// Reads an optional text: from a text, from null, or from a list of texts or
/// a list written as a text, whose items are joined with spaces. A list
/// written as a text is read like the list.
pub fn deserialize_optional_string(value: FieldValue) -> (out: Result<Option<String>, FieldError>)
    ensures
        view_optional_text(out) == optional_text_of(value@),
        value@ is Text ==> reads_back(value@->text),
        forall|items: Seq<Seq<char>>|
            value@ is Text && value@->text == #[trigger] json_array_of(items) ==> view_optional_text(out) == Ok::<Option<Seq<char>>, FieldError>(
                Some(joined(items, seq![' '])),
            ),
{
    match value {
        FieldValue::Null => Ok(None),
        FieldValue::Text { text, number } => {
            let list = list_in_text(text.as_str());
            Ok(Some(text_from_text(text, list)))
        },
        FieldValue::Array(items) => match collect_texts(items) {
            Some(texts) => Ok(Some(join_with_spaces(&texts))),
            None => Err(FieldError::NotTextElement),
        },
        _ => Err(FieldError::NotText),
    }
}

/// The text that a value gives for a field that has to be there.
pub open spec fn text_of(value: FieldShape) -> Result<Seq<char>, FieldError> {
    match optional_text_of(value) {
        Ok(Some(text)) => Ok(text),
        Ok(None) => Ok(Seq::empty()),
        Err(e) => Err(e),
    }
}

/// What a text that was read holds.
pub open spec fn view_text(out: Result<String, FieldError>) -> Result<Seq<char>, FieldError> {
    match out {
        Ok(text) => Ok(text@),
        Err(e) => Err(e),
    }
}

/// Reads a text like an optional one; null gives the empty text.
pub fn deserialize_string(value: FieldValue) -> (out: Result<String, FieldError>)
    ensures
        view_text(out) == text_of(value@),
        value@ is Text ==> reads_back(value@->text),
        forall|items: Seq<Seq<char>>|
            value@ is Text && value@->text == #[trigger] json_array_of(items) ==> view_text(out) == Ok::<Seq<char>, FieldError>(joined(items, seq![' '])),
{
    match deserialize_optional_string(value) {
        Ok(Some(text)) => Ok(text),
        Ok(None) => Ok(String::new()),
        Err(e) => Err(e),
    }
}

/// The optional number that a value gives. Lists and objects give none.
pub open spec fn optional_number_of(value: FieldShape) -> Result<Option<Binary64>, FieldError> {
    match value {
        FieldShape::Number(n) => Ok(Some(n)),
        FieldShape::Text { text, number } => Ok(number),
        FieldShape::Bool => Err(FieldError::NotNumber),
        _ => Ok(None),
    }
}

/// Reads an optional number: from a number or from a text that reads as one.
/// Any other text, a list and an object count as no number.
pub fn deserialize_optional_number(value: &FieldValue) -> (out: Result<
    Option<Binary64>,
    FieldError,
>)
    ensures
        out == optional_number_of(value@),
{
    match value {
        FieldValue::Number(n) => Ok(Some(*n)),
        FieldValue::Text { text, number } => Ok(*number),
        FieldValue::Bool => Err(FieldError::NotNumber),
        _ => Ok(None),
    }
}

/// The limit that a value gives.
pub open spec fn limit_of(value: FieldShape) -> Result<Option<Binary64>, FieldError> {
    match value {
        FieldShape::Null => Ok(None),
        FieldShape::Number(n) => Ok(Some(n)),
        _ => Err(FieldError::NotLimit),
    }
}

/// Reads a limit: from a number or from null.
pub fn deserialize_limit(value: &FieldValue) -> (out: Result<Option<Binary64>, FieldError>)
    ensures
        out == limit_of(value@),
{
    match value {
        FieldValue::Null => Ok(None),
        FieldValue::Number(n) => Ok(Some(*n)),
        _ => Err(FieldError::NotLimit),
    }
}

/// A text without quote, backslash and control characters is written in JSON
/// as it is.
pub proof fn plain_text_is_not_escaped(text: Seq<char>)
    requires
        forall|i: int|
            0 <= i < text.len() ==> {
                let c = #[trigger] text[i];
                c != '"' && c != '\\' && c as u32 >= 0x20
            },
    ensures
        escaped(text) == text,
    decreases text.len(),
{
    if text.len() > 0 {
        let init = text.drop_last();
        assert forall|i: int| 0 <= i < init.len() implies ({
            let c = #[trigger] init[i];
            c != '"' && c != '\\' && c as u32 >= 0x20
        }) by {
            assert(text[i] == init[i]);
        }
        plain_text_is_not_escaped(init);
        assert(text[text.len() - 1] == text.last());
        assert(init + seq![text.last()] =~= text);
    }
}

/// A list that is written in JSON as a text, and that stands for the list, is
/// read like the list.
pub proof fn written_list_reads_like_it(items: Seq<Seq<char>>, number: Option<Binary64>)
    requires
        reads_back(json_array_of(items)),
    ensures
        ({
            let written = FieldShape::Text { text: json_array_of(items), number };
            let list = FieldShape::Array(Seq::new(items.len(), |i: int| Some(items[i])));
            &&& patterns_of(written) == patterns_of(list)
            &&& optional_text_of(written) == optional_text_of(list)
            &&& text_of(written) == text_of(list)
        }),
{
    let elements = Seq::new(items.len(), |i: int| Some(items[i]));
    assert(all_texts(elements) == Some(items)) by {
        assert(Seq::new(elements.len(), |i: int| elements[i]->0) =~= items);
    }
}

/// A list of texts is read as its items with spaces between them; a single
/// item reads like the item alone, unless the item stands for a list itself.
pub proof fn list_of_one_reads_like_it(text: Seq<char>, number: Option<Binary64>)
    requires
        list_in(text) is None,
    ensures
        optional_text_of(FieldShape::Array(seq![Some(text)])) == optional_text_of(
            FieldShape::Text { text, number },
        ),
        patterns_of(FieldShape::Array(seq![Some(text)])) == patterns_of(
            FieldShape::Text { text, number },
        ),
{
    let items = seq![Some(text)];
    assert(all_texts(items) == Some(seq![text])) by {
        assert(Seq::new(items.len(), |i: int| items[i]->0) =~= seq![text]);
    }
}

/// A text that does not begin like a list is read as itself: as the one pattern
/// and as the text. One that begins like a list and reads as one is read as its
/// items: as the patterns, and as a text with a space between each two. One
/// that begins like a list and does not read as one is read as itself too.
pub proof fn text_is_read_as_itself_or_list(text: Seq<char>, number: Option<Binary64>)
    ensures
        ({
            let value = FieldShape::Text { text, number };
            let list = if text.len() > 0 && text[0] == '[' {
                json_string_array(text)
            } else {
                None
            };
            &&& list is None ==> {
                &&& patterns_of(value) == Ok::<_, FieldError>(seq![text])
                &&& optional_text_of(value) == Ok::<_, FieldError>(Some(text))
                &&& text_of(value) == Ok::<_, FieldError>(text)
            }
            &&& list matches Some(items) ==> {
                &&& patterns_of(value) == Ok::<_, FieldError>(items)
                &&& optional_text_of(value) == Ok::<_, FieldError>(Some(joined(items, seq![' '])))
                &&& text_of(value) == Ok::<_, FieldError>(joined(items, seq![' ']))
            }
        }),
{
}

/// A list of texts is read as these texts: as the patterns, and as a text with
/// a space between each two. A list with anything else in it is not read.
pub proof fn list_is_read_if_all_are_texts(items: Seq<Option<Seq<char>>>, texts: Seq<Seq<char>>)
    ensures
        ({
            let value = FieldShape::Array(items);
            &&& items.len() == texts.len() && (forall|i: int|
                0 <= i < items.len() ==> #[trigger] items[i] == Some(texts[i])) ==> {
                &&& patterns_of(value) == Ok::<_, FieldError>(texts)
                &&& optional_text_of(value) == Ok::<_, FieldError>(Some(joined(texts, seq![' '])))
                &&& text_of(value) == Ok::<_, FieldError>(joined(texts, seq![' ']))
            }
            &&& (exists|i: int| 0 <= i < items.len() && (#[trigger] items[i]) is None) ==> {
                &&& patterns_of(value) == Err::<Seq<Seq<char>>, _>(FieldError::NotTextElement)
                &&& optional_text_of(value) == Err::<Option<Seq<char>>, _>(
                    FieldError::NotTextElement,
                )
                &&& text_of(value) == Err::<Seq<char>, _>(FieldError::NotTextElement)
            }
        }),
{
    if items.len() == texts.len() && (forall|i: int|
        0 <= i < items.len() ==> #[trigger] items[i] == Some(texts[i])) {
        assert(Seq::new(items.len(), |i: int| items[i]->0) =~= texts);
    }
}

/// Null is no text, which counts as the empty one where a text has to be there,
/// and no patterns at all. Truth values, numbers and objects are never texts.
pub proof fn other_values_are_no_texts(value: FieldShape)
    requires
        !(value is Text),
        !(value is Array),
    ensures
        patterns_of(value) == Err::<Seq<Seq<char>>, _>(FieldError::NotPatterns),
        value is Null ==> optional_text_of(value) == Ok::<Option<Seq<char>>, FieldError>(None),
        value is Null ==> text_of(value) == Ok::<_, FieldError>(Seq::<char>::empty()),
        !(value is Null) ==> optional_text_of(value) == Err::<Option<Seq<char>>, _>(
            FieldError::NotText,
        ),
        !(value is Null) ==> text_of(value) == Err::<Seq<char>, _>(FieldError::NotText),
{
}

/// An optional number is read from a number and from a text that reads as one;
/// null, any other text, lists and objects count as none, and a truth value is
/// not read. A limit is read from a number, null counts as none, and nothing
/// else is read.
pub proof fn numbers_are_read_by_shape(value: FieldShape)
    ensures
        value matches FieldShape::Number(n) ==> {
            &&& optional_number_of(value) == Ok::<_, FieldError>(Some(n))
            &&& limit_of(value) == Ok::<_, FieldError>(Some(n))
        },
        value matches FieldShape::Text { text, number } ==> optional_number_of(value) == Ok::<
            _,
            FieldError,
        >(number),
        value is Null || value is Array || value is Object ==> optional_number_of(value) == Ok::<
            Option<Binary64>,
            FieldError,
        >(None),
        optional_number_of(value) is Err <==> value is Bool,
        value is Bool ==> optional_number_of(value) == Err::<Option<Binary64>, _>(
            FieldError::NotNumber,
        ),
        value is Null ==> limit_of(value) == Ok::<Option<Binary64>, FieldError>(None),
        !(value is Null || value is Number) ==> limit_of(value) == Err::<Option<Binary64>, _>(
            FieldError::NotLimit,
        ),
{
}

/// What a text gives, given the list that it stands for, and what is seen of a
/// value.
pub proof fn contents_are_seen(
    value: FieldValue,
    text: Seq<char>,
    list: Seq<Seq<char>>,
    items: Seq<Option<String>>,
)
    ensures
        text_patterns(text, None) == seq![text],
        text_patterns(text, Some(list)) == list,
        flattened(text, None) == text,
        flattened(text, Some(list)) == joined(list, seq![' ']),
        value is Null <==> value@ is Null,
        value is Bool <==> value@ is Bool,
        value is Object <==> value@ is Object,
        value matches FieldValue::Number(n) ==> value@ == FieldShape::Number(n),
        value matches FieldValue::Text { text: held, number } ==> value@ == (FieldShape::Text {
            text: held@,
            number,
        }),
        value matches FieldValue::Array(held) ==> value@ == FieldShape::Array(
            element_views(held@),
        ),
        element_views(items).len() == items.len(),
        forall|i: int|
            0 <= i < items.len() ==> (items[i] is None <==> (#[trigger] element_views(items)[i])
                is None),
        forall|i: int|
            0 <= i < items.len() && items[i] is Some ==> #[trigger] element_views(items)[i] == Some(
                items[i]->0@,
            ),
{
}

/// Each error says what was expected.
pub proof fn errors_say_what_was_expected()
    ensures
        FieldError::NotPatterns.expectation()
            == "a string, an array of strings, or a stringified JSON array"@,
        FieldError::NotText.expectation()
            == "a string, an array of strings, a stringified JSON array, or null"@,
        FieldError::NotTextElement.expectation() == "a string"@,
        FieldError::NotNumber.expectation() == "a number, a numeric string, or null"@,
        FieldError::NotLimit.expectation() == "f64"@,
{
}

} // verus!

//! The parameters of the three tools, read from the fields of a request.
use crate::fields::{
    FieldError, FieldShape, FieldValue, deserialize_limit, deserialize_optional_number,
    deserialize_optional_string, deserialize_patterns, deserialize_string, limit_of,
    optional_number_of, optional_text_of, patterns_of, reads_back, text_of,
};
use crate::number::Binary64;
use crate::text::{same_text, view_option, views};
use vstd::prelude::*;

verus! {

/// The tools.
#[derive(Clone, Copy, Debug, PartialEq, Eq, Structural)]
pub enum Tool {
    FindFiles,
    Grep,
    MultiGrep,
}

/// The fields of the tools.
#[derive(Clone, Copy, Debug, PartialEq, Eq, Structural)]
pub enum Field {
    Query,
    Patterns,
    MaxResults,
    Cursor,
    OutputMode,
    Constraints,
    Context,
}

impl Field {
    /// The name of a field in a request.
    pub open spec fn title(self) -> Seq<char> {
        match self {
            Field::Query => "query"@,
            Field::Patterns => "patterns"@,
            Field::MaxResults => "maxResults"@,
            Field::Cursor => "cursor"@,
            Field::OutputMode => "output_mode"@,
            Field::Constraints => "constraints"@,
            Field::Context => "context"@,
        }
    }

    /// The name of a field in a request.
    pub fn name(self) -> (name: &'static str)
        ensures
            name@ == self.title(),
    {
        match self {
            Field::Query => "query",
            Field::Patterns => "patterns",
            Field::MaxResults => "maxResults",
            Field::Cursor => "cursor",
            Field::OutputMode => "output_mode",
            Field::Constraints => "constraints",
            Field::Context => "context",
        }
    }
}

/// Why the parameters of a tool cannot be read.
#[derive(Clone, Copy, Debug, PartialEq, Eq, Structural)]
pub enum ParamsError {
    /// A field is given twice.
    Duplicate(Field),
    /// A field that has to be there is not.
    Missing(Field),
    /// The value of a field cannot be read.
    Invalid(Field, FieldError),
}

/// The field of a tool that a key of a request names. The query may also be
/// called a pattern. A key that names no field is passed over.
pub open spec fn field_of(tool: Tool, key: Seq<char>) -> Option<Field> {
    if key == "query"@ || key == "pattern"@ {
        if tool == Tool::MultiGrep {
            None
        } else {
            Some(Field::Query)
        }
    } else if key == "patterns"@ {
        if tool == Tool::MultiGrep {
            Some(Field::Patterns)
        } else {
            None
        }
    } else if key == "maxResults"@ {
        Some(Field::MaxResults)
    } else if key == "cursor"@ {
        Some(Field::Cursor)
    } else if tool == Tool::FindFiles {
        None
    } else if key == "output_mode"@ {
        Some(Field::OutputMode)
    } else if key == "constraints"@ {
        Some(Field::Constraints)
    } else if key == "context"@ {
        Some(Field::Context)
    } else {
        None
    }
}

/// Finds the field of a tool that a key names.
pub fn find_field(tool: Tool, key: &str) -> (field: Option<Field>)
    ensures
        field == field_of(tool, key@),
{
    if same_text(key, "query") || same_text(key, "pattern") {
        if tool == Tool::MultiGrep {
            None
        } else {
            Some(Field::Query)
        }
    } else if same_text(key, "patterns") {
        if tool == Tool::MultiGrep {
            Some(Field::Patterns)
        } else {
            None
        }
    } else if same_text(key, "maxResults") {
        Some(Field::MaxResults)
    } else if same_text(key, "cursor") {
        Some(Field::Cursor)
    } else if tool == Tool::FindFiles {
        None
    } else if same_text(key, "output_mode") {
        Some(Field::OutputMode)
    } else if same_text(key, "constraints") {
        Some(Field::Constraints)
    } else if same_text(key, "context") {
        Some(Field::Context)
    } else {
        None
    }
}

/// The fields of a request that have been read so far, each with its value.
/// `T` is a text, `L` a list of texts.
pub struct Slots<T, L> {
    pub query: Option<T>,
    pub patterns: Option<L>,
    pub max_results: Option<Option<Binary64>>,
    pub cursor: Option<Option<T>>,
    pub output_mode: Option<Option<T>>,
    pub constraints: Option<Option<T>>,
    pub context: Option<Option<Binary64>>,
}

/// The fields that have been read, by what their values hold.
pub type SlotViews = Slots<Seq<char>, Seq<Seq<char>>>;

/// What an optional text in a slot holds.
pub open spec fn view_slot(slot: Option<Option<String>>) -> Option<Option<Seq<char>>> {
    match slot {
        Some(text) => Some(view_option(text)),
        None => None,
    }
}

impl View for Slots<String, Vec<String>> {
    type V = SlotViews;

    open spec fn view(&self) -> SlotViews {
        Slots {
            query: view_option(self.query),
            patterns: match self.patterns {
                Some(items) => Some(views(items@)),
                None => None,
            },
            max_results: self.max_results,
            cursor: view_slot(self.cursor),
            output_mode: view_slot(self.output_mode),
            constraints: view_slot(self.constraints),
            context: self.context,
        }
    }
}

/// No field has been read.
pub open spec fn no_slots() -> SlotViews {
    Slots {
        query: None,
        patterns: None,
        max_results: None,
        cursor: None,
        output_mode: None,
        constraints: None,
        context: None,
    }
}

/// Whether a field has been read.
pub open spec fn is_read(slots: SlotViews, field: Field) -> bool {
    match field {
        Field::Query => slots.query is Some,
        Field::Patterns => slots.patterns is Some,
        Field::MaxResults => slots.max_results is Some,
        Field::Cursor => slots.cursor is Some,
        Field::OutputMode => slots.output_mode is Some,
        Field::Constraints => slots.constraints is Some,
        Field::Context => slots.context is Some,
    }
}

/// The slots with one more field read. A field that was read before is a
/// duplicate, whatever its value.
pub open spec fn with_field(slots: SlotViews, field: Field, value: FieldShape) -> Result<
    SlotViews,
    ParamsError,
> {
    if is_read(slots, field) {
        Err(ParamsError::Duplicate(field))
    } else {
        match field {
            Field::Query => match text_of(value) {
                Ok(text) => Ok(Slots { query: Some(text), ..slots }),
                Err(e) => Err(ParamsError::Invalid(field, e)),
            },
            Field::Patterns => match patterns_of(value) {
                Ok(items) => Ok(Slots { patterns: Some(items), ..slots }),
                Err(e) => Err(ParamsError::Invalid(field, e)),
            },
            Field::MaxResults => match limit_of(value) {
                Ok(number) => Ok(Slots { max_results: Some(number), ..slots }),
                Err(e) => Err(ParamsError::Invalid(field, e)),
            },
            Field::Cursor => match optional_text_of(value) {
                Ok(text) => Ok(Slots { cursor: Some(text), ..slots }),
                Err(e) => Err(ParamsError::Invalid(field, e)),
            },
            Field::OutputMode => match optional_text_of(value) {
                Ok(text) => Ok(Slots { output_mode: Some(text), ..slots }),
                Err(e) => Err(ParamsError::Invalid(field, e)),
            },
            Field::Constraints => match optional_text_of(value) {
                Ok(text) => Ok(Slots { constraints: Some(text), ..slots }),
                Err(e) => Err(ParamsError::Invalid(field, e)),
            },
            Field::Context => match optional_number_of(value) {
                Ok(number) => Ok(Slots { context: Some(number), ..slots }),
                Err(e) => Err(ParamsError::Invalid(field, e)),
            },
        }
    }
}

/// The slots after the fields of a request, which are read in order up to the
/// first error.
pub open spec fn slots_of(tool: Tool, fields: Seq<(Seq<char>, FieldShape)>) -> Result<
    SlotViews,
    ParamsError,
>
    decreases fields.len(),
{
    if fields.len() == 0 {
        Ok(no_slots())
    } else {
        match slots_of(tool, fields.drop_last()) {
            Ok(slots) => match field_of(tool, fields.last().0) {
                Some(field) => with_field(slots, field, fields.last().1),
                None => Ok(slots),
            },
            Err(e) => Err(e),
        }
    }
}

/// What the fields of a request hold.
pub open spec fn field_views(fields: Seq<(String, FieldValue)>) -> Seq<(Seq<char>, FieldShape)> {
    Seq::new(fields.len(), |i: int| (fields[i].0@, fields[i].1@))
}

/// Whether a field holds a text or texts.
pub open spec fn holds_text(field: Field) -> bool {
    match field {
        Field::MaxResults => false,
        Field::Context => false,
        _ => true,
    }
}

/// Whether every field of a request that is read for its text and given as a
/// list written in JSON stands for that list.
pub open spec fn lists_read_back(tool: Tool, fields: Seq<(Seq<char>, FieldShape)>) -> bool {
    forall|i: int|
        0 <= i < fields.len() && (#[trigger] fields[i]).1 is Text && (field_of(
            tool,
            fields[i].0,
        ) matches Some(field) && holds_text(field)) ==> reads_back(fields[i].1->text)
}

/// What slots that were read hold.
pub open spec fn view_slots(
    out: Result<Slots<String, Vec<String>>, ParamsError>,
) -> Result<SlotViews, ParamsError> {
    match out {
        Ok(slots) => Ok(slots@),
        Err(e) => Err(e),
    }
}

/// Reads one more field.
fn read_field(
    slots: Slots<String, Vec<String>>,
    field: Field,
    value: FieldValue,
) -> (out: Result<Slots<String, Vec<String>>, ParamsError>)
    ensures
        view_slots(out) == with_field(slots@, field, value@),
        out is Ok && holds_text(field) && value@ is Text ==> reads_back(value@->text),
{
    let mut slots = slots;
    match field {
        Field::Query => {
            if slots.query.is_some() {
                return Err(ParamsError::Duplicate(field));
            }
            match deserialize_string(value) {
                Ok(text) => slots.query = Some(text),
                Err(e) => return Err(ParamsError::Invalid(field, e)),
            }
        },
        Field::Patterns => {
            if slots.patterns.is_some() {
                return Err(ParamsError::Duplicate(field));
            }
            match deserialize_patterns(value) {
                Ok(items) => slots.patterns = Some(items),
                Err(e) => return Err(ParamsError::Invalid(field, e)),
            }
        },
        Field::MaxResults => {
            if slots.max_results.is_some() {
                return Err(ParamsError::Duplicate(field));
            }
            match deserialize_limit(&value) {
                Ok(number) => slots.max_results = Some(number),
                Err(e) => return Err(ParamsError::Invalid(field, e)),
            }
        },
        Field::Cursor => {
            if slots.cursor.is_some() {
                return Err(ParamsError::Duplicate(field));
            }
            match deserialize_optional_string(value) {
                Ok(text) => slots.cursor = Some(text),
                Err(e) => return Err(ParamsError::Invalid(field, e)),
            }
        },
        Field::OutputMode => {
            if slots.output_mode.is_some() {
                return Err(ParamsError::Duplicate(field));
            }
            match deserialize_optional_string(value) {
                Ok(text) => slots.output_mode = Some(text),
                Err(e) => return Err(ParamsError::Invalid(field, e)),
            }
        },
        Field::Constraints => {
            if slots.constraints.is_some() {
                return Err(ParamsError::Duplicate(field));
            }
            match deserialize_optional_string(value) {
                Ok(text) => slots.constraints = Some(text),
                Err(e) => return Err(ParamsError::Invalid(field, e)),
            }
        },
        Field::Context => {
            if slots.context.is_some() {
                return Err(ParamsError::Duplicate(field));
            }
            match deserialize_optional_number(&value) {
                Ok(number) => slots.context = Some(number),
                Err(e) => return Err(ParamsError::Invalid(field, e)),
            }
        },
    }
    Ok(slots)
}

/// Reads the fields of a request in order, up to the first error.
fn read_fields(tool: Tool, fields: Vec<(String, FieldValue)>) -> (out: Result<
    Slots<String, Vec<String>>,
    ParamsError,
>)
    ensures
        view_slots(out) == slots_of(tool, field_views(fields@)),
        out is Ok ==> lists_read_back(tool, field_views(fields@)),
{
    let ghost all = field_views(fields@);
    let mut slots: Slots<String, Vec<String>> = Slots {
        query: None,
        patterns: None,
        max_results: None,
        cursor: None,
        output_mode: None,
        constraints: None,
        context: None,
    };
    assert(all.take(0) == Seq::<(Seq<char>, FieldShape)>::empty());
    for entry in it: fields
        invariant
            it.seq() == fields@,
            all == field_views(fields@),
            slots_of(tool, all.take(it.index())) == Ok::<SlotViews, ParamsError>(slots@),
            lists_read_back(tool, all.take(it.index())),
    {
        let ghost more = all.take(it.index() + 1);
        proof {
            assert(more.drop_last() == all.take(it.index()));
            assert(more.last() == all[it.index()]);
        }
        let (key, value) = entry;
        if let Some(field) = find_field(tool, key.as_str()) {
            match read_field(slots, field, value) {
                Ok(next) => {
                    slots = next;
                },
                Err(e) => {
                    proof {
                        error_is_final(tool, all, it.index() + 1);
                    }
                    return Err(e);
                },
            }
        }
    }
    assert(all.take(all.len() as int) == all);
    Ok(slots)
}

/// What follows the first error of a request does not change it.
pub proof fn error_is_final(tool: Tool, fields: Seq<(Seq<char>, FieldShape)>, n: int)
    requires
        0 <= n <= fields.len(),
        slots_of(tool, fields.take(n)) is Err,
    ensures
        slots_of(tool, fields) == slots_of(tool, fields.take(n)),
    decreases fields.len(),
{
    if n < fields.len() {
        assert(fields.drop_last().take(n) == fields.take(n));
        error_is_final(tool, fields.drop_last(), n);
    } else {
        assert(fields.take(n) == fields);
    }
}

/// The parameters of the file search.
#[derive(Debug)]
pub struct FindFilesParams<T = String> {
    /// What is searched for, with path prefixes and glob constraints.
    pub query: T,
    /// The most results that are wanted.
    pub max_results: Option<Binary64>,
    /// Where a previous result ended.
    pub cursor: Option<T>,
}

/// The parameters of the content search.
#[derive(Debug)]
pub struct GrepParams<T = String> {
    /// What is searched for, with constraints in front of it.
    pub query: T,
    /// The most matching lines that are wanted.
    pub max_results: Option<Binary64>,
    /// Where a previous result ended.
    pub cursor: Option<T>,
    /// How matches are shown.
    pub output_mode: Option<T>,
    /// Which files are searched.
    pub constraints: Option<T>,
    /// How many lines are shown around a match.
    pub context: Option<Binary64>,
}

/// The parameters of the content search for any of several patterns.
#[derive(Debug)]
pub struct MultiGrepParams<T = String, L = Vec<String>> {
    /// What is searched for.
    pub patterns: L,
    /// Which files are searched.
    pub constraints: Option<T>,
    /// The most matching lines that are wanted.
    pub max_results: Option<Binary64>,
    /// Where a previous result ended.
    pub cursor: Option<T>,
    /// How matches are shown.
    pub output_mode: Option<T>,
    /// How many lines are shown around a match.
    pub context: Option<Binary64>,
}

impl View for FindFilesParams<String> {
    type V = FindFilesParams<Seq<char>>;

    open spec fn view(&self) -> FindFilesParams<Seq<char>> {
        FindFilesParams {
            query: self.query@,
            max_results: self.max_results,
            cursor: view_option(self.cursor),
        }
    }
}

impl View for GrepParams<String> {
    type V = GrepParams<Seq<char>>;

    open spec fn view(&self) -> GrepParams<Seq<char>> {
        GrepParams {
            query: self.query@,
            max_results: self.max_results,
            cursor: view_option(self.cursor),
            output_mode: view_option(self.output_mode),
            constraints: view_option(self.constraints),
            context: self.context,
        }
    }
}

impl View for MultiGrepParams<String, Vec<String>> {
    type V = MultiGrepParams<Seq<char>, Seq<Seq<char>>>;

    open spec fn view(&self) -> MultiGrepParams<Seq<char>, Seq<Seq<char>>> {
        MultiGrepParams {
            patterns: views(self.patterns@),
            constraints: view_option(self.constraints),
            max_results: self.max_results,
            cursor: view_option(self.cursor),
            output_mode: view_option(self.output_mode),
            context: self.context,
        }
    }
}

/// The value of a field that need not be there.
pub open spec fn given<A>(slot: Option<Option<A>>) -> Option<A> {
    match slot {
        Some(value) => value,
        None => None,
    }
}

/// Takes the value of a field that need not be there.
fn take_given<A>(slot: Option<Option<A>>) -> (value: Option<A>)
    ensures
        value == given(slot),
{
    match slot {
        Some(value) => value,
        None => None,
    }
}

/// The query of a request; one that gives none searches for the empty text.
pub open spec fn query_or_empty(slot: Option<Seq<char>>) -> Seq<char> {
    match slot {
        Some(query) => query,
        None => Seq::empty(),
    }
}

/// Takes the query of a request.
fn take_query(slot: Option<String>) -> (query: String)
    ensures
        query@ == query_or_empty(view_option(slot)),
{
    match slot {
        Some(query) => query,
        None => String::new(),
    }
}

/// The parameters of the file search that a request gives. A query that is
/// not there is the empty text.
pub open spec fn find_files_params(fields: Seq<(Seq<char>, FieldShape)>) -> Result<
    FindFilesParams<Seq<char>>,
    ParamsError,
> {
    match slots_of(Tool::FindFiles, fields) {
        Ok(slots) => Ok(
            FindFilesParams {
                query: query_or_empty(slots.query),
                max_results: given(slots.max_results),
                cursor: given(slots.cursor),
            },
        ),
        Err(e) => Err(e),
    }
}

/// The parameters of the content search that a request gives. A query that is
/// not there is the empty text.
pub open spec fn grep_params(fields: Seq<(Seq<char>, FieldShape)>) -> Result<
    GrepParams<Seq<char>>,
    ParamsError,
> {
    match slots_of(Tool::Grep, fields) {
        Ok(slots) => Ok(
            GrepParams {
                query: query_or_empty(slots.query),
                max_results: given(slots.max_results),
                cursor: given(slots.cursor),
                output_mode: given(slots.output_mode),
                constraints: given(slots.constraints),
                context: given(slots.context),
            },
        ),
        Err(e) => Err(e),
    }
}

/// The parameters of the search for any of several patterns that a request
/// gives.
pub open spec fn multi_grep_params(fields: Seq<(Seq<char>, FieldShape)>) -> Result<
    MultiGrepParams<Seq<char>, Seq<Seq<char>>>,
    ParamsError,
> {
    match slots_of(Tool::MultiGrep, fields) {
        Ok(slots) => match slots.patterns {
            Some(patterns) => Ok(
                MultiGrepParams {
                    patterns,
                    constraints: given(slots.constraints),
                    max_results: given(slots.max_results),
                    cursor: given(slots.cursor),
                    output_mode: given(slots.output_mode),
                    context: given(slots.context),
                },
            ),
            None => Err(ParamsError::Missing(Field::Patterns)),
        },
        Err(e) => Err(e),
    }
}

impl FindFilesParams<String> {
    /// Reads the parameters of the file search from the fields of a request.
    pub fn from_fields(fields: Vec<(String, FieldValue)>) -> (out: Result<
        FindFilesParams,
        ParamsError,
    >)
        ensures
            (match out {
                Ok(params) => Ok(params@),
                Err(e) => Err(e),
            }) == find_files_params(field_views(fields@)),
            out is Ok ==> lists_read_back(Tool::FindFiles, field_views(fields@)),
    {
        match read_fields(Tool::FindFiles, fields) {
            Ok(slots) => Ok(
                FindFilesParams {
                    query: take_query(slots.query),
                    max_results: take_given(slots.max_results),
                    cursor: take_given(slots.cursor),
                },
            ),
            Err(e) => Err(e),
        }
    }
}

impl GrepParams<String> {
    /// Reads the parameters of the content search from the fields of a
    /// request.
    pub fn from_fields(fields: Vec<(String, FieldValue)>) -> (out: Result<GrepParams, ParamsError>)
        ensures
            (match out {
                Ok(params) => Ok(params@),
                Err(e) => Err(e),
            }) == grep_params(field_views(fields@)),
            out is Ok ==> lists_read_back(Tool::Grep, field_views(fields@)),
    {
        match read_fields(Tool::Grep, fields) {
            Ok(slots) => Ok(
                GrepParams {
                    query: take_query(slots.query),
                    max_results: take_given(slots.max_results),
                    cursor: take_given(slots.cursor),
                    output_mode: take_given(slots.output_mode),
                    constraints: take_given(slots.constraints),
                    context: take_given(slots.context),
                },
            ),
            Err(e) => Err(e),
        }
    }
}

impl MultiGrepParams<String, Vec<String>> {
    /// Reads the parameters of the search for any of several patterns from the
    /// fields of a request.
    pub fn from_fields(fields: Vec<(String, FieldValue)>) -> (out: Result<
        MultiGrepParams,
        ParamsError,
    >)
        ensures
            (match out {
                Ok(params) => Ok(params@),
                Err(e) => Err(e),
            }) == multi_grep_params(field_views(fields@)),
            out is Ok ==> lists_read_back(Tool::MultiGrep, field_views(fields@)),
    {
        match read_fields(Tool::MultiGrep, fields) {
            Ok(slots) => match slots.patterns {
                Some(patterns) => Ok(
                    MultiGrepParams {
                        patterns,
                        constraints: take_given(slots.constraints),
                        max_results: take_given(slots.max_results),
                        cursor: take_given(slots.cursor),
                        output_mode: take_given(slots.output_mode),
                        context: take_given(slots.context),
                    },
                ),
                None => Err(ParamsError::Missing(Field::Patterns)),
            },
            Err(e) => Err(e),
        }
    }
}

/// A query that is null and one that is not there come to the same: behind
/// fields that give no query, a null query changes none of the parameters.
pub proof fn missing_query_is_null(fields: Seq<(Seq<char>, FieldShape)>)
    requires
        slots_of(Tool::FindFiles, fields) matches Ok(slots) ==> slots.query is None,
        slots_of(Tool::Grep, fields) matches Ok(slots) ==> slots.query is None,
    ensures
        find_files_params(fields.push(("query"@, FieldShape::Null))) == find_files_params(fields),
        grep_params(fields.push(("query"@, FieldShape::Null))) == grep_params(fields),
{
    let more = fields.push(("query"@, FieldShape::Null));
    assert(more.drop_last() == fields);
    assert(more.last() == ("query"@, FieldShape::Null));
}

/// Whether two keys are the same or the two names of the query.
pub open spec fn same_key(a: Seq<char>, b: Seq<char>) -> bool {
    a == b || ((a == "query"@ || a == "pattern"@) && (b == "query"@ || b == "pattern"@))
}

/// It makes no difference whether a request calls its query `query` or
/// `pattern`.
pub proof fn pattern_is_query(
    tool: Tool,
    a: Seq<(Seq<char>, FieldShape)>,
    b: Seq<(Seq<char>, FieldShape)>,
)
    requires
        a.len() == b.len(),
        forall|i: int|
            0 <= i < a.len() ==> same_key((#[trigger] a[i]).0, b[i].0) && a[i].1 == b[i].1,
    ensures
        slots_of(tool, a) == slots_of(tool, b),
    decreases a.len(),
{
    if a.len() > 0 {
        let p = a.drop_last();
        let q = b.drop_last();
        assert forall|i: int| 0 <= i < p.len() implies same_key((#[trigger] p[i]).0, q[i].0)
            && p[i].1 == q[i].1 by {
            assert(same_key(a[i].0, b[i].0));
        }
        pattern_is_query(tool, p, q);
        assert(same_key(a[a.len() - 1].0, b[a.len() - 1].0));
    }
}

/// A field that a tool does not know makes no difference, wherever it stands.
pub proof fn unknown_field_is_ignored(
    tool: Tool,
    before: Seq<(Seq<char>, FieldShape)>,
    unknown: (Seq<char>, FieldShape),
    after: Seq<(Seq<char>, FieldShape)>,
)
    requires
        field_of(tool, unknown.0) is None,
    ensures
        slots_of(tool, before.push(unknown) + after) == slots_of(tool, before + after),
    decreases after.len(),
{
    let with = before.push(unknown) + after;
    let without = before + after;
    if after.len() == 0 {
        assert(with == before.push(unknown));
        assert(with.drop_last() == before);
        assert(without == before);
    } else {
        unknown_field_is_ignored(tool, before, unknown, after.drop_last());
        assert(with.drop_last() == before.push(unknown) + after.drop_last());
        assert(without.drop_last() == before + after.drop_last());
        assert(with.last() == after.last());
        assert(without.last() == after.last());
    }
}

/// The names of the fields: each tool knows its own, the query also as a
/// pattern.
pub proof fn keys_name_fields(tool: Tool)
    ensures
        !(tool is MultiGrep) ==> {
            &&& field_of(tool, "query"@) == Some(Field::Query)
            &&& field_of(tool, "pattern"@) == Some(Field::Query)
            &&& field_of(tool, "patterns"@) is None
        },
        tool is MultiGrep ==> {
            &&& field_of(tool, "query"@) is None
            &&& field_of(tool, "pattern"@) is None
            &&& field_of(tool, "patterns"@) == Some(Field::Patterns)
        },
        field_of(tool, "maxResults"@) == Some(Field::MaxResults),
        field_of(tool, "cursor"@) == Some(Field::Cursor),
        tool is FindFiles ==> {
            &&& field_of(tool, "output_mode"@) is None
            &&& field_of(tool, "constraints"@) is None
            &&& field_of(tool, "context"@) is None
        },
        !(tool is FindFiles) ==> {
            &&& field_of(tool, "output_mode"@) == Some(Field::OutputMode)
            &&& field_of(tool, "constraints"@) == Some(Field::Constraints)
            &&& field_of(tool, "context"@) == Some(Field::Context)
        },
{
    reveal_strlit("query");
    reveal_strlit("pattern");
    reveal_strlit("patterns");
    reveal_strlit("maxResults");
    reveal_strlit("cursor");
    reveal_strlit("output_mode");
    reveal_strlit("constraints");
    reveal_strlit("context");
    assert("query"@.len() == 5 && "cursor"@.len() == 6 && "patterns"@.len() == 8);
    assert("maxResults"@.len() == 10);
    assert("pattern"@.len() == 7 && "context"@.len() == 7);
    assert("output_mode"@.len() == 11 && "constraints"@.len() == 11);
    assert("pattern"@[0] == 'p' && "context"@[0] == 'c');
    assert("output_mode"@[0] == 'o' && "constraints"@[0] == 'c');
}

/// A key that names a field is one of its names.
pub proof fn fields_have_no_other_names(tool: Tool, key: Seq<char>)
    ensures
        field_of(tool, key) matches Some(field) ==> (match field {
            Field::Query => key == "query"@ || key == "pattern"@,
            Field::Patterns => key == "patterns"@,
            Field::MaxResults => key == "maxResults"@,
            Field::Cursor => key == "cursor"@,
            Field::OutputMode => key == "output_mode"@,
            Field::Constraints => key == "constraints"@,
            Field::Context => key == "context"@,
        }),
{
}

/// Whether a field has been read from a value.
pub open spec fn holds(slots: SlotViews, field: Field, value: FieldShape) -> bool {
    match field {
        Field::Query => slots.query is Some && text_of(value) == Ok::<_, FieldError>(
            slots.query->0,
        ),
        Field::Patterns => slots.patterns is Some && patterns_of(value) == Ok::<_, FieldError>(
            slots.patterns->0,
        ),
        Field::MaxResults => slots.max_results is Some && limit_of(value) == Ok::<_, FieldError>(
            slots.max_results->0,
        ),
        Field::Cursor => slots.cursor is Some && optional_text_of(value) == Ok::<_, FieldError>(
            slots.cursor->0,
        ),
        Field::OutputMode => slots.output_mode is Some && optional_text_of(value) == Ok::<
            _,
            FieldError,
        >(slots.output_mode->0),
        Field::Constraints => slots.constraints is Some && optional_text_of(value) == Ok::<
            _,
            FieldError,
        >(slots.constraints->0),
        Field::Context => slots.context is Some && optional_number_of(value) == Ok::<
            _,
            FieldError,
        >(slots.context->0),
    }
}

/// Whether a request gives a field.
pub open spec fn gives(tool: Tool, fields: Seq<(Seq<char>, FieldShape)>, field: Field) -> bool {
    exists|i: int| 0 <= i < fields.len() && field_of(tool, (#[trigger] fields[i]).0) == Some(field)
}

/// A field is read if and only if the request gives it.
proof fn read_if_given(tool: Tool, fields: Seq<(Seq<char>, FieldShape)>, field: Field)
    requires
        slots_of(tool, fields) is Ok,
    ensures
        is_read(slots_of(tool, fields)->Ok_0, field) <==> gives(tool, fields, field),
    decreases fields.len(),
{
    if fields.len() > 0 {
        let init = fields.drop_last();
        read_if_given(tool, init, field);
        if gives(tool, init, field) {
            let i = choose|i: int|
                0 <= i < init.len() && field_of(tool, (#[trigger] init[i]).0) == Some(field);
            assert(fields[i] == init[i]);
        }
        if gives(tool, fields, field) {
            let i = choose|i: int|
                0 <= i < fields.len() && field_of(tool, (#[trigger] fields[i]).0) == Some(field);
            if i < init.len() {
                assert(init[i] == fields[i]);
            }
        }
        assert(fields[fields.len() - 1] == fields.last());
    }
}

/// Each field that a request gives is read from the value that it is given.
proof fn read_from_value(tool: Tool, fields: Seq<(Seq<char>, FieldShape)>, i: int)
    requires
        slots_of(tool, fields) is Ok,
        0 <= i < fields.len(),
        field_of(tool, fields[i].0) is Some,
    ensures
        holds(slots_of(tool, fields)->Ok_0, field_of(tool, fields[i].0)->0, fields[i].1),
    decreases fields.len(),
{
    let init = fields.drop_last();
    if i < init.len() {
        assert(init[i] == fields[i]);
        read_from_value(tool, init, i);
    }
}

/// The parameters of a file search hold what the values of its fields read as,
/// under whichever name the query is given. A query that is not given is empty;
/// a limit or a cursor that is not given is none.
pub proof fn find_files_params_hold_values(
    fields: Seq<(Seq<char>, FieldShape)>,
    params: FindFilesParams<Seq<char>>,
)
    requires
        find_files_params(fields) == Ok::<_, ParamsError>(params),
    ensures
        forall|i: int|
            #![trigger fields[i]]
            0 <= i < fields.len() ==> {
                let (key, value) = fields[i];
                &&& key == "query"@ || key == "pattern"@ ==> text_of(value) == Ok::<_, FieldError>(
                    params.query,
                )
                &&& key == "maxResults"@ ==> limit_of(value) == Ok::<_, FieldError>(
                    params.max_results,
                )
                &&& key == "cursor"@ ==> optional_text_of(value) == Ok::<_, FieldError>(
                    params.cursor,
                )
            },
        !gives(Tool::FindFiles, fields, Field::Query) ==> params.query == Seq::<char>::empty(),
        !gives(Tool::FindFiles, fields, Field::MaxResults) ==> params.max_results is None,
        !gives(Tool::FindFiles, fields, Field::Cursor) ==> params.cursor is None,
{
    let tool = Tool::FindFiles;
    keys_name_fields(tool);
    assert forall|i: int| #![trigger fields[i]] 0 <= i < fields.len() implies {
        let (key, value) = fields[i];
        &&& key == "query"@ || key == "pattern"@ ==> text_of(value) == Ok::<_, FieldError>(
            params.query,
        )
        &&& key == "maxResults"@ ==> limit_of(value) == Ok::<_, FieldError>(params.max_results)
        &&& key == "cursor"@ ==> optional_text_of(value) == Ok::<_, FieldError>(params.cursor)
    } by {
        if field_of(tool, fields[i].0) is Some {
            read_from_value(tool, fields, i);
        }
    }
    read_if_given(tool, fields, Field::Query);
    read_if_given(tool, fields, Field::MaxResults);
    read_if_given(tool, fields, Field::Cursor);
}

/// The parameters of a content search hold what the values of its fields read
/// as, under whichever name the query is given. A query that is not given is
/// empty; any other field that is not given is none.
pub proof fn grep_params_hold_values(
    fields: Seq<(Seq<char>, FieldShape)>,
    params: GrepParams<Seq<char>>,
)
    requires
        grep_params(fields) == Ok::<_, ParamsError>(params),
    ensures
        forall|i: int|
            #![trigger fields[i]]
            0 <= i < fields.len() ==> {
                let (key, value) = fields[i];
                &&& key == "query"@ || key == "pattern"@ ==> text_of(value) == Ok::<_, FieldError>(
                    params.query,
                )
                &&& key == "maxResults"@ ==> limit_of(value) == Ok::<_, FieldError>(
                    params.max_results,
                )
                &&& key == "cursor"@ ==> optional_text_of(value) == Ok::<_, FieldError>(
                    params.cursor,
                )
                &&& key == "output_mode"@ ==> optional_text_of(value) == Ok::<_, FieldError>(
                    params.output_mode,
                )
                &&& key == "constraints"@ ==> optional_text_of(value) == Ok::<_, FieldError>(
                    params.constraints,
                )
                &&& key == "context"@ ==> optional_number_of(value) == Ok::<_, FieldError>(
                    params.context,
                )
            },
        !gives(Tool::Grep, fields, Field::Query) ==> params.query == Seq::<char>::empty(),
        !gives(Tool::Grep, fields, Field::MaxResults) ==> params.max_results is None,
        !gives(Tool::Grep, fields, Field::Cursor) ==> params.cursor is None,
        !gives(Tool::Grep, fields, Field::OutputMode) ==> params.output_mode is None,
        !gives(Tool::Grep, fields, Field::Constraints) ==> params.constraints is None,
        !gives(Tool::Grep, fields, Field::Context) ==> params.context is None,
{
    let tool = Tool::Grep;
    keys_name_fields(tool);
    assert forall|i: int| #![trigger fields[i]] 0 <= i < fields.len() implies {
        let (key, value) = fields[i];
        &&& key == "query"@ || key == "pattern"@ ==> text_of(value) == Ok::<_, FieldError>(
            params.query,
        )
        &&& key == "maxResults"@ ==> limit_of(value) == Ok::<_, FieldError>(params.max_results)
        &&& key == "cursor"@ ==> optional_text_of(value) == Ok::<_, FieldError>(params.cursor)
        &&& key == "output_mode"@ ==> optional_text_of(value) == Ok::<_, FieldError>(
            params.output_mode,
        )
        &&& key == "constraints"@ ==> optional_text_of(value) == Ok::<_, FieldError>(
            params.constraints,
        )
        &&& key == "context"@ ==> optional_number_of(value) == Ok::<_, FieldError>(params.context)
    } by {
        if field_of(tool, fields[i].0) is Some {
            read_from_value(tool, fields, i);
        }
    }
    read_if_given(tool, fields, Field::Query);
    read_if_given(tool, fields, Field::MaxResults);
    read_if_given(tool, fields, Field::Cursor);
    read_if_given(tool, fields, Field::OutputMode);
    read_if_given(tool, fields, Field::Constraints);
    read_if_given(tool, fields, Field::Context);
}

/// The parameters of a search for any of several patterns hold what the values
/// of its fields read as. The patterns are given; any other field that is not
/// given is none.
pub proof fn multi_grep_params_hold_values(
    fields: Seq<(Seq<char>, FieldShape)>,
    params: MultiGrepParams<Seq<char>, Seq<Seq<char>>>,
)
    requires
        multi_grep_params(fields) == Ok::<_, ParamsError>(params),
    ensures
        gives(Tool::MultiGrep, fields, Field::Patterns),
        forall|i: int|
            #![trigger fields[i]]
            0 <= i < fields.len() ==> {
                let (key, value) = fields[i];
                &&& key == "patterns"@ ==> patterns_of(value) == Ok::<_, FieldError>(
                    params.patterns,
                )
                &&& key == "maxResults"@ ==> limit_of(value) == Ok::<_, FieldError>(
                    params.max_results,
                )
                &&& key == "cursor"@ ==> optional_text_of(value) == Ok::<_, FieldError>(
                    params.cursor,
                )
                &&& key == "output_mode"@ ==> optional_text_of(value) == Ok::<_, FieldError>(
                    params.output_mode,
                )
                &&& key == "constraints"@ ==> optional_text_of(value) == Ok::<_, FieldError>(
                    params.constraints,
                )
                &&& key == "context"@ ==> optional_number_of(value) == Ok::<_, FieldError>(
                    params.context,
                )
            },
        !gives(Tool::MultiGrep, fields, Field::MaxResults) ==> params.max_results is None,
        !gives(Tool::MultiGrep, fields, Field::Cursor) ==> params.cursor is None,
        !gives(Tool::MultiGrep, fields, Field::OutputMode) ==> params.output_mode is None,
        !gives(Tool::MultiGrep, fields, Field::Constraints) ==> params.constraints is None,
        !gives(Tool::MultiGrep, fields, Field::Context) ==> params.context is None,
{
    let tool = Tool::MultiGrep;
    keys_name_fields(tool);
    assert forall|i: int| #![trigger fields[i]] 0 <= i < fields.len() implies {
        let (key, value) = fields[i];
        &&& key == "patterns"@ ==> patterns_of(value) == Ok::<_, FieldError>(params.patterns)
        &&& key == "maxResults"@ ==> limit_of(value) == Ok::<_, FieldError>(params.max_results)
        &&& key == "cursor"@ ==> optional_text_of(value) == Ok::<_, FieldError>(params.cursor)
        &&& key == "output_mode"@ ==> optional_text_of(value) == Ok::<_, FieldError>(
            params.output_mode,
        )
        &&& key == "constraints"@ ==> optional_text_of(value) == Ok::<_, FieldError>(
            params.constraints,
        )
        &&& key == "context"@ ==> optional_number_of(value) == Ok::<_, FieldError>(params.context)
    } by {
        if field_of(tool, fields[i].0) is Some {
            read_from_value(tool, fields, i);
        }
    }
    read_if_given(tool, fields, Field::Patterns);
    read_if_given(tool, fields, Field::MaxResults);
    read_if_given(tool, fields, Field::Cursor);
    read_if_given(tool, fields, Field::OutputMode);
    read_if_given(tool, fields, Field::Constraints);
    read_if_given(tool, fields, Field::Context);
}

/// Why a value cannot be read for a field, if it cannot.
pub open spec fn fault(field: Field, value: FieldShape) -> Option<FieldError> {
    match field {
        Field::Patterns => match patterns_of(value) {
            Ok(items) => None,
            Err(e) => Some(e),
        },
        Field::MaxResults => match limit_of(value) {
            Ok(number) => None,
            Err(e) => Some(e),
        },
        Field::Context => match optional_number_of(value) {
            Ok(number) => None,
            Err(e) => Some(e),
        },
        _ => match optional_text_of(value) {
            Ok(text) => None,
            Err(e) => Some(e),
        },
    }
}

/// Whether a request gives no field twice and every field that the tool knows a
/// value that can be read.
pub open spec fn is_readable(tool: Tool, fields: Seq<(Seq<char>, FieldShape)>) -> bool {
    &&& forall|i: int|
        0 <= i < fields.len() ==> (field_of(tool, (#[trigger] fields[i]).0) matches Some(field)
            ==> fault(field, fields[i].1) is None)
    &&& forall|i: int, j: int|
        0 <= i < j < fields.len() && field_of(tool, (#[trigger] fields[i]).0) is Some ==> field_of(
            tool,
            fields[i].0,
        ) != field_of(tool, (#[trigger] fields[j]).0)
}

/// The fields of a request are read if and only if none comes twice and each
/// value can be read.
proof fn fields_are_read_if_readable(tool: Tool, fields: Seq<(Seq<char>, FieldShape)>)
    ensures
        slots_of(tool, fields) is Ok <==> is_readable(tool, fields),
    decreases fields.len(),
{
    if fields.len() > 0 {
        let init = fields.drop_last();
        let n = fields.len() - 1;
        fields_are_read_if_readable(tool, init);
        assert(forall|i: int| 0 <= i < init.len() ==> init[i] == fields[i]);
        assert(fields.last() == fields[n]);
        if is_readable(tool, fields) {
            assert forall|i: int, j: int|
                0 <= i < j < init.len() && field_of(tool, (#[trigger] init[i]).0) is Some implies
                field_of(tool, init[i].0) != field_of(tool, (#[trigger] init[j]).0) by {
                assert(fields[i] == init[i] && fields[j] == init[j]);
            }
            assert forall|i: int| 0 <= i < init.len() implies (field_of(
                tool,
                (#[trigger] init[i]).0,
            ) matches Some(field) ==> fault(field, init[i].1) is None) by {
                assert(fields[i] == init[i]);
            }
            assert(is_readable(tool, init));
        }
        if slots_of(tool, init) is Ok {
            if let Some(field) = field_of(tool, fields[n].0) {
                read_if_given(tool, init, field);
                if gives(tool, init, field) {
                    let i = choose|i: int|
                        0 <= i < init.len() && field_of(tool, (#[trigger] init[i]).0) == Some(
                            field,
                        );
                    assert(fields[i] == init[i]);
                    assert(!is_readable(tool, fields));
                } else {
                    assert forall|i: int| 0 <= i < n implies field_of(
                        tool,
                        (#[trigger] fields[i]).0,
                    ) != Some(field) by {
                        assert(init[i] == fields[i]);
                    }
                }
            }
            if slots_of(tool, fields) is Ok {
                assert forall|i: int, j: int|
                    0 <= i < j < fields.len() && field_of(tool, (#[trigger] fields[i]).0)
                        is Some implies field_of(tool, fields[i].0) != field_of(
                    tool,
                    (#[trigger] fields[j]).0,
                ) by {
                    assert(init[i] == fields[i]);
                    if j < n {
                        assert(init[j] == fields[j]);
                    }
                }
                assert forall|i: int| 0 <= i < fields.len() implies (field_of(
                    tool,
                    (#[trigger] fields[i]).0,
                ) matches Some(field) ==> fault(field, fields[i].1) is None) by {
                    if i < n {
                        assert(init[i] == fields[i]);
                    }
                }
            }
        }
    }
}

/// Parameters are read if and only if no field comes twice, each value can be
/// read and, for a search for several patterns, there are patterns. A request
/// that is well but for them is told that they are missing.
pub proof fn params_are_read_if_readable(fields: Seq<(Seq<char>, FieldShape)>)
    ensures
        find_files_params(fields) is Ok <==> is_readable(Tool::FindFiles, fields),
        grep_params(fields) is Ok <==> is_readable(Tool::Grep, fields),
        multi_grep_params(fields) is Ok <==> is_readable(Tool::MultiGrep, fields) && gives(
            Tool::MultiGrep,
            fields,
            Field::Patterns,
        ),
        is_readable(Tool::MultiGrep, fields) && !gives(Tool::MultiGrep, fields, Field::Patterns)
            ==> multi_grep_params(fields) == Err::<
            MultiGrepParams<Seq<char>, Seq<Seq<char>>>,
            ParamsError,
        >(ParamsError::Missing(Field::Patterns)),
{
    fields_are_read_if_readable(Tool::FindFiles, fields);
    fields_are_read_if_readable(Tool::Grep, fields);
    fields_are_read_if_readable(Tool::MultiGrep, fields);
    if is_readable(Tool::MultiGrep, fields) {
        read_if_given(Tool::MultiGrep, fields, Field::Patterns);
    }
}

/// The first field that cannot be read is the one that is reported, whatever
/// follows it: as a duplicate, if it was given before, and else with what is
/// wrong with its value.
pub proof fn first_fault_is_reported(fields: Seq<(Seq<char>, FieldShape)>, tool: Tool, n: int)
    requires
        0 <= n < fields.len(),
        is_readable(tool, fields.take(n)),
        field_of(tool, fields[n].0) is Some,
    ensures
        ({
            let field = field_of(tool, fields[n].0)->0;
            let wrong = if gives(tool, fields.take(n), field) {
                Some(ParamsError::Duplicate(field))
            } else {
                match fault(field, fields[n].1) {
                    Some(e) => Some(ParamsError::Invalid(field, e)),
                    None => None,
                }
            };
            wrong matches Some(error) ==> {
                &&& tool is FindFiles ==> find_files_params(fields) == Err::<
                    FindFilesParams<Seq<char>>,
                    _,
                >(error)
                &&& tool is Grep ==> grep_params(fields) == Err::<GrepParams<Seq<char>>, _>(error)
                &&& tool is MultiGrep ==> multi_grep_params(fields) == Err::<
                    MultiGrepParams<Seq<char>, Seq<Seq<char>>>,
                    _,
                >(error)
            }
        }),
{
    let init = fields.take(n);
    let more = fields.take(n + 1);
    let field = field_of(tool, fields[n].0)->0;
    fields_are_read_if_readable(tool, init);
    read_if_given(tool, init, field);
    assert(more.drop_last() =~= init);
    assert(more.last() == fields[n]);
    if slots_of(tool, more) is Err {
        error_is_final(tool, fields, n + 1);
    }
}

/// What fields, parameters and slots hold is seen as it is.
pub proof fn contents_are_seen(
    find: FindFilesParams,
    grep: GrepParams,
    multi: MultiGrepParams,
    fields: Seq<(String, FieldValue)>,
)
    ensures
        find@.query == find.query@,
        find@.max_results == find.max_results,
        find@.cursor == view_option(find.cursor),
        grep@.query == grep.query@,
        grep@.max_results == grep.max_results,
        grep@.cursor == view_option(grep.cursor),
        grep@.output_mode == view_option(grep.output_mode),
        grep@.constraints == view_option(grep.constraints),
        grep@.context == grep.context,
        multi@.patterns == views(multi.patterns@),
        multi@.max_results == multi.max_results,
        multi@.cursor == view_option(multi.cursor),
        multi@.output_mode == view_option(multi.output_mode),
        multi@.constraints == view_option(multi.constraints),
        multi@.context == multi.context,
        field_views(fields).len() == fields.len(),
        forall|i: int|
            0 <= i < fields.len() ==> #[trigger] field_views(fields)[i] == (
                fields[i].0@,
                fields[i].1@,
            ),
{
}

/// The name that a field is reported under is one that a request can give it.
pub proof fn field_is_known_by_its_title(field: Field)
    ensures
        !(field is Query) ==> field_of(Tool::MultiGrep, field.title()) == Some(field),
        !(field is Patterns) ==> field_of(Tool::Grep, field.title()) == Some(field),
        field is Query || field is MaxResults || field is Cursor ==> field_of(
            Tool::FindFiles,
            field.title(),
        ) == Some(field),
        field is Query ==> field.title() == "query"@,
{
    keys_name_fields(Tool::FindFiles);
    keys_name_fields(Tool::Grep);
    keys_name_fields(Tool::MultiGrep);
}

} // verus!

//! How the content search and the file search are set up.
use vstd::prelude::*;

verus! {

/// How matching lines are shown.
#[derive(Clone, Copy, Debug, PartialEq, Eq, Structural)]
pub enum OutputMode {
    /// Matching lines, or any other form that asks for no setup of its own.
    Content,
    /// The files that hold a match.
    FilesWithMatches,
    /// Matching lines with the lines around them.
    Usage,
}

/// How lines are matched.
#[derive(Clone, Copy, Debug, PartialEq, Eq, Structural)]
pub enum GrepMode {
    PlainText,
    Regex,
    Fuzzy,
}

/// How the content search is set up.
#[derive(Clone, Copy, Debug, PartialEq, Eq, Structural)]
pub struct GrepSearchOptions {
    pub max_file_size: u64,
    pub max_matches_per_file: usize,
    pub smart_case: bool,
    pub file_offset: usize,
    pub page_limit: usize,
    pub mode: GrepMode,
    pub time_budget_ms: u64,
    pub enforce_time_budget: bool,
    pub before_context: usize,
    pub after_context: usize,
    pub classify_definitions: bool,
    pub trim_whitespace: bool,
}

/// The lines shown around a match: those asked for, or else one line for
/// usages and none otherwise.
pub open spec fn context_lines(output_mode: OutputMode, context: Option<usize>) -> usize {
    match context {
        Some(lines) => lines,
        None => if output_mode == OutputMode::Usage {
            1
        } else {
            0
        },
    }
}

/// Whether the lines behind a definition are shown with it: where no context
/// is shown and no usages are asked for.
pub open spec fn auto_expands(output_mode: OutputMode, context: Option<usize>) -> bool {
    output_mode != OutputMode::Usage && context_lines(output_mode, context) == 0
}

/// The most matches that one file contributes.
pub open spec fn matches_per_file(output_mode: OutputMode) -> usize {
    match output_mode {
        OutputMode::FilesWithMatches => 1,
        OutputMode::Usage => 8,
        OutputMode::Content => 10,
    }
}

/// The setup of a content search.
pub open spec fn grep_options(
    output_mode: OutputMode,
    mode: GrepMode,
    file_offset: usize,
    context: Option<usize>,
) -> GrepSearchOptions {
    GrepSearchOptions {
        max_file_size: 10_485_760,
        max_matches_per_file: matches_per_file(output_mode),
        smart_case: true,
        file_offset,
        page_limit: 50,
        mode,
        time_budget_ms: 0,
        enforce_time_budget: false,
        before_context: context_lines(output_mode, context),
        after_context: if auto_expands(output_mode, context) {
            8
        } else {
            context_lines(output_mode, context)
        },
        classify_definitions: true,
        trim_whitespace: true,
    }
}

/// Sets up a content search. The flag says whether the lines behind a
/// definition are shown with it.
pub fn make_grep_options(
    output_mode: OutputMode,
    mode: GrepMode,
    file_offset: usize,
    context: Option<usize>,
) -> (out: (GrepSearchOptions, bool))
    ensures
        out.0 == grep_options(output_mode, mode, file_offset, context),
        out.1 == auto_expands(output_mode, context),
{
    let is_usage = output_mode == OutputMode::Usage;
    let max_matches_per_file: usize = match output_mode {
        OutputMode::FilesWithMatches => 1,
        OutputMode::Usage => 8,
        OutputMode::Content => 10,
    };
    let lines: usize = match context {
        Some(asked) => asked,
        None => if is_usage {
            1
        } else {
            0
        },
    };
    let auto_expand = !is_usage && lines == 0;
    let after: usize = if auto_expand {
        8
    } else {
        lines
    };
    (
        GrepSearchOptions {
            max_file_size: 10 * 1024 * 1024,
            max_matches_per_file,
            smart_case: true,
            file_offset,
            page_limit: 50,
            mode,
            time_budget_ms: 0,
            enforce_time_budget: false,
            before_context: lines,
            after_context: after,
            classify_definitions: true,
            trim_whitespace: true,
        },
        auto_expand,
    )
}

/// The part of a result list that is asked for.
#[derive(Clone, Copy, Debug, PartialEq, Eq, Structural)]
pub struct PaginationArgs {
    pub offset: usize,
    pub limit: usize,
}

/// How the file search is set up.
#[derive(Clone, Copy, Debug, PartialEq, Eq, Structural)]
pub struct FuzzySearchOptions {
    pub max_threads: usize,
    pub combo_boost_score_multiplier: i32,
    pub min_combo_count: u32,
    pub pagination: PaginationArgs,
}

/// The setup of a file search for one page of results.
pub open spec fn file_options(offset: usize, limit: usize) -> FuzzySearchOptions {
    FuzzySearchOptions {
        max_threads: 0,
        combo_boost_score_multiplier: 100,
        min_combo_count: 3,
        pagination: PaginationArgs { offset, limit },
    }
}

/// Sets up a file search for one page of results.
pub fn make_file_options(offset: usize, limit: usize) -> (options: FuzzySearchOptions)
    ensures
        options == file_options(offset, limit),
{
    FuzzySearchOptions {
        max_threads: 0,
        combo_boost_score_multiplier: 100,
        min_combo_count: 3,
        pagination: PaginationArgs { offset, limit },
    }
}

/// Context that a request asks for is shown on both sides of a match; lines
/// are added behind a match alone only where no context is shown at all.
pub proof fn context_is_symmetric(
    output_mode: OutputMode,
    mode: GrepMode,
    file_offset: usize,
    context: Option<usize>,
)
    ensures
        ({
            let options = grep_options(output_mode, mode, file_offset, context);
            &&& options.before_context > 0 ==> options.after_context == options.before_context
            &&& options.after_context != options.before_context ==> auto_expands(
                output_mode,
                context,
            )
        }),
{
}

/// A content search is set up as the request has it: the mode and the first
/// file are those asked for; as many lines are shown on both sides of a match
/// as are asked for, or else one for usages and none otherwise; where none are
/// shown and no usages are asked for, eight lines behind a match are read, to
/// show definitions with what they hold. One file contributes one match where
/// only files are listed, eight for usages and ten otherwise.
pub proof fn search_is_set_up_as_asked(
    output_mode: OutputMode,
    mode: GrepMode,
    file_offset: usize,
    context: Option<usize>,
)
    ensures
        ({
            let options = grep_options(output_mode, mode, file_offset, context);
            &&& options.mode == mode
            &&& options.file_offset == file_offset
            &&& context matches Some(lines) ==> options.before_context == lines
            &&& context is None ==> options.before_context == if output_mode is Usage {
                1int
            } else {
                0int
            }
            &&& options.after_context == if options.before_context == 0 && !(output_mode is Usage) {
                8int
            } else {
                options.before_context as int
            }
            &&& options.max_matches_per_file == if output_mode is FilesWithMatches {
                1int
            } else if output_mode is Usage {
                8int
            } else {
                10int
            }
            &&& auto_expands(output_mode, context) <==> options.before_context == 0 && !(
            output_mode is Usage)
        }),
{
}

/// What every content search has in common: files of up to ten mebibytes,
/// fifty files to a page, case that matters where a query holds capitals,
/// definitions told apart, trimmed lines, and no limit of time.
pub proof fn searches_have_in_common(
    output_mode: OutputMode,
    mode: GrepMode,
    file_offset: usize,
    context: Option<usize>,
)
    ensures
        ({
            let options = grep_options(output_mode, mode, file_offset, context);
            &&& options.max_file_size == 10 * 1024 * 1024
            &&& options.page_limit == 50
            &&& options.smart_case && options.classify_definitions && options.trim_whitespace
            &&& options.time_budget_ms == 0 && !options.enforce_time_budget
        }),
{
}

/// A file search asks for the results from an offset on, up to a limit; all
/// else is the same for every page.
pub proof fn page_is_asked_for(offset: usize, limit: usize)
    ensures
        file_options(offset, limit).pagination.offset == offset,
        file_options(offset, limit).pagination.limit == limit,
        file_options(offset, limit).max_threads == 0,
        file_options(offset, limit).combo_boost_score_multiplier == 100,
        file_options(offset, limit).min_combo_count == 3,
{
}

} // verus!

//! Paths relative to the directory that a walk starts from, with forward
//! slashes between their components.
use crate::text::{joined, view_option};
use vstd::prelude::*;

verus! {

/// What `pathdiff::diff_paths` returns for a path and a base, both given as
/// text, on a platform with the given separator between path components.
pub uninterp spec fn path_difference(path: Seq<char>, base: Seq<char>, separator: char) -> Option<
    Seq<char>,
>;

/// What `std::path::Path::strip_prefix` returns for a path and a base, both
/// given as text, on a platform with the given separator between path
/// components; nothing where it returns an error.
pub uninterp spec fn path_remainder(path: Seq<char>, base: Seq<char>, separator: char) -> Option<
    Seq<char>,
>;

/// A path with forward slashes in place of the platform's separator.
pub open spec fn slashed(path: Seq<char>, separator: char) -> Seq<char> {
    Seq::new(
        path.len(),
        |i: int|
            if path[i] == separator {
                '/'
            } else {
                path[i]
            },
    )
}

/// A file name that both on Unix and on Windows is one component of a path.
pub open spec fn plain_name(name: Seq<char>) -> bool {
    &&& name.len() > 0
    &&& name != seq!['.']
    &&& name != seq!['.', '.']
    &&& !name.contains('/')
    &&& !name.contains('\\')
    &&& !name.contains(':')
}

/// A base directory that is read the same way on Unix and on Windows: not
/// begun by two slashes, and without backslash or colon.
pub open spec fn plain_base(base: Seq<char>) -> bool {
    &&& !(base.len() >= 2 && base[0] == '/' && base[1] == '/')
    &&& !base.contains('\\')
    &&& !base.contains(':')
}

/// A base directory as names follow it: with a slash behind it, unless it is
/// empty or has one.
pub open spec fn opened(base: Seq<char>) -> Seq<char> {
    if base.len() == 0 || base.last() == '/' {
        base
    } else {
        base.push('/')
    }
}

/// Whether a path leads from a base through the named directories to the last
/// name, both on Unix and on Windows.
pub open spec fn lies_below(path: Seq<char>, base: Seq<char>, names: Seq<Seq<char>>) -> bool {
    &&& plain_base(base)
    &&& names.len() > 0
    &&& forall|i: int| 0 <= i < names.len() ==> plain_name(#[trigger] names[i])
    &&& path == opened(base) + joined(names, seq!['/'])
}

/// A file name that on Unix is one component of a path: colons and backslashes
/// are characters like any other there.
pub open spec fn unix_name(name: Seq<char>) -> bool {
    &&& name.len() > 0
    &&& name != seq!['.']
    &&& name != seq!['.', '.']
    &&& !name.contains('/')
}

/// Whether a path leads from a base through the named directories to the last
/// name, on Unix.
pub open spec fn lies_below_on_unix(
    path: Seq<char>,
    base: Seq<char>,
    names: Seq<Seq<char>>,
) -> bool {
    &&& names.len() > 0
    &&& forall|i: int| 0 <= i < names.len() ==> unix_name(#[trigger] names[i])
    &&& path == opened(base) + joined(names, seq!['/'])
}

/// Whether a character separates path components on Windows.
pub open spec fn windows_separator(c: char) -> bool {
    c == '\\' || c == '/'
}

/// A base directory on Windows that names can follow: not begun by two
/// separators, as the paths of servers and devices are, and no drive alone,
/// which stands for its current directory.
pub open spec fn windows_base(base: Seq<char>) -> bool {
    &&& !(base.len() >= 2 && windows_separator(base[0]) && windows_separator(base[1]))
    &&& !(base.len() > 0 && base.last() == ':')
}

/// A base directory on Windows as names follow it: with a backslash behind it,
/// unless it is empty or ends in a separator.
pub open spec fn opened_on_windows(base: Seq<char>) -> Seq<char> {
    if base.len() == 0 || windows_separator(base.last()) {
        base
    } else {
        base.push('\\')
    }
}

/// Whether a path leads from a base through the named directories to the last
/// name, on Windows.
pub open spec fn lies_below_on_windows(
    path: Seq<char>,
    base: Seq<char>,
    names: Seq<Seq<char>>,
) -> bool {
    &&& windows_base(base)
    &&& names.len() > 0
    &&& forall|i: int| 0 <= i < names.len() ==> plain_name(#[trigger] names[i])
    &&& path == opened_on_windows(base) + joined(names, seq!['\\'])
}

/// Whether a character is the separator of one of the two path syntaxes that
/// std documents: `/` on Unix, `\` on Windows.
pub open spec fn documented_separator(c: char) -> bool {
    c == '/' || c == '\\'
}

/// Whether a path leads from a base through the named directories to the last
/// name, in the path syntax that goes with a separator: that of Unix with `/`,
/// that of Windows with `\`.
pub open spec fn leads_to(
    path: Seq<char>,
    base: Seq<char>,
    names: Seq<Seq<char>>,
    separator: char,
) -> bool {
    ||| lies_below(path, base, names)
    ||| lies_below_on_unix(path, base, names) && separator == '/'
    ||| lies_below_on_windows(path, base, names) && separator == '\\'
}

/// Whether what is left of a path behind a base is, with forward slashes, the
/// names that lead from the one to the other.
pub open spec fn leaves_names(
    path: Seq<char>,
    base: Seq<char>,
    separator: char,
    rest: Option<Seq<char>>,
) -> bool {
    forall|names: Seq<Seq<char>>| #[trigger]
        leads_to(path, base, names, separator) ==> rest is Some && slashed(rest->0, separator)
            == joined(names, seq!['/'])
}

/// `pathdiff::diff_paths`, with the platform's path separator beside it. std
/// documents two path syntaxes, that of Unix, where the separator is `/`, and
/// that of Windows, where it is `\`: the difference is a function of the two
/// paths and of the syntax, for which the separator stands. Of a path that
/// lies below its base the difference is the names that lead to it, separated
/// as the platform does.
#[verifier::external_body]
fn diff_paths(path: &str, base: &str) -> (out: (char, Option<String>))
    ensures
        documented_separator(out.0),
        view_option(out.1) == path_difference(path@, base@, out.0),
        leaves_names(path@, base@, out.0, view_option(out.1)),
{
    let difference = pathdiff::diff_paths(path, base);
    (std::path::MAIN_SEPARATOR, difference.map(|p| p.to_string_lossy().into_owned()))
}

/// `std::path::Path::strip_prefix`, with the platform's path separator beside
/// it. std documents two path syntaxes, that of Unix, where the separator is
/// `/`, and that of Windows, where it is `\`: the remainder is a function of
/// the two paths and of the syntax, for which the separator stands. Of a path
/// that lies below the base the remainder is the names that lead to it.
#[verifier::external_body]
fn strip_prefix(path: &str, base: &str) -> (out: (char, Option<String>))
    ensures
        documented_separator(out.0),
        view_option(out.1) == path_remainder(path@, base@, out.0),
        leaves_names(path@, base@, out.0, view_option(out.1)),
{
    let remainder = std::path::Path::new(path).strip_prefix(base).ok();
    (std::path::MAIN_SEPARATOR, remainder.map(|p| p.to_string_lossy().into_owned()))
}

/// Writes a path with forward slashes in place of the platform's separator.
pub fn to_canonical_slashes(path: &str, separator: char) -> (out: String)
    ensures
        out@ == slashed(path@, separator),
{
    let mut out: String = String::new();
    for c in it: path.chars()
        invariant
            it.seq() == path@,
            out@ == slashed(path@, separator).take(it.index()),
    {
        if c == separator {
            out.push('/');
        } else {
            out.push(c);
        }
        assert(slashed(path@, separator).take(it.index() + 1) == slashed(path@, separator).take(
            it.index(),
        ).push(slashed(path@, separator)[it.index()]));
    }
    assert(slashed(path@, separator).take(path@.len() as int) == slashed(path@, separator));
    out
}

/// The relative path that stands for a walked path: its difference from the
/// base or, where there is none, the path itself, with forward slashes.
pub open spec fn relative_to(
    path: Seq<char>,
    difference: Option<Seq<char>>,
    separator: char,
) -> Seq<char> {
    match difference {
        Some(rel) => slashed(rel, separator),
        None => slashed(path, separator),
    }
}

/// Writes the relative path that stands for a walked path, given its
/// difference from the base.
pub fn relative_from_difference(path: &str, difference: Option<String>, separator: char) -> (rel:
    String)
    ensures
        rel@ == relative_to(path@, view_option(difference), separator),
{
    match difference {
        Some(text) => to_canonical_slashes(text.as_str(), separator),
        None => to_canonical_slashes(path, separator),
    }
}

/// The path of a walked entry relative to the base of the walk.
pub fn relative_path(path: &str, base: &str) -> (rel: String)
    ensures
        exists|separator: char|
            {
                let difference = #[trigger] path_difference(path@, base@, separator);
                &&& documented_separator(separator)
                &&& rel@ == relative_to(path@, difference, separator)
                &&& leaves_names(path@, base@, separator, difference)
            },
        forall|names: Seq<Seq<char>>| #[trigger]
            lies_below(path@, base@, names) ==> rel@ == joined(names, seq!['/']),
{
    let (separator, difference) = diff_paths(path, base);
    proof {
        assert forall|names: Seq<Seq<char>>| #[trigger] lies_below(path@, base@, names) implies
            slashed(view_option(difference)->0, separator) == joined(names, seq!['/'])
            && difference is Some by {
            assert(leads_to(path@, base@, names, separator));
        }
    }
    relative_from_difference(path, difference, separator)
}

/// The directory that stands for what is left of a path behind its base: with
/// forward slashes, ended by one. Nothing where the base is no prefix.
pub open spec fn directory_of(remainder: Option<Seq<char>>, separator: char) -> Option<Seq<char>> {
    match remainder {
        Some(rel) => Some(slashed(rel, separator).push('/')),
        None => None,
    }
}

/// Writes the directory that stands for what is left of a path behind its
/// base.
pub fn directory_from_remainder(remainder: Option<String>, separator: char) -> (dir: Option<String>)
    ensures
        view_option(dir) == directory_of(view_option(remainder), separator),
{
    match remainder {
        Some(text) => {
            let mut dir: String = to_canonical_slashes(text.as_str(), separator);
            dir.push('/');
            Some(dir)
        },
        None => None,
    }
}

/// The path of a walked directory relative to the base of the walk, ended by
/// a slash; nothing for a directory that does not lie below the base.
pub fn relative_directory(path: &str, base: &str) -> (dir: Option<String>)
    ensures
        exists|separator: char|
            {
                let remainder = #[trigger] path_remainder(path@, base@, separator);
                &&& documented_separator(separator)
                &&& view_option(dir) == directory_of(remainder, separator)
                &&& leaves_names(path@, base@, separator, remainder)
            },
        forall|names: Seq<Seq<char>>| #[trigger]
            lies_below(path@, base@, names) ==> view_option(dir) == Some(
                joined(names, seq!['/']).push('/'),
            ),
{
    let (separator, remainder) = strip_prefix(path, base);
    proof {
        assert forall|names: Seq<Seq<char>>| #[trigger] lies_below(path@, base@, names) implies
            slashed(view_option(remainder)->0, separator) == joined(names, seq!['/'])
            && remainder is Some by {
            assert(leads_to(path@, base@, names, separator));
        }
    }
    directory_from_remainder(remainder, separator)
}

/// Writing a path with forward slashes replaces the separators of the platform,
/// each by one slash, and nothing else.
pub proof fn separators_alone_are_replaced(path: Seq<char>, separator: char)
    ensures
        slashed(path, separator).len() == path.len(),
        forall|i: int|
            0 <= i < path.len() && path[i] == separator ==> #[trigger] slashed(path, separator)[i]
                == '/',
        forall|i: int|
            0 <= i < path.len() && path[i] != separator ==> #[trigger] slashed(path, separator)[i]
                == path[i],
{
}

/// The relative path is the difference from the base and, without one, the path
/// itself; a directory is what is left behind the base with a slash at its end
/// and, where nothing is, none.
pub proof fn relative_paths_are_what_is_left(
    path: Seq<char>,
    rest: Seq<char>,
    separator: char,
)
    ensures
        relative_to(path, Some(rest), separator) == slashed(rest, separator),
        relative_to(path, None, separator) == slashed(path, separator),
        directory_of(Some(rest), separator) == Some(slashed(rest, separator) + seq!['/']),
        directory_of(None, separator) is None,
{
    assert(slashed(rest, separator).push('/') =~= slashed(rest, separator) + seq!['/']);
}

} // verus!

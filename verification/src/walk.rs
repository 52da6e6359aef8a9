//! What a walk through a directory tree collects: the files, the symbolic
//! links by the type of their targets, and the directories.
use crate::paths::{
    directory_of, documented_separator, leaves_names, lies_below, path_difference, path_remainder,
    relative_directory, relative_path, relative_to, slashed,
};
use crate::text::{joined, views};
use std::convert::Infallible;
use vstd::prelude::*;
use vstd::utf8::encode_utf8;

verus! {

/// Ignore rules that a walk hands out for later queries. The walk collects
/// none, so the type has no values.
pub struct WalkIgnoreRules {
    never: Infallible,
}

impl WalkIgnoreRules {
    /// No value is ever made.
    #[verifier::type_invariant]
    spec fn never_made(self) -> bool {
        false
    }

    /// Whether the collected rules ignore a path, given relative to the base
    /// of the walk. There are no collected rules to ask.
    pub fn is_ignored(&self, relative_path: &str) -> (ignored: bool)
        ensures
            !ignored,
    {
        proof {
            use_type_invariant(self);
        }
        vstd::pervasive::unreached()
    }
}

/// How a walker is set up.
#[derive(Clone, Copy, Debug, PartialEq, Eq)]
pub struct WalkOptions {
    /// Leave out hidden files and directories.
    pub hidden: bool,
    pub git_ignore: bool,
    pub git_exclude: bool,
    pub git_global: bool,
    pub ignore: bool,
    pub follow_links: bool,
    pub threads: usize,
    /// Prune the directories that hold no code.
    pub prune_non_code: bool,
}

/// How a walker is set up: ignore files are respected and hidden files are left
/// out, in a git repository and outside. Outside, the walk also prunes the
/// directories that hold no code.
pub open spec fn walk_setup(
    is_git_repo: bool,
    follow_symlinks: bool,
    threads: usize,
) -> WalkOptions {
    WalkOptions {
        hidden: true,
        git_ignore: true,
        git_exclude: true,
        git_global: true,
        ignore: true,
        follow_links: follow_symlinks,
        threads,
        prune_non_code: !is_git_repo,
    }
}

/// Sets up a walker.
pub fn walk_options(is_git_repo: bool, follow_symlinks: bool, threads: usize) -> (options:
    WalkOptions)
    ensures
        options == walk_setup(is_git_repo, follow_symlinks, threads),
{
    WalkOptions {
        hidden: true,
        git_ignore: true,
        git_exclude: true,
        git_global: true,
        ignore: true,
        follow_links: follow_symlinks,
        threads,
        prune_non_code: !is_git_repo,
    }
}

/// The type of a walked entry, the link itself where it is one.
#[derive(Clone, Copy, Debug, PartialEq, Eq)]
pub enum EntryKind {
    Symlink,
    File,
    Directory,
    Other,
}

/// What is to be done with a walked entry.
#[derive(Clone, Copy, Debug, PartialEq, Eq)]
pub enum EntryStep {
    Skip,
    /// Look at what the link points to.
    StatTarget,
    IndexFile,
    ListDirectory,
}

/// What is done with a walked entry: links, files and directories are taken,
/// but nothing that git keeps for itself, and not the base of the walk.
pub open spec fn entry_step(kind: EntryKind, in_git: bool, depth: nat) -> EntryStep {
    if in_git {
        EntryStep::Skip
    } else {
        match kind {
            EntryKind::Symlink => EntryStep::StatTarget,
            EntryKind::File => EntryStep::IndexFile,
            EntryKind::Directory => if depth > 0 {
                EntryStep::ListDirectory
            } else {
                EntryStep::Skip
            },
            EntryKind::Other => EntryStep::Skip,
        }
    }
}

/// Decides what is to be done with a walked entry. `in_git` says whether its
/// path belongs to git's own files, `depth` how far below the base it lies.
pub fn classify_entry(kind: EntryKind, in_git: bool, depth: usize) -> (step: EntryStep)
    ensures
        step == entry_step(kind, in_git, depth as nat),
{
    match kind {
        EntryKind::Symlink => if in_git {
            EntryStep::Skip
        } else {
            EntryStep::StatTarget
        },
        EntryKind::File => if in_git {
            EntryStep::Skip
        } else {
            EntryStep::IndexFile
        },
        EntryKind::Directory => if depth > 0 && !in_git {
            EntryStep::ListDirectory
        } else {
            EntryStep::Skip
        },
        EntryKind::Other => EntryStep::Skip,
    }
}

/// What a link points to.
#[derive(Clone, Copy, Debug, PartialEq, Eq)]
pub enum LinkTarget {
    /// Nothing that can be looked at.
    Dangling,
    Directory,
    /// Anything but a directory, with its size and the seconds from the epoch
    /// to its last change, where they are known.
    File { size: u64, modified: Option<u64> },
}

/// How a link is indexed.
#[derive(Debug)]
pub enum LinkStep<T> {
    Skip,
    /// By a marker for the directory at the given relative path.
    Directory { path: T },
    /// As a file at the given relative path.
    File { path: T, size: u64, modified: u64 },
}

impl View for LinkStep<String> {
    type V = LinkStep<Seq<char>>;

    open spec fn view(&self) -> LinkStep<Seq<char>> {
        match self {
            LinkStep::Skip => LinkStep::Skip,
            LinkStep::Directory { path } => LinkStep::Directory { path: path@ },
            LinkStep::File { path, size, modified } => LinkStep::File {
                path: path@,
                size: *size,
                modified: *modified,
            },
        }
    }
}

/// How the link at a relative path is indexed: by the type of its target. One
/// that dangles is left out; an unknown time of change counts as the epoch.
pub open spec fn link_step(path: Seq<char>, target: LinkTarget) -> LinkStep<Seq<char>> {
    match target {
        LinkTarget::Dangling => LinkStep::Skip,
        LinkTarget::Directory => LinkStep::Directory { path },
        LinkTarget::File { size, modified } => LinkStep::File {
            path,
            size,
            modified: match modified {
                Some(secs) => secs,
                None => 0,
            },
        },
    }
}

/// Decides how the link at a relative path is indexed.
pub fn classify_link(path: String, target: LinkTarget) -> (step: LinkStep<String>)
    ensures
        step@ == link_step(path@, target),
{
    match target {
        LinkTarget::Dangling => LinkStep::Skip,
        LinkTarget::Directory => LinkStep::Directory { path },
        LinkTarget::File { size, modified } => LinkStep::File {
            path,
            size,
            modified: match modified {
                Some(secs) => secs,
                None => 0,
            },
        },
    }
}

/// An indexed file, or the marker of a linked directory.
#[derive(Clone, Copy, Debug, PartialEq, Eq)]
pub struct FileItem {
    /// Where the file name begins in the relative path, in bytes.
    pub name_offset: u16,
    pub size: u64,
    /// Seconds from the epoch to the last change.
    pub modified: u64,
    pub binary: bool,
    pub symlink: bool,
    pub symlink_dir: bool,
}

impl FileItem {
    /// An item that is no link.
    pub fn new_raw(name_offset: u16, size: u64, modified: u64, binary: bool) -> (item: FileItem)
        ensures
            item == (FileItem {
                name_offset,
                size,
                modified,
                binary,
                symlink: false,
                symlink_dir: false,
            }),
    {
        FileItem { name_offset, size, modified, binary, symlink: false, symlink_dir: false }
    }

    /// Whether the item stands for a link to a file.
    pub fn is_symlink(&self) -> (yes: bool)
        ensures
            yes == self.symlink,
    {
        self.symlink
    }

    /// Whether the item is the marker of a link to a directory.
    pub fn is_symlink_dir(&self) -> (yes: bool)
        ensures
            yes == self.symlink_dir,
    {
        self.symlink_dir
    }
}

/// The marker of a linked directory: the whole path, which ends in a slash,
/// is its directory portion. The offset has 16 bits; of a longer path its low
/// 16 bits are kept.
pub open spec fn directory_marker(path: Seq<char>) -> FileItem {
    FileItem {
        name_offset: (encode_utf8(path).len() % 0x1_0000) as u16,
        size: 0,
        modified: 0,
        binary: false,
        symlink: false,
        symlink_dir: true,
    }
}

/// A path with a slash behind it.
pub open spec fn as_directory(path: Seq<char>) -> Seq<char> {
    path.push('/')
}

/// Makes the marker of a linked directory.
fn mark_directory(path: &str) -> (marker: FileItem)
    ensures
        marker == directory_marker(path@),
{
    let length: usize = path.as_bytes().len();
    FileItem {
        name_offset: (length % 0x1_0000) as u16,
        size: 0,
        modified: 0,
        binary: false,
        symlink: false,
        symlink_dir: true,
    }
}

/// An entry that a walk came to.
#[derive(Debug)]
pub struct WalkedEntry<T = String> {
    pub path: T,
    /// Where the walk started.
    pub base: T,
    pub kind: EntryKind,
    /// Whether the path belongs to git's own files.
    pub in_git: bool,
    /// How far below the base the entry lies.
    pub depth: usize,
}

impl View for WalkedEntry<String> {
    type V = WalkedEntry<Seq<char>>;

    open spec fn view(&self) -> WalkedEntry<Seq<char>> {
        WalkedEntry {
            path: self.path@,
            base: self.base@,
            kind: self.kind,
            in_git: self.in_git,
            depth: self.depth,
        }
    }
}

/// What a walk found at an entry.
#[derive(Debug)]
pub enum Found<T = String> {
    Nothing,
    /// An item at a relative path.
    Item { item: FileItem, path: T },
    /// A directory at a relative path, with a slash at its end.
    Directory { path: T },
}

/// What a visit of an entry waits for, or what came of it.
#[derive(Debug)]
pub enum VisitStep<T = String> {
    /// Look at what the link points to.
    StatTarget,
    /// Make the item of a file that a link at a relative path points to.
    BuildLinkedFile { path: T, size: u64, modified: u64 },
    /// Make the item of the file, and its relative path.
    BuildFile,
    /// The visit is over.
    Done { found: Found<T> },
}

/// What comes back for a step of a visit.
#[derive(Debug)]
pub enum VisitReply<T = String> {
    /// What the link points to.
    Target { target: LinkTarget },
    /// The item of the file, and its relative path.
    Built { item: FileItem, path: T },
}

impl View for Found<String> {
    type V = Found<Seq<char>>;

    open spec fn view(&self) -> Found<Seq<char>> {
        match self {
            Found::Nothing => Found::Nothing,
            Found::Item { item, path } => Found::Item { item: *item, path: path@ },
            Found::Directory { path } => Found::Directory { path: path@ },
        }
    }
}

impl View for VisitStep<String> {
    type V = VisitStep<Seq<char>>;

    open spec fn view(&self) -> VisitStep<Seq<char>> {
        match self {
            VisitStep::StatTarget => VisitStep::StatTarget,
            VisitStep::BuildLinkedFile { path, size, modified } => VisitStep::BuildLinkedFile {
                path: path@,
                size: *size,
                modified: *modified,
            },
            VisitStep::BuildFile => VisitStep::BuildFile,
            VisitStep::Done { found } => VisitStep::Done { found: found@ },
        }
    }
}

impl View for VisitReply<String> {
    type V = VisitReply<Seq<char>>;

    open spec fn view(&self) -> VisitReply<Seq<char>> {
        match self {
            VisitReply::Target { target } => VisitReply::Target { target: *target },
            VisitReply::Built { item, path } => VisitReply::Built { item: *item, path: path@ },
        }
    }
}

/// Whether a path ends in a slash.
pub open spec fn ends_in_slash(path: Seq<char>) -> bool {
    path.len() > 0 && path.last() == '/'
}

/// Whether what was found can be collected: a directory and the marker of a
/// linked one end in a slash, and the marker is the one that belongs to its
/// path.
pub open spec fn is_collectable(found: Found<Seq<char>>) -> bool {
    match found {
        Found::Nothing => true,
        Found::Item { item, path } => item.symlink_dir ==> ends_in_slash(path) && item
            == directory_marker(path),
        Found::Directory { path } => ends_in_slash(path),
    }
}

/// Whether an entry is a directory that is listed.
pub open spec fn lists(entry: WalkedEntry<Seq<char>>) -> bool {
    entry_step(entry.kind, entry.in_git, entry.depth as nat) == EntryStep::ListDirectory
}

/// The first step of a visit. `remainder` is what is left of the path behind
/// the base, on a platform with the given path separator.
pub open spec fn first_step(
    entry: WalkedEntry<Seq<char>>,
    remainder: Option<Seq<char>>,
    separator: char,
) -> VisitStep<Seq<char>> {
    match entry_step(entry.kind, entry.in_git, entry.depth as nat) {
        EntryStep::Skip => VisitStep::Done { found: Found::Nothing },
        EntryStep::StatTarget => VisitStep::StatTarget,
        EntryStep::IndexFile => VisitStep::BuildFile,
        EntryStep::ListDirectory => VisitStep::Done {
            found: match directory_of(remainder, separator) {
                Some(path) => Found::Directory { path },
                None => Found::Nothing,
            },
        },
    }
}

/// The step of a visit after a link was looked at: the link is indexed at its
/// relative path, by the type of its target.
pub open spec fn after_target(path: Seq<char>, target: LinkTarget) -> VisitStep<Seq<char>> {
    match link_step(path, target) {
        LinkStep::Skip => VisitStep::Done { found: Found::Nothing },
        LinkStep::Directory { path } => VisitStep::Done {
            found: Found::Item {
                item: directory_marker(as_directory(path)),
                path: as_directory(path),
            },
        },
        LinkStep::File { path, size, modified } => VisitStep::BuildLinkedFile {
            path,
            size,
            modified,
        },
    }
}

/// What was found once the item of a file has been made: a linked file is
/// indexed at the path of the link, as a link, and any other one at its own.
pub open spec fn after_build(
    step: VisitStep<Seq<char>>,
    item: FileItem,
    path: Seq<char>,
) -> Found<Seq<char>> {
    match step {
        VisitStep::BuildLinkedFile { path: link, size, modified } => Found::Item {
            item: FileItem { symlink: true, ..item },
            path: link,
        },
        _ => Found::Item { item, path },
    }
}

/// Whether a reply is one for a step. An item that was made is no marker of a
/// linked directory.
pub open spec fn answers(step: VisitStep<Seq<char>>, reply: VisitReply<Seq<char>>) -> bool {
    match step {
        VisitStep::StatTarget => reply is Target,
        VisitStep::BuildLinkedFile { path, size, modified } => reply matches VisitReply::Built {
            item,
            path,
        } && !item.symlink_dir,
        VisitStep::BuildFile => reply matches VisitReply::Built { item, path }
            && !item.symlink_dir,
        VisitStep::Done { found } => false,
    }
}

/// The step that a reply leads to. `difference` is the path of the entry as
/// seen from the base, on a platform with the given path separator.
pub open spec fn next_step(
    entry: WalkedEntry<Seq<char>>,
    step: VisitStep<Seq<char>>,
    reply: VisitReply<Seq<char>>,
    difference: Option<Seq<char>>,
    separator: char,
) -> VisitStep<Seq<char>> {
    match reply {
        VisitReply::Target { target } => after_target(
            relative_to(entry.path, difference, separator),
            target,
        ),
        VisitReply::Built { item, path } => VisitStep::Done {
            found: after_build(step, item, path),
        },
    }
}

/// A visit of an entry under way.
#[derive(Debug)]
pub struct Visit {
    pub entry: WalkedEntry,
    pub step: VisitStep,
}

impl Visit {
    /// Whether what the visit found, if it is over, can be collected.
    pub open spec fn well_formed(&self) -> bool {
        self.step@ matches VisitStep::Done { found } ==> is_collectable(found)
    }

    /// Begins a visit.
    pub fn new(entry: WalkedEntry) -> (visit: Visit)
        ensures
            visit.well_formed(),
            visit.entry == entry,
            exists|separator: char|
                {
                    let remainder = #[trigger] path_remainder(
                        entry@.path,
                        entry@.base,
                        separator,
                    );
                    &&& documented_separator(separator)
                    &&& visit.step@ == first_step(entry@, remainder, separator)
                    &&& lists(entry@) ==> leaves_names(
                        entry@.path,
                        entry@.base,
                        separator,
                        remainder,
                    )
                },
            forall|names: Seq<Seq<char>>| #[trigger]
                lies_below(entry@.path, entry@.base, names) && lists(entry@) ==> visit.step@ == (VisitStep::Done {
                    found: Found::Directory { path: as_directory(joined(names, seq!['/'])) },
                }),
    {
        let step: VisitStep = match classify_entry(entry.kind, entry.in_git, entry.depth) {
            EntryStep::Skip => VisitStep::Done { found: Found::Nothing },
            EntryStep::StatTarget => VisitStep::StatTarget,
            EntryStep::IndexFile => VisitStep::BuildFile,
            EntryStep::ListDirectory => VisitStep::Done {
                found: match relative_directory(entry.path.as_str(), entry.base.as_str()) {
                    Some(path) => Found::Directory { path },
                    None => Found::Nothing,
                },
            },
        };
        proof {
            if !(step is Done) || entry.in_git || entry.kind != EntryKind::Directory || entry.depth
                == 0 {
                let any = path_remainder(entry@.path, entry@.base, '/');
                assert(step@ == first_step(entry@, any, '/'));
            }
        }
        Visit { entry, step }
    }

    /// Decides what follows once a link was looked at, given its relative
    /// path.
    pub fn link_found(path: String, target: LinkTarget) -> (step: VisitStep)
        ensures
            step@ == after_target(path@, target),
    {
        match classify_link(path, target) {
            LinkStep::Skip => VisitStep::Done { found: Found::Nothing },
            LinkStep::Directory { path } => {
                let mut marked: String = path;
                marked.push('/');
                let item = mark_directory(marked.as_str());
                VisitStep::Done { found: Found::Item { item, path: marked } }
            },
            LinkStep::File { path, size, modified } => VisitStep::BuildLinkedFile {
                path,
                size,
                modified,
            },
        }
    }

    /// Takes what came back for the step that the visit waits for.
    pub fn advance(self, reply: VisitReply) -> (next: Visit)
        requires
            answers(self.step@, reply@),
        ensures
            next.well_formed(),
            next.entry == self.entry,
            exists|separator: char|
                {
                    let difference = #[trigger] path_difference(
                        self.entry@.path,
                        self.entry@.base,
                        separator,
                    );
                    &&& documented_separator(separator)
                    &&& next.step@ == next_step(
                        self.entry@,
                        self.step@,
                        reply@,
                        difference,
                        separator,
                    )
                    &&& reply is Target ==> leaves_names(
                        self.entry@.path,
                        self.entry@.base,
                        separator,
                        difference,
                    )
                },
            forall|names: Seq<Seq<char>>, target: LinkTarget|
                reply@ == (VisitReply::<Seq<char>>::Target { target }) && #[trigger] lies_below(
                    self.entry@.path,
                    self.entry@.base,
                    names,
                ) ==> next.step@ == #[trigger] after_target(joined(names, seq!['/']), target),
    {
        let ghost asked = self.step@;
        let ghost told = reply@;
        let entry = self.entry;
        let step: VisitStep = match reply {
            VisitReply::Target { target } => {
                let path = relative_path(entry.path.as_str(), entry.base.as_str());
                Visit::link_found(path, target)
            },
            VisitReply::Built { item, path } => {
                let found: Found = match self.step {
                    VisitStep::BuildLinkedFile { path: link, size: _, modified: _ } => Found::Item {
                        item: FileItem { symlink: true, ..item },
                        path: link,
                    },
                    _ => Found::Item { item, path },
                };
                VisitStep::Done { found }
            },
        };
        proof {
            if told is Built {
                let any = path_difference(entry@.path, entry@.base, '/');
                assert(step@ == next_step(entry@, asked, told, any, '/'));
            }
        }
        Visit { entry, step }
    }
}

/// What a walk has found: the indexed items with their relative paths, and
/// the directories, each with a slash at its end.
pub struct WalkOutput {
    pub pairs: Vec<(FileItem, String)>,
    pub dirs: Vec<String>,
    pub ignore_rules: Option<WalkIgnoreRules>,
}

/// The indexed items with the text of their paths.
pub open spec fn pair_views(pairs: Seq<(FileItem, String)>) -> Seq<(FileItem, Seq<char>)> {
    Seq::new(pairs.len(), |i: int| (pairs[i].0, pairs[i].1@))
}

impl WalkOutput {
    /// The indexed items with the text of their paths.
    pub open spec fn items(&self) -> Seq<(FileItem, Seq<char>)> {
        pair_views(self.pairs@)
    }

    /// The text of the directories.
    pub open spec fn directories(&self) -> Seq<Seq<char>> {
        views(self.dirs@)
    }

    /// Directories and the markers of linked directories end in a slash, each
    /// marker is the one that belongs to its path, and no ignore rules are
    /// handed out.
    pub open spec fn well_formed(&self) -> bool {
        &&& forall|i: int|
            0 <= i < self.directories().len() ==> ends_in_slash(#[trigger] self.directories()[i])
        &&& forall|i: int| #![trigger self.items()[i]]
            0 <= i < self.items().len() && self.items()[i].0.symlink_dir ==> {
                &&& ends_in_slash(self.items()[i].1)
                &&& self.items()[i].0 == directory_marker(self.items()[i].1)
            }
        &&& self.ignore_rules is None
    }

    /// A walk that has found nothing yet.
    pub fn new() -> (out: WalkOutput)
        ensures
            out.well_formed(),
            out.items() == Seq::<(FileItem, Seq<char>)>::empty(),
            out.directories() == Seq::<Seq<char>>::empty(),
    {
        WalkOutput { pairs: Vec::new(), dirs: Vec::new(), ignore_rules: None }
    }

    /// Collects what was found at an entry. Gives the number of items added.
    pub fn collect(&mut self, found: Found) -> (added: usize)
        requires
            old(self).well_formed(),
            is_collectable(found@),
        ensures
            final(self).well_formed(),
            final(self).items() == with_item(old(self).items(), found@),
            final(self).directories() == with_directory(old(self).directories(), found@),
            final(self).items().len() == old(self).items().len() + added,
    {
        let ghost shape = found@;
        let added: usize = match found {
            Found::Nothing => 0,
            Found::Item { item, path } => {
                self.pairs.push((item, path));
                1
            },
            Found::Directory { path } => {
                self.dirs.push(path);
                0
            },
        };
        assert(self.items() =~= with_item(old(self).items(), shape));
        assert(self.directories() =~= with_directory(old(self).directories(), shape));
        added
    }
}

/// The items with what was found, where it is one.
pub open spec fn with_item(
    items: Seq<(FileItem, Seq<char>)>,
    found: Found<Seq<char>>,
) -> Seq<(FileItem, Seq<char>)> {
    match found {
        Found::Item { item, path } => items.push((item, path)),
        _ => items,
    }
}

/// The directories with what was found, where it is one.
pub open spec fn with_directory(dirs: Seq<Seq<char>>, found: Found<Seq<char>>) -> Seq<Seq<char>> {
    match found {
        Found::Directory { path } => dirs.push(path),
        _ => dirs,
    }
}

/// Nothing that git keeps for itself is taken, and the base of the walk is not
/// listed.
pub proof fn git_files_and_base_are_left_out(kind: EntryKind, depth: nat)
    ensures
        entry_step(kind, true, depth) == EntryStep::Skip,
        entry_step(EntryKind::Directory, false, 0) == EntryStep::Skip,
{
}

/// Links are indexed whether or not the walk follows them, by the type of
/// their targets: outside git's own files every link is looked at, and it is
/// left out if and only if it dangles.
pub proof fn links_are_indexed_by_target(path: Seq<char>, target: LinkTarget, depth: nat)
    ensures
        entry_step(EntryKind::Symlink, false, depth) == EntryStep::StatTarget,
        after_target(path, target) == (VisitStep::Done { found: Found::<Seq<char>>::Nothing })
            <==> target is Dangling,
        target is Directory ==> after_target(path, target) == (VisitStep::Done {
            found: Found::Item {
                item: directory_marker(as_directory(path)),
                path: as_directory(path),
            },
        }),
        after_target(path, target) is BuildLinkedFile <==> target is File,
        forall|step: VisitStep<Seq<char>>, item: FileItem, other: Seq<char>|
            step is BuildLinkedFile && step->path == path ==> #[trigger] after_build(
                step,
                item,
                other,
            ) == (Found::Item { item: FileItem { symlink: true, ..item }, path }),
{
}

/// How many replies a visit still takes at most.
pub open spec fn replies_left(step: VisitStep<Seq<char>>) -> nat {
    match step {
        VisitStep::StatTarget => 2,
        VisitStep::BuildLinkedFile { path, size, modified } => 1,
        VisitStep::BuildFile => 1,
        VisitStep::Done { found } => 0,
    }
}

/// Every visit ends: each reply brings it closer to its end, so that it takes
/// two replies at most.
pub proof fn visit_ends(
    entry: WalkedEntry<Seq<char>>,
    step: VisitStep<Seq<char>>,
    reply: VisitReply<Seq<char>>,
    difference: Option<Seq<char>>,
    separator: char,
)
    requires
        answers(step, reply),
    ensures
        replies_left(next_step(entry, step, reply, difference, separator)) < replies_left(step)
            <= 2,
{
}

/// The number of threads changes nothing else in the setup of a walk.
pub proof fn threads_change_nothing_else(
    is_git_repo: bool,
    follow_symlinks: bool,
    threads: usize,
    others: usize,
)
    ensures
        walk_setup(is_git_repo, follow_symlinks, others) == (WalkOptions {
            threads: others,
            ..walk_setup(is_git_repo, follow_symlinks, threads)
        }),
{
}

/// The items that a walk has collected after some finds.
pub open spec fn items_of(finds: Seq<Found<Seq<char>>>) -> Seq<(FileItem, Seq<char>)>
    decreases finds.len(),
{
    if finds.len() == 0 {
        Seq::empty()
    } else {
        with_item(items_of(finds.drop_last()), finds.last())
    }
}

/// The directories that a walk has collected after some finds.
pub open spec fn directories_of(finds: Seq<Found<Seq<char>>>) -> Seq<Seq<char>>
    decreases finds.len(),
{
    if finds.len() == 0 {
        Seq::empty()
    } else {
        with_directory(directories_of(finds.drop_last()), finds.last())
    }
}

/// Each item and each directory is collected as often as it was found.
proof fn collected_as_often_as_found(finds: Seq<Found<Seq<char>>>)
    ensures
        forall|item: FileItem, path: Seq<char>| #[trigger]
            items_of(finds).to_multiset().count((item, path)) == finds.to_multiset().count(
                Found::Item { item, path },
            ),
        forall|path: Seq<char>| #[trigger]
            directories_of(finds).to_multiset().count(path) == finds.to_multiset().count(
                Found::Directory { path },
            ),
    decreases finds.len(),
{
    finds.to_multiset_ensures();
    items_of(finds).to_multiset_ensures();
    directories_of(finds).to_multiset_ensures();
    if finds.len() > 0 {
        let init = finds.drop_last();
        collected_as_often_as_found(init);
        init.to_multiset_ensures();
        items_of(init).to_multiset_ensures();
        directories_of(init).to_multiset_ensures();
        assert(init.push(finds.last()) =~= finds);
        assert(finds.to_multiset() =~= init.to_multiset().insert(finds.last()));
    }
}

/// The order in which entries are collected, and with it the number of threads
/// that walk, makes no difference: the same finds in another order come to the
/// same items, the same directories and the same count.
pub proof fn order_of_finds_is_irrelevant(
    finds: Seq<Found<Seq<char>>>,
    others: Seq<Found<Seq<char>>>,
)
    requires
        finds.to_multiset() == others.to_multiset(),
    ensures
        items_of(finds).to_multiset() == items_of(others).to_multiset(),
        directories_of(finds).to_multiset() == directories_of(others).to_multiset(),
        items_of(finds).len() == items_of(others).len(),
{
    collected_as_often_as_found(finds);
    collected_as_often_as_found(others);
    assert forall|pair: (FileItem, Seq<char>)| #[trigger]
        items_of(finds).to_multiset().count(pair) == items_of(others).to_multiset().count(
            pair,
        ) by {
        assert(items_of(finds).to_multiset().count((pair.0, pair.1)) == items_of(
            others,
        ).to_multiset().count((pair.0, pair.1)));
    }
    assert(items_of(finds).to_multiset() =~= items_of(others).to_multiset());
    assert(directories_of(finds).to_multiset() =~= directories_of(others).to_multiset());
    items_of(finds).to_multiset_ensures();
    items_of(others).to_multiset_ensures();
}

/// An entry that a walk came to, with what is found out about it: what it
/// points to where it is a link, and the item and the path that are made for
/// it where it is a file or points to one.
pub struct Sighting {
    pub entry: WalkedEntry<Seq<char>>,
    pub target: LinkTarget,
    pub item: FileItem,
    pub path: Seq<char>,
}

/// The step of a visit after the next reply, if it waits for one.
pub open spec fn step_on(
    seen: Sighting,
    step: VisitStep<Seq<char>>,
    separator: char,
) -> VisitStep<Seq<char>> {
    let difference = path_difference(seen.entry.path, seen.entry.base, separator);
    match step {
        VisitStep::StatTarget => next_step(
            seen.entry,
            step,
            VisitReply::Target { target: seen.target },
            difference,
            separator,
        ),
        VisitStep::Done { found } => step,
        _ => next_step(
            seen.entry,
            step,
            VisitReply::Built { item: seen.item, path: seen.path },
            difference,
            separator,
        ),
    }
}

/// The step that a visit ends with, on a platform with the given separator.
pub open spec fn last_step(seen: Sighting, separator: char) -> VisitStep<Seq<char>> {
    let remainder = path_remainder(seen.entry.path, seen.entry.base, separator);
    let first = first_step(seen.entry, remainder, separator);
    step_on(seen, step_on(seen, first, separator), separator)
}

/// What a walk finds at the entries that it comes to.
pub open spec fn finds_of(seen: Seq<Sighting>, separator: char) -> Seq<Found<Seq<char>>> {
    seen.map_values(|s: Sighting| last_step(s, separator)->found)
}

/// A visit ends with a find, after two replies at most.
pub proof fn visit_ends_with_find(seen: Sighting, separator: char)
    ensures
        last_step(seen, separator) is Done,
{
}

/// The same entries in another order give the same finds in another order.
proof fn finds_in_another_order(seen: Seq<Sighting>, others: Seq<Sighting>, separator: char)
    requires
        seen.to_multiset() == others.to_multiset(),
    ensures
        finds_of(seen, separator).to_multiset() == finds_of(others, separator).to_multiset(),
    decreases seen.len(),
{
    seen.to_multiset_ensures();
    others.to_multiset_ensures();
    if seen.len() == 0 {
        assert(seen =~= others);
    } else {
        let last = seen.last();
        let init = seen.drop_last();
        assert(seen =~= init.push(last));
        init.to_multiset_ensures();
        assert(seen[seen.len() - 1] == last);
        assert(seen.to_multiset().count(last) > 0);
        assert(others.contains(last));
        let at = choose|i: int| 0 <= i < others.len() && others[i] == last;
        let rest = others.remove(at);
        assert(init.to_multiset() =~= rest.to_multiset());
        finds_in_another_order(init, rest, separator);
        let found = last_step(last, separator)->found;
        let finds = finds_of(seen, separator);
        let other_finds = finds_of(others, separator);
        assert(finds =~= finds_of(init, separator).push(found));
        finds_of(init, separator).to_multiset_ensures();
        assert(other_finds.remove(at) =~= finds_of(rest, separator));
        assert(other_finds[at] == found);
        other_finds.to_multiset_ensures();
        assert(other_finds.contains(found));
        assert(finds.to_multiset() =~= finds_of(init, separator).to_multiset().insert(found));
        assert(other_finds.to_multiset() =~= finds_of(rest, separator).to_multiset().insert(
            found,
        ));
    }
}

/// Two walks that come to the same entries, in whatever order and on however
/// many threads, and find out the same about them, collect the same items, with
/// the same flags and paths, the same directories and the same count.
pub proof fn walks_of_same_entries_agree(
    seen: Seq<Sighting>,
    others: Seq<Sighting>,
    separator: char,
)
    requires
        seen.to_multiset() == others.to_multiset(),
    ensures
        ({
            let finds = finds_of(seen, separator);
            let other_finds = finds_of(others, separator);
            &&& items_of(finds).to_multiset() == items_of(other_finds).to_multiset()
            &&& directories_of(finds).to_multiset() == directories_of(other_finds).to_multiset()
            &&& items_of(finds).len() == items_of(other_finds).len()
        }),
{
    finds_in_another_order(seen, others, separator);
    order_of_finds_is_irrelevant(finds_of(seen, separator), finds_of(others, separator));
}

/// What is taken at which depth: outside git's own files a regular file is
/// indexed and a link is looked at wherever it lies, a directory is listed
/// everywhere but at the base, and nothing else is taken.
pub proof fn depth_matters_for_base_alone(kind: EntryKind, in_git: bool, depth: nat)
    ensures
        ({
            let step = entry_step(kind, in_git, depth);
            &&& step == EntryStep::IndexFile <==> kind is File && !in_git
            &&& step == EntryStep::StatTarget <==> kind is Symlink && !in_git
            &&& step == EntryStep::ListDirectory <==> kind is Directory && !in_git && depth > 0
            &&& step == EntryStep::Skip <==> in_git || kind is Other || (kind is Directory && depth
                == 0)
        }),
{
}

/// A visit does with an entry what its kind asks for. A directory that is
/// listed is found at what is left of its path, with forward slashes and one at
/// its end, if and only if it lies below the base.
pub proof fn visit_begins_by_kind(
    entry: WalkedEntry<Seq<char>>,
    remainder: Option<Seq<char>>,
    separator: char,
)
    ensures
        ({
            let first = first_step(entry, remainder, separator);
            let listed = entry.kind is Directory && !entry.in_git && entry.depth > 0;
            &&& first is StatTarget <==> entry.kind is Symlink && !entry.in_git
            &&& first is BuildFile <==> entry.kind is File && !entry.in_git
            &&& listed && remainder is Some ==> first == (VisitStep::Done {
                found: Found::Directory { path: slashed(remainder->0, separator) + seq!['/'] },
            })
            &&& !(entry.kind is Symlink || entry.kind is File) || entry.in_git ==> (!(listed
                && remainder is Some) <==> first == (VisitStep::Done {
                found: Found::<Seq<char>>::Nothing,
            }))
        }),
{
    if let Some(rel) = remainder {
        assert(slashed(rel, separator).push('/') =~= slashed(rel, separator) + seq!['/']);
    }
}

/// A link is found by the type of its target: nothing for one that dangles; for
/// a directory the path of the link with a slash at its end, in an item that
/// is marked as a linked directory, is empty and unchanged since the epoch, and
/// whose name begins behind the path, counted in 16 bits; and for a file the
/// item that is made for it with the size and the time of its target, or the
/// epoch where that is not known.
pub proof fn link_is_found_by_target(
    entry: WalkedEntry<Seq<char>>,
    target: LinkTarget,
    difference: Option<Seq<char>>,
    separator: char,
)
    ensures
        ({
            let rel = match difference {
                Some(rel) => slashed(rel, separator),
                None => slashed(entry.path, separator),
            };
            let next = next_step(
                entry,
                VisitStep::StatTarget,
                VisitReply::Target { target },
                difference,
                separator,
            );
            match target {
                LinkTarget::Dangling => next == (VisitStep::Done {
                    found: Found::<Seq<char>>::Nothing,
                }),
                LinkTarget::Directory => next matches VisitStep::Done {
                    found: Found::Item { item, path },
                } && {
                    &&& path == rel + seq!['/']
                    &&& item.symlink_dir && !item.symlink && !item.binary
                    &&& item.size == 0 && item.modified == 0
                    &&& item.name_offset == encode_utf8(path).len() % 65536
                },
                LinkTarget::File { size, modified } => next == (VisitStep::BuildLinkedFile {
                    path: rel,
                    size,
                    modified: if modified is Some {
                        modified->0
                    } else {
                        0
                    },
                }),
            }
        }),
{
    let rel = relative_to(entry.path, difference, separator);
    assert(rel.push('/') =~= rel + seq!['/']);
}

/// A file is found as the item that was made for it, at its path. One that a
/// link points to is found at the path of the link, and marked as linked; all
/// else of its item is kept.
pub proof fn built_file_is_found(
    entry: WalkedEntry<Seq<char>>,
    step: VisitStep<Seq<char>>,
    built: FileItem,
    at: Seq<char>,
    difference: Option<Seq<char>>,
    separator: char,
)
    requires
        step is BuildFile || step is BuildLinkedFile,
    ensures
        ({
            let next = next_step(
                entry,
                step,
                VisitReply::Built { item: built, path: at },
                difference,
                separator,
            );
            &&& step is BuildFile ==> next == (VisitStep::Done {
                found: Found::Item { item: built, path: at },
            })
            &&& step is BuildLinkedFile ==> next == (VisitStep::Done {
                found: Found::Item {
                    item: FileItem {
                        name_offset: built.name_offset,
                        size: built.size,
                        modified: built.modified,
                        binary: built.binary,
                        symlink: true,
                        symlink_dir: built.symlink_dir,
                    },
                    path: step->path,
                },
            })
        }),
{
}

/// A visit takes what its step asks for: any target of a link, and any item
/// that is no marker of a linked directory.
pub proof fn every_reply_is_taken(step: VisitStep<Seq<char>>, reply: VisitReply<Seq<char>>)
    ensures
        step is StatTarget && reply is Target ==> answers(step, reply),
        (step is BuildFile || step is BuildLinkedFile) && reply is Built
            && !reply->item.symlink_dir ==> answers(step, reply),
{
}

/// What was found is added behind what was found before, an item to the items
/// and a directory to the directories, and nothing else changes. Any find but a
/// directory can be collected, and so can any directory that ends in a slash.
pub proof fn finds_are_added(
    items: Seq<(FileItem, Seq<char>)>,
    dirs: Seq<Seq<char>>,
    item: FileItem,
    path: Seq<char>,
)
    ensures
        with_item(items, Found::Item { item, path }) == items + seq![(item, path)],
        with_item(items, Found::Directory { path }) == items,
        with_item(items, Found::<Seq<char>>::Nothing) == items,
        with_directory(dirs, Found::Directory { path }) == dirs + seq![path],
        with_directory(dirs, Found::Item { item, path }) == dirs,
        with_directory(dirs, Found::<Seq<char>>::Nothing) == dirs,
        is_collectable(Found::<Seq<char>>::Nothing),
        !item.symlink_dir ==> is_collectable(Found::Item { item, path }),
        is_collectable(Found::Directory { path: path + seq!['/'] }),
        is_collectable(
            Found::Item { item: directory_marker(path + seq!['/']), path: path + seq!['/'] },
        ),
{
    assert(items.push((item, path)) =~= items + seq![(item, path)]);
    assert(dirs.push(path) =~= dirs + seq![path]);
    assert((path + seq!['/']).last() == '/');
}

/// A walk respects every kind of ignore file, leaves hidden files out, follows
/// links and runs on threads as it is told to, and prunes directories without
/// code if and only if it is not in a git repository.
pub proof fn walk_is_set_up_as_told(is_git_repo: bool, follow_symlinks: bool, threads: usize)
    ensures
        ({
            let options = walk_setup(is_git_repo, follow_symlinks, threads);
            &&& options.hidden && options.git_ignore && options.git_exclude && options.git_global
                && options.ignore
            &&& options.follow_links == follow_symlinks
            &&& options.threads == threads
            &&& options.prune_non_code <==> !is_git_repo
        }),
{
}

/// How a link is indexed and what is seen of entries, steps, replies and
/// collected items is what they hold.
pub proof fn contents_are_seen(
    entry: WalkedEntry,
    found: Found,
    step: VisitStep,
    reply: VisitReply,
    link: LinkStep<String>,
    pairs: Seq<(FileItem, String)>,
)
    ensures
        entry@.path == entry.path@,
        entry@.base == entry.base@,
        entry@.kind == entry.kind,
        entry@.in_git == entry.in_git,
        entry@.depth == entry.depth,
        (match found {
            Found::Nothing => found@ == Found::<Seq<char>>::Nothing,
            Found::Item { item, path } => found@ == (Found::Item { item, path: path@ }),
            Found::Directory { path } => found@ == (Found::Directory { path: path@ }),
        }),
        (match step {
            VisitStep::StatTarget => step@ == VisitStep::<Seq<char>>::StatTarget,
            VisitStep::BuildFile => step@ == VisitStep::<Seq<char>>::BuildFile,
            VisitStep::BuildLinkedFile { path, size, modified } => step@ == (
            VisitStep::BuildLinkedFile { path: path@, size, modified }),
            VisitStep::Done { found: inner } => step@ == (VisitStep::Done { found: inner@ }),
        }),
        (match reply {
            VisitReply::Target { target } => reply@ == (VisitReply::<Seq<char>>::Target {
                target,
            }),
            VisitReply::Built { item, path } => reply@ == (VisitReply::Built {
                item,
                path: path@,
            }),
        }),
        (match link {
            LinkStep::Skip => link@ == LinkStep::<Seq<char>>::Skip,
            LinkStep::Directory { path } => link@ == (LinkStep::Directory { path: path@ }),
            LinkStep::File { path, size, modified } => link@ == (LinkStep::File {
                path: path@,
                size,
                modified,
            }),
        }),
        pair_views(pairs).len() == pairs.len(),
        forall|i: int|
            0 <= i < pairs.len() ==> #[trigger] pair_views(pairs)[i] == (pairs[i].0, pairs[i].1@),
{
}

/// The link at a path is left out where it dangles, and is otherwise indexed
/// at that path, by the type of its target.
pub proof fn link_keeps_its_path(path: Seq<char>, size: u64, modified: u64)
    ensures
        link_step(path, LinkTarget::Dangling) == LinkStep::<Seq<char>>::Skip,
        link_step(path, LinkTarget::Directory) == (LinkStep::Directory { path }),
        link_step(path, LinkTarget::File { size, modified: Some(modified) }) == (LinkStep::File {
            path,
            size,
            modified,
        }),
        link_step(path, LinkTarget::File { size, modified: None }) == (LinkStep::File {
            path,
            size,
            modified: 0,
        }),
{
}

/// What a walk has collected is all that it holds, in order: each directory and
/// the path of each linked one ends in a slash, and no ignore rules are handed
/// out.
pub proof fn output_is_seen(out: WalkOutput, i: int)
    requires
        out.well_formed(),
    ensures
        out.items().len() == out.pairs@.len(),
        0 <= i < out.pairs@.len() ==> out.items()[i] == (out.pairs@[i].0, out.pairs@[i].1@),
        out.directories().len() == out.dirs@.len(),
        0 <= i < out.dirs@.len() ==> out.directories()[i] == out.dirs@[i]@,
        0 <= i < out.dirs@.len() ==> out.dirs@[i]@.len() > 0 && out.dirs@[i]@.last() == '/',
        0 <= i < out.pairs@.len() && out.pairs@[i].0.symlink_dir ==> out.pairs@[i].1@.len() > 0
            && out.pairs@[i].1@.last() == '/',
        out.ignore_rules is None,
{
    if 0 <= i < out.dirs@.len() {
        assert(ends_in_slash(out.directories()[i]));
    }
    if 0 <= i < out.pairs@.len() {
        assert(out.items()[i] == (out.pairs@[i].0, out.pairs@[i].1@));
    }
}

} // verus!

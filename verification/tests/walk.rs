use fff_mcp::paths::{
    directory_from_remainder, relative_directory, relative_from_difference, relative_path,
    to_canonical_slashes,
};
use fff_mcp::walk::{
    EntryKind, EntryStep, FileItem, Found, LinkStep, LinkTarget, Visit, VisitReply, VisitStep,
    WalkOptions, WalkOutput, WalkedEntry, classify_entry, classify_link, walk_options,
};

#[test]
fn walkers_skip_hidden_files_everywhere() {
    let inside = walk_options(true, false, 4);
    assert!(inside.hidden && !inside.prune_non_code && !inside.follow_links);
    assert!(inside.git_ignore && inside.git_exclude && inside.git_global && inside.ignore);
    assert_eq!(inside.threads, 4);
    assert_eq!(walk_options(true, false, 8), WalkOptions { threads: 8, ..inside });
    let outside = walk_options(false, true, 1);
    assert!(outside.hidden && outside.prune_non_code && outside.follow_links);
}

#[test]
fn order_of_finds_is_irrelevant() {
    let finds = || {
        vec![
            found(link("/base/link_dir", LinkTarget::Directory)),
            found(Visit::new(entry("/base/real_dir", EntryKind::Directory))),
            Found::Item { item: FileItem::new_raw(0, 1, 2, false), path: "a".to_string() },
            found(Visit::new(entry("/base/other_dir", EntryKind::Directory))),
            found(link("/base/gone", LinkTarget::Dangling)),
        ]
    };
    let collect = |finds: Vec<Found>| {
        let mut out = WalkOutput::new();
        let mut counter = 0;
        for find in finds {
            counter += out.collect(find);
        }
        let mut paths: Vec<String> = out.pairs.into_iter().map(|(_, path)| path).collect();
        paths.sort();
        out.dirs.sort();
        (paths, out.dirs, counter)
    };
    let mut reversed = finds();
    reversed.reverse();
    assert_eq!(collect(finds()), collect(reversed));
    assert_eq!(collect(finds()).2, 2);
}

#[test]
fn entries_are_classified() {
    assert_eq!(classify_entry(EntryKind::File, false, 1), EntryStep::IndexFile);
    assert_eq!(classify_entry(EntryKind::Symlink, false, 1), EntryStep::StatTarget);
    assert_eq!(classify_entry(EntryKind::Directory, false, 1), EntryStep::ListDirectory);
    assert_eq!(classify_entry(EntryKind::Directory, false, 0), EntryStep::Skip);
    assert_eq!(classify_entry(EntryKind::Other, false, 1), EntryStep::Skip);
    for kind in [EntryKind::File, EntryKind::Symlink, EntryKind::Directory, EntryKind::Other] {
        assert_eq!(classify_entry(kind, true, 2), EntryStep::Skip);
    }
}

#[test]
fn paths_become_relative() {
    assert_eq!(relative_path("/base/dir/link.txt", "/base"), "dir/link.txt");
    assert_eq!(relative_path("base/link.txt", "base"), "link.txt");
    assert_eq!(relative_path("/other/file", "/base"), "../other/file");
    assert_eq!(relative_path("/etc", "/"), "etc");
    assert_eq!(relative_path("/base/a/b", "/base/"), "a/b");
    assert_eq!(relative_path("a/b", ""), "a/b");
    assert_eq!(relative_directory("/etc", "/").as_deref(), Some("etc/"));
    assert_eq!(relative_directory("/base/a/b", "/base/").as_deref(), Some("a/b/"));
    assert_eq!(relative_directory("a/b", "").as_deref(), Some("a/b/"));
    assert_eq!(relative_path("rel/file", "/base"), "rel/file");
    assert_eq!(relative_directory("/base/dir/sub", "/base").as_deref(), Some("dir/sub/"));
    assert_eq!(relative_directory("/other", "/base"), None);
    assert_eq!(to_canonical_slashes("a\\b/c", '\\'), "a/b/c");
    assert_eq!(to_canonical_slashes("a\\b/c", '/'), "a\\b/c");
    assert_eq!(relative_from_difference("p", None, '/'), "p");
    assert_eq!(relative_from_difference("p", Some("q\\r".to_string()), '\\'), "q/r");
    assert_eq!(directory_from_remainder(None, '/'), None);
    assert_eq!(directory_from_remainder(Some("d".to_string()), '/').as_deref(), Some("d/"));
}

#[test]
fn paths_follow_the_syntax_of_the_platform() {
    if std::path::MAIN_SEPARATOR == '/' {
        for (path, base) in [
            ("/base/a:b/c\\d", "/base"),
            ("//base/a:b/c\\d", "//base/"),
            ("C:\\base/a:b/c\\d", "C:\\base"),
            ("base/./a:b/c\\d", "base/."),
            ("../a:b/c\\d", ".."),
            ("a//b/a:b/c\\d", "a//b"),
            ("./a:b/c\\d", "."),
            ("a:b/c\\d", ""),
        ] {
            assert_eq!(relative_path(path, base), "a:b/c\\d");
            assert_eq!(relative_directory(path, base).as_deref(), Some("a:b/c\\d/"));
        }
    } else {
        for (path, base) in [("C:\\base\\a\\b", "C:\\base"), ("C:\\a\\b", "C:\\"), ("a\\b", "")] {
            assert_eq!(relative_path(path, base), "a/b");
            assert_eq!(relative_directory(path, base).as_deref(), Some("a/b/"));
        }
    }
}

fn entry(path: &str, kind: EntryKind) -> WalkedEntry {
    WalkedEntry {
        path: path.to_string(),
        base: "/base".to_string(),
        kind,
        in_git: false,
        depth: 1,
    }
}

fn link(path: &str, target: LinkTarget) -> Visit {
    let visit = Visit::new(entry(path, EntryKind::Symlink));
    assert!(matches!(visit.step, VisitStep::StatTarget));
    visit.advance(VisitReply::Target { target })
}

fn found(visit: Visit) -> Found {
    match visit.step {
        VisitStep::Done { found } => found,
        other => panic!("{other:?}"),
    }
}

#[test]
fn links_are_resolved_by_their_targets() {
    assert!(matches!(found(link("/base/link", LinkTarget::Dangling)), Found::Nothing));
    match found(link("/base/d/link", LinkTarget::Directory)) {
        Found::Item { item, path } => {
            assert_eq!(path, "d/link/");
            assert!(item.is_symlink_dir());
            assert!(!item.is_symlink());
            assert_eq!((item.name_offset, item.size, item.modified), (7, 0, 0));
        }
        other => panic!("{other:?}"),
    }
    let visit = link("/base/link.txt", LinkTarget::File { size: 3, modified: None });
    match &visit.step {
        VisitStep::BuildLinkedFile { path, size, modified } => {
            assert_eq!((path.as_str(), *size, *modified), ("link.txt", 3, 0))
        }
        other => panic!("{other:?}"),
    }
    let built = VisitReply::Built {
        item: FileItem::new_raw(0, 3, 0, false),
        path: "elsewhere".to_string(),
    };
    match found(visit.advance(built)) {
        Found::Item { item, path } => {
            assert_eq!(path, "link.txt");
            assert!(item.is_symlink() && !item.is_symlink_dir());
            assert_eq!(item.size, 3);
        }
        other => panic!("{other:?}"),
    }
    let target = LinkTarget::File { size: 0, modified: Some(8) };
    match classify_link("x".to_string(), target) {
        LinkStep::File { modified, .. } => assert_eq!(modified, 8),
        other => panic!("{other:?}"),
    }
    assert!(matches!(
        Visit::link_found("x".to_string(), LinkTarget::Dangling),
        VisitStep::Done { found: Found::Nothing }
    ));
}

#[test]
fn files_and_directories_are_visited() {
    let visit = Visit::new(entry("/base/src/main.rs", EntryKind::File));
    assert!(matches!(visit.step, VisitStep::BuildFile));
    let item = FileItem::new_raw(4, 10, 20, true);
    match found(visit.advance(VisitReply::Built { item, path: "src/main.rs".to_string() })) {
        Found::Item { item: indexed, path } => {
            assert_eq!(path, "src/main.rs");
            assert_eq!(indexed, item);
        }
        other => panic!("{other:?}"),
    }
    match found(Visit::new(entry("/base/real_dir", EntryKind::Directory))) {
        Found::Directory { path } => assert_eq!(path, "real_dir/"),
        other => panic!("{other:?}"),
    }
    for skipped in [
        WalkedEntry { depth: 0, ..entry("/base", EntryKind::Directory) },
        entry("/elsewhere/dir", EntryKind::Directory),
        WalkedEntry { in_git: true, ..entry("/base/.git/HEAD", EntryKind::File) },
        WalkedEntry { in_git: true, ..entry("/base/.git/link", EntryKind::Symlink) },
        entry("/base/socket", EntryKind::Other),
    ] {
        assert!(matches!(found(Visit::new(skipped)), Found::Nothing));
    }
}

#[test]
fn output_counts_what_it_indexes() {
    let mut out = WalkOutput::new();
    let mut counter = 0;
    let item = FileItem::new_raw(4, 10, 20, true);
    assert!(!item.is_symlink() && !item.is_symlink_dir());
    counter += out.collect(Found::Item { item, path: "src/main.rs".to_string() });
    counter += out.collect(found(link("/base/link_dir", LinkTarget::Directory)));
    counter += out.collect(found(link("/base/gone", LinkTarget::Dangling)));
    counter += out.collect(found(Visit::new(entry("/base/real_dir", EntryKind::Directory))));

    assert_eq!(counter, 2);
    assert_eq!(counter, out.pairs.len());
    assert_eq!(out.dirs, vec!["real_dir/"]);
    assert!(out.ignore_rules.is_none());
    assert_eq!(out.pairs[0].1, "src/main.rs");
    assert_eq!(out.pairs[0].0, item);
    assert_eq!(out.pairs[1].1, "link_dir/");
    assert!(out.pairs[1].0.is_symlink_dir());
}

#[test]
fn marker_offsets_wrap_at_sixteen_bits() {
    match Visit::link_found("é".repeat(40_000), LinkTarget::Directory) {
        VisitStep::Done { found: Found::Item { item, .. } } => {
            assert_eq!(item.name_offset, 80_001usize as u16)
        }
        other => panic!("{other:?}"),
    }
}

use std::sync::Arc;

use shared_kit::file_system::copy_with_replace;
use shared_kit::file_transform_pipe::{
    filter_file_middleware, replace_file_middleware, FileTransformPipe,
};
use shared_kit::filter::PatternSpec;
use shared_kit::matcher::MatcherError;
use shared_kit::matcher_group::{MatcherGroup, ResolvedVar};
use shared_kit::transform::{
    copy_directory_with_transform, pre_count_files, FileError, FileTransformKind, FixedVerdict,
    FsNode,
};

fn file(content: &str) -> FsNode {
    FsNode::File { content: content.to_string() }
}

fn dir(entries: Vec<(&str, FsNode)>) -> FsNode {
    FsNode::Dir {
        entries: entries.into_iter().map(|(n, v)| (n.to_string(), v)).collect(),
    }
}

fn globs(patterns: Vec<&str>) -> Vec<PatternSpec> {
    PatternSpec::from_option_vec(Some(patterns.into_iter().map(|p| p.to_string()).collect()))
}

#[test]
fn test_pre_count_files_empty() {
    assert_eq!(pre_count_files(&dir(vec![])), 0);
}

#[test]
fn test_pre_count_files_nested() {
    let tree = dir(vec![("a.txt", file("a")), ("sub", dir(vec![("b.txt", file("b"))]))]);
    assert_eq!(pre_count_files(&tree), 2);
}

#[test]
fn test_count_files() {
    let tree = dir(vec![
        ("file1.txt", file("content")),
        ("file2.txt", file("content")),
        ("sub_dir", dir(vec![("file3.txt", file("content"))])),
    ]);
    assert_eq!(pre_count_files(&tree), 3);
}

#[test]
fn test_empty_directory() {
    assert_eq!(pre_count_files(&dir(vec![])), 0);
}

#[test]
fn test_copy_with_replace_replace() {
    let handler = FixedVerdict { verdict: FileTransformKind::Transform("replaced".to_string()) };
    let r = copy_with_replace(
        &"origin.txt".to_string(),
        &"target.txt".to_string(),
        &"original".to_string(),
        Some(&handler),
    );
    assert_eq!(r, Some(("target.txt".to_string(), "replaced".to_string())));
}

#[test]
fn test_copy_with_replace_skip() {
    let handler = FixedVerdict { verdict: FileTransformKind::Skip };
    let r = copy_with_replace(
        &"origin.txt".to_string(),
        &"target.txt".to_string(),
        &"original".to_string(),
        Some(&handler),
    );
    assert!(r.is_none());
}

#[test]
fn test_copy_with_replace_rename() {
    let handler = FixedVerdict { verdict: FileTransformKind::Rename("renamed.txt".to_string()) };
    let r = copy_with_replace(
        &"dir/origin.txt".to_string(),
        &"dir/target.txt".to_string(),
        &"original".to_string(),
        Some(&handler),
    );
    assert_eq!(r, Some(("dir/renamed.txt".to_string(), "original".to_string())));
}

#[test]
fn test_copy_with_replace_overwrite() {
    let handler = FixedVerdict {
        verdict: FileTransformKind::Overwrite {
            new_content: "overwritten".to_string(),
            new_name: "renamed.txt".to_string(),
        },
    };
    let r = copy_with_replace(
        &"dir/origin.txt".to_string(),
        &"dir/target.txt".to_string(),
        &"original".to_string(),
        Some(&handler),
    );
    assert_eq!(r, Some(("dir/renamed.txt".to_string(), "overwritten".to_string())));
}

#[test]
fn test_copy_with_replace_no_callback() {
    let r = copy_with_replace::<FixedVerdict>(
        &"origin.txt".to_string(),
        &"target.txt".to_string(),
        &"original".to_string(),
        None,
    );
    assert_eq!(r, Some(("target.txt".to_string(), "original".to_string())));
}

#[test]
fn test_copy_directory_with_transform() {
    let tree = dir(vec![("file1.txt", file("content1")), ("file2.txt", file("content2"))]);
    let out = copy_directory_with_transform::<FixedVerdict>(
        &"origin".to_string(),
        &"target".to_string(),
        &tree,
        None,
    )
    .unwrap();
    assert!(out.files.contains(&("target/file1.txt".to_string(), "content1".to_string())));
    assert!(out.files.contains(&("target/file2.txt".to_string(), "content2".to_string())));
}

#[test]
fn test_copy_directory_with_replace_basic() {
    let tree = dir(vec![("a.txt", file("foo")), ("nested", dir(vec![("b.txt", file("bar"))]))]);
    let handler = FixedVerdict { verdict: FileTransformKind::Transform("baz".to_string()) };
    let out = copy_directory_with_transform(
        &"src".to_string(),
        &"dst".to_string(),
        &tree,
        Some(&handler),
    )
    .unwrap();
    assert_eq!(
        out.files,
        vec![
            ("dst/a.txt".to_string(), "baz".to_string()),
            ("dst/nested/b.txt".to_string(), "baz".to_string()),
        ]
    );
}

#[test]
fn test_copy_directory_with_replace_invalid_source() {
    let not_a_dir = file("invalid");
    let r = copy_directory_with_transform::<FixedVerdict>(
        &"not_a_dir.txt".to_string(),
        &"out".to_string(),
        &not_a_dir,
        None,
    );
    assert_eq!(r.unwrap_err(), FileError::NotDirectory("not_a_dir.txt".to_string()));
}

#[test]
fn test_copy_directory_empty() {
    let out = copy_directory_with_transform::<FixedVerdict>(
        &"empty_origin".to_string(),
        &"empty_target".to_string(),
        &dir(vec![]),
        None,
    )
    .unwrap();
    assert!(out.files.is_empty());
    assert_eq!(out.dirs, vec!["empty_target".to_string()]);
    assert_eq!(out.count, 0);
}

#[test]
fn test_copy_directory_with_replace_creates_target_dirs() {
    let tree = dir(vec![("a.txt", file("foo"))]);
    let out = copy_directory_with_transform::<FixedVerdict>(
        &"src".to_string(),
        &"dst/nested/dir".to_string(),
        &tree,
        None,
    )
    .unwrap();
    assert_eq!(out.files, vec![("dst/nested/dir/a.txt".to_string(), "foo".to_string())]);
}

#[test]
fn test_round_trip_reproduces_source() {
    let tree = dir(vec![
        ("a.txt", file("alpha")),
        ("sub", dir(vec![("b.txt", file("beta")), ("hollow", dir(vec![]))])),
    ]);
    let out = copy_directory_with_transform::<FixedVerdict>(
        &"src".to_string(),
        &"dst".to_string(),
        &tree,
        None,
    )
    .unwrap();
    assert_eq!(
        out.files,
        vec![
            ("dst/a.txt".to_string(), "alpha".to_string()),
            ("dst/sub/b.txt".to_string(), "beta".to_string()),
        ]
    );
    assert_eq!(out.dirs, vec!["dst/sub/hollow".to_string()]);
    assert_eq!(out.count, 2);
}

#[test]
fn test_filter_all_excluded_yields_empty_tree() {
    let group = MatcherGroup::from_resolved(globs(vec!["**"]), globs(vec!["**"]), vec![]).unwrap();
    let group = Arc::new(group);
    let handler = FileTransformPipe::new()
        .add(filter_file_middleware(Arc::clone(&group), "src".to_string()))
        .finalize();
    let tree = dir(vec![("a.txt", file("alpha")), ("sub", dir(vec![("b.txt", file("beta"))]))]);
    let out = copy_directory_with_transform(
        &"src".to_string(),
        &"dst".to_string(),
        &tree,
        Some(&handler),
    )
    .unwrap();
    assert!(out.files.is_empty());
    assert_eq!(out.count, 0);
}

#[test]
fn test_scenario_variable_replacement() {
    let vars = vec![ResolvedVar {
        placeholder: "{{name}}".to_string(),
        replacement: "world".to_string(),
        includes: globs(vec!["*.txt"]),
        excludes: vec![],
    }];
    let group = Arc::new(
        MatcherGroup::from_resolved(globs(vec!["**"]), vec![], vars).unwrap(),
    );
    let handler = FileTransformPipe::new()
        .add(filter_file_middleware(Arc::clone(&group), "tpl".to_string()))
        .add(replace_file_middleware(Arc::clone(&group), "tpl".to_string()))
        .finalize();
    let tree = dir(vec![("a.txt", file("hello {{name}}"))]);
    let out = copy_directory_with_transform(
        &"tpl".to_string(),
        &"out".to_string(),
        &tree,
        Some(&handler),
    )
    .unwrap();
    assert_eq!(out.files, vec![("out/a.txt".to_string(), "hello world".to_string())]);
}

#[test]
fn test_scenario_global_exclude() {
    let group = Arc::new(
        MatcherGroup::from_resolved(globs(vec!["**"]), globs(vec!["secret.key"]), vec![]).unwrap(),
    );
    let handler = FileTransformPipe::new()
        .add(filter_file_middleware(Arc::clone(&group), "tpl".to_string()))
        .add(replace_file_middleware(Arc::clone(&group), "tpl".to_string()))
        .finalize();
    let tree = dir(vec![("secret.key", file("x")), ("note.txt", file("y"))]);
    let out = copy_directory_with_transform(
        &"tpl".to_string(),
        &"out".to_string(),
        &tree,
        Some(&handler),
    )
    .unwrap();
    assert_eq!(out.files, vec![("out/note.txt".to_string(), "y".to_string())]);
    assert_eq!(out.count, 1);
}

#[test]
fn test_scenario_malformed_pattern_fails_fast() {
    let r = MatcherGroup::from_resolved(globs(vec!["regex:("]), vec![], vec![]);
    match r {
        Err(MatcherError::NewRegex { value }) => assert_eq!(value, "("),
        other => panic!("expected a regex error, got {:?}", other),
    }
}

#[test]
fn test_apply_content_is_order_dependent() {
    let vars = vec![
        ResolvedVar {
            placeholder: "{{a}}".to_string(),
            replacement: "{{b}}x".to_string(),
            includes: vec![],
            excludes: vec![],
        },
        ResolvedVar {
            placeholder: "{{b}}".to_string(),
            replacement: "Y".to_string(),
            includes: vec![],
            excludes: vec![],
        },
    ];
    let group = MatcherGroup::from_resolved(vec![], vec![], vars).unwrap();
    let result = group.apply_var_replacements("{{a}} {{b}}", "any.txt");
    assert_eq!(result, "Yx Y");
}

#[test]
fn test_matched_vars_follow_registration_order() {
    let vars = vec![
        ResolvedVar {
            placeholder: "one".to_string(),
            replacement: "1".to_string(),
            includes: globs(vec!["*.txt"]),
            excludes: vec![],
        },
        ResolvedVar {
            placeholder: "two".to_string(),
            replacement: "2".to_string(),
            includes: globs(vec!["*.md"]),
            excludes: vec![],
        },
        ResolvedVar {
            placeholder: "three".to_string(),
            replacement: "3".to_string(),
            includes: vec![],
            excludes: vec![],
        },
    ];
    let group = MatcherGroup::from_resolved(vec![], vec![], vars).unwrap();
    assert_eq!(group.matched_vars_for_path("a.txt"), vec!["one".to_string(), "three".to_string()]);
    assert_eq!(group.matched_vars_for_path("b.md"), vec!["two".to_string(), "three".to_string()]);
}

#[test]
fn test_filter_matched_paths_keeps_order() {
    let group = MatcherGroup::from_resolved(globs(vec!["*.txt"]), vec![], vec![]).unwrap();
    let files = vec!["a.txt".to_string(), "b.rs".to_string(), "c.txt".to_string()];
    assert_eq!(
        group.filter_matched_paths(&files),
        vec!["a.txt".to_string(), "c.txt".to_string()]
    );
}

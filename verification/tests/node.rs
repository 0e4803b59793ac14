use std::cmp::Ordering;

use project_tree::collate::{CodepointCollator, Collator};
use project_tree::project::{NodeError, ProjectNode};

fn folder(name: &str) -> ProjectNode {
    ProjectNode::Folder {
        name: name.to_string(),
        path: format!("/tmp/{}", name).into_bytes(),
        open: false,
        root: false,
    }
}

fn file(name: &str) -> ProjectNode {
    ProjectNode::File { name: name.to_string(), path: format!("/tmp/{}", name).into_bytes() }
}

#[test]
fn constructing_over_directory_yields_closed_folder() {
    let node = ProjectNode::new(b"/home/user/project".to_vec(), true).unwrap();
    match node {
        ProjectNode::Folder { name, path, open, root } => {
            assert_eq!(name, "project");
            assert_eq!(path, b"/home/user/project".to_vec());
            assert!(!open);
            assert!(!root);
        }
        ProjectNode::File { .. } => panic!("expected a folder"),
    }
}

#[test]
fn constructing_over_file_yields_file() {
    let node = ProjectNode::new(b"/home/user/project/readme.txt".to_vec(), false).unwrap();
    match node {
        ProjectNode::File { name, path } => {
            assert_eq!(name, "readme.txt");
            assert_eq!(path, b"/home/user/project/readme.txt".to_vec());
        }
        ProjectNode::Folder { .. } => panic!("expected a file"),
    }
}

#[test]
fn name_is_final_component_of_canonical_path() {
    let node = ProjectNode::new(b"/docs/readme.txt".to_vec(), false).unwrap();
    assert_eq!(node.name(), "readme.txt");
}

#[test]
fn name_without_any_separator_is_whole_path() {
    let node = ProjectNode::new(b"notes.md".to_vec(), false).unwrap();
    assert_eq!(node.name(), "notes.md");
}

#[test]
fn multibyte_name_is_decoded_not_copied_bytewise() {
    // "h\u{e9}llo" is six bytes of UTF-8 but five characters.
    let node = ProjectNode::new(b"/tmp/h\xc3\xa9llo".to_vec(), false).unwrap();
    assert_eq!(node.name(), "h\u{e9}llo");
    assert_eq!(node.name().chars().count(), 5);
    assert_eq!(node.name().len(), 6);
}

#[test]
fn filesystem_root_has_no_file_name() {
    let err = ProjectNode::new(b"/".to_vec(), true).unwrap_err();
    assert_eq!(err, NodeError::NoFileName);
    assert_eq!(err.message(), "path has no file name");
}

#[test]
fn empty_path_has_no_file_name() {
    let err = ProjectNode::new(Vec::new(), false).unwrap_err();
    assert_eq!(err, NodeError::NoFileName);
}

#[test]
fn undecodable_final_component_is_invalid() {
    let err = ProjectNode::new(vec![47, 116, 109, 112, 47, 0xff, 0xfe], false).unwrap_err();
    assert_eq!(err, NodeError::InvalidUtf8);
    assert_eq!(err.message(), "path is not valid UTF-8");
}

#[test]
fn truncated_multibyte_component_is_invalid() {
    // 0xc3 opens a two-byte encoding that never ends.
    let err = ProjectNode::new(vec![47, 97, 47, 98, 0xc3], true).unwrap_err();
    assert_eq!(err, NodeError::InvalidUtf8);
}

#[test]
fn fresh_folder_shows_collapsed_indicator() {
    let node = ProjectNode::new(b"/home/user/project".to_vec(), true).unwrap();
    let icon = node.icon(16).unwrap();
    assert_eq!(icon.name, "go-next-symbolic");
    assert_eq!(icon.size, 16);
}

#[test]
fn opened_folder_shows_expanded_indicator() {
    let mut node = ProjectNode::new(b"/home/user/project".to_vec(), true).unwrap();
    if let ProjectNode::Folder { ref mut open, .. } = node {
        *open = true;
    }
    let icon = node.icon(24).unwrap();
    assert_eq!(icon.name, "go-down-symbolic");
    assert_eq!(icon.size, 24);
}

#[test]
fn file_gets_no_icon() {
    let node = ProjectNode::new(b"/home/user/readme.txt".to_vec(), false).unwrap();
    assert!(node.icon(16).is_none());
}

#[test]
fn folders_sort_before_files_regardless_of_names() {
    let c = CodepointCollator;
    let a = folder("zzz");
    let b = file("aaa");
    assert_eq!(a.compare(&b, &c), Ordering::Less);
    assert_eq!(b.compare(&a, &c), Ordering::Greater);
}

#[test]
fn same_kind_ordering_agrees_with_collator() {
    let c = CodepointCollator;
    assert_eq!(
        folder("alpha").compare(&folder("beta"), &c),
        c.compare("alpha", "beta")
    );
    assert_eq!(
        file("gamma").compare(&file("beta"), &c),
        c.compare("gamma", "beta")
    );
}

#[test]
fn ordering_is_transitive_on_mixed_kinds() {
    let c = CodepointCollator;
    let a = folder("b");
    let b = file("a");
    let d = file("c");
    assert_eq!(a.compare(&b, &c), Ordering::Less);
    assert_eq!(b.compare(&d, &c), Ordering::Less);
    assert_eq!(a.compare(&d, &c), Ordering::Less);
}

#[test]
fn equal_names_on_distinct_paths_compare_equal() {
    let c = CodepointCollator;
    let a = ProjectNode::Folder {
        name: "src".to_string(),
        path: b"/one/src".to_vec(),
        open: false,
        root: false,
    };
    let b = ProjectNode::Folder {
        name: "src".to_string(),
        path: b"/two/src".to_vec(),
        open: false,
        root: false,
    };
    assert_ne!(a, b);
    assert_eq!(a.compare(&b, &c), Ordering::Equal);
}

#[test]
fn collator_orders_by_codepoint() {
    let c = CodepointCollator;
    assert_eq!(c.compare("a", "b"), Ordering::Less);
    assert_eq!(c.compare("abc", "abd"), Ordering::Less);
    assert_eq!(c.compare("abd", "abc"), Ordering::Greater);
    assert_eq!(c.compare("ab", "abc"), Ordering::Less);
    assert_eq!(c.compare("abc", "ab"), Ordering::Greater);
    assert_eq!(c.compare("abc", "abc"), Ordering::Equal);
    assert_eq!(c.compare("", ""), Ordering::Equal);
    assert_eq!(c.compare("", "a"), Ordering::Less);
    assert_eq!(c.compare("B", "a"), Ordering::Less);
}

#[test]
fn collator_compares_characters_not_bytes() {
    let c = CodepointCollator;
    // U+00E9 sorts after every ASCII character.
    assert_eq!(c.compare("\u{e9}", "z"), Ordering::Greater);
    assert_eq!(c.compare("\u{e9}", "\u{e9}"), Ordering::Equal);
}

use anti_tamper::reactor::{
    delete_directory_recursive, emergency_cleanup, CleanupReport, DeleteReport, FsNode,
    PROTECTION_EXIT_CODE,
};

fn file(locked: bool) -> FsNode {
    FsNode::File { locked }
}

fn dir(locked: bool, entries: Vec<FsNode>) -> FsNode {
    FsNode::Dir { locked, entries }
}

#[test]
fn unlocked_tree_is_fully_removed() {
    let tree = dir(
        false,
        vec![
            file(false),
            dir(false, vec![file(false), file(false)]),
            file(false),
        ],
    );
    let r = delete_directory_recursive(&tree);
    assert_eq!(r, DeleteReport { visited: 6, removed: 6 });
}

#[test]
fn locked_file_is_skipped_and_the_walk_continues() {
    // One locked file among deletable siblings: every node is still visited,
    // every deletable file goes, and only the locked file and its parent
    // directory (no longer empty) survive.
    let tree = dir(false, vec![file(false), file(true), file(false)]);
    let r = delete_directory_recursive(&tree);
    assert_eq!(r.visited, 4);
    assert_eq!(r.removed, 2);
}

#[test]
fn locked_subtree_does_not_halt_the_rest() {
    let tree = dir(
        false,
        vec![
            dir(false, vec![file(true)]),
            dir(false, vec![file(false), file(false)]),
        ],
    );
    let r = delete_directory_recursive(&tree);
    // All 6 nodes are reached exactly once; the locked file, its parent and
    // the root survive, the fully deletable subtree goes.
    assert_eq!(r.visited, 6);
    assert_eq!(r.removed, 3);
}

#[test]
fn locked_directory_keeps_itself_but_not_its_children() {
    let tree = dir(true, vec![file(false), file(false)]);
    let r = delete_directory_recursive(&tree);
    assert_eq!(r.visited, 3);
    assert_eq!(r.removed, 2);
}

#[test]
fn single_locked_node_removes_nothing() {
    let r = delete_directory_recursive(&file(true));
    assert_eq!(r, DeleteReport { visited: 1, removed: 0 });
    let r = delete_directory_recursive(&dir(true, Vec::new()));
    assert_eq!(r, DeleteReport { visited: 1, removed: 0 });
}

#[test]
fn cleanup_exits_with_the_designated_code() {
    let install = dir(false, vec![file(false)]);
    let data = dir(false, vec![file(false), file(false)]);
    let r = emergency_cleanup(Some(&install), Some(&data));
    assert_eq!(
        r,
        CleanupReport {
            install: DeleteReport { visited: 2, removed: 2 },
            data: DeleteReport { visited: 3, removed: 3 },
            exit_code: PROTECTION_EXIT_CODE,
        }
    );
}

#[test]
fn cleanup_with_both_targets_absent_still_exits_with_the_code() {
    let r = emergency_cleanup(None, None);
    assert_eq!(r.install, DeleteReport { visited: 0, removed: 0 });
    assert_eq!(r.data, DeleteReport { visited: 0, removed: 0 });
    assert_eq!(r.exit_code, PROTECTION_EXIT_CODE);
    assert_ne!(r.exit_code, 0);
}

#[test]
fn cleanup_with_everything_locked_still_exits_with_the_code() {
    let install = dir(true, vec![file(true)]);
    let data = file(true);
    let r = emergency_cleanup(Some(&install), Some(&data));
    assert_eq!(r.install.removed, 0);
    assert_eq!(r.data.removed, 0);
    assert_eq!(r.exit_code, PROTECTION_EXIT_CODE);
}

#[test]
fn protection_exit_code_is_nonzero() {
    assert_eq!(PROTECTION_EXIT_CODE, 1);
}

//! The destruction reactor: a depth-first, best-effort deletion policy over a
//! model of a directory tree, and the exit status that always follows it.
//!
//! The tree model carries, per entry, whether the platform refuses its removal
//! (a file in use, a permission denial). The walk visits children before their
//! directory, swallows every single-entry failure and continues; a directory
//! itself goes only when it is unlocked and all of its children went, since
//! removing a non-empty directory fails. No failure is ever surfaced: the run
//! ends in the designated protection-triggered exit status regardless.

use vstd::prelude::*;

verus! {

/// The status code the process exits with once protection has triggered.
pub const PROTECTION_EXIT_CODE: i32 = 1;

/// A directory tree as the reactor sees it. `locked` marks an entry whose
/// removal the platform refuses; the walk passes over it and continues.
pub enum FsNode {
    File { locked: bool },
    Dir { locked: bool, entries: Vec<FsNode> },
}

/// The number of nodes of the tree: the node itself plus all descendants.
pub open spec fn node_count(n: FsNode) -> nat
    decreases n,
{
    match n {
        FsNode::File { .. } => 1,
        FsNode::Dir { entries, .. } => 1 + seq_count(entries@),
    }
}

/// The node count summed over a sequence of sibling trees.
pub open spec fn seq_count(s: Seq<FsNode>) -> nat
    decreases s,
{
    if s.len() == 0 {
        0
    } else {
        seq_count(s.drop_last()) + node_count(s.last())
    }
}

/// How many nodes of the tree the walk removes: an unlocked file goes; a
/// directory goes only when it is unlocked and all of its children went.
pub open spec fn removed_count(n: FsNode) -> nat
    decreases n,
{
    match n {
        FsNode::File { locked } => if locked {
            0nat
        } else {
            1nat
        },
        FsNode::Dir { locked, entries } => seq_removed(entries@) + (
        if !locked && seq_removed(entries@) == seq_count(entries@) {
            1nat
        } else {
            0nat
        }),
    }
}

/// The removed count summed over a sequence of sibling trees.
pub open spec fn seq_removed(s: Seq<FsNode>) -> nat
    decreases s,
{
    if s.len() == 0 {
        0
    } else {
        seq_removed(s.drop_last()) + removed_count(s.last())
    }
}

/// No entry of the tree is locked.
pub open spec fn no_locked(n: FsNode) -> bool
    decreases n,
{
    match n {
        FsNode::File { locked } => !locked,
        FsNode::Dir { locked, entries } => !locked && (forall|i: int|
            0 <= i < entries@.len() ==> no_locked(#[trigger] entries@[i])),
    }
}

/// Counting one more sibling extends the prefix sums by that sibling's counts.
proof fn lemma_seq_prefix_extend(s: Seq<FsNode>, i: int)
    requires
        0 <= i < s.len(),
    ensures
        seq_count(s.subrange(0, i + 1)) == seq_count(s.subrange(0, i)) + node_count(s[i]),
        seq_removed(s.subrange(0, i + 1)) == seq_removed(s.subrange(0, i)) + removed_count(s[i]),
{
    let p = s.subrange(0, i + 1);
    assert(p.drop_last() =~= s.subrange(0, i));
    assert(p.last() == s[i]);
}

/// A prefix of siblings never counts more nodes than the whole sequence.
proof fn lemma_seq_count_prefix_le(s: Seq<FsNode>, i: int)
    requires
        0 <= i <= s.len(),
    ensures
        seq_count(s.subrange(0, i)) <= seq_count(s),
    decreases s.len() - i,
{
    if i == s.len() {
        assert(s.subrange(0, i) =~= s);
    } else {
        lemma_seq_prefix_extend(s, i);
        lemma_seq_count_prefix_le(s, i + 1);
    }
}

/// The walk never removes more nodes than the tree has.
proof fn lemma_removed_le_count(n: FsNode)
    ensures
        removed_count(n) <= node_count(n),
    decreases n,
{
    match n {
        FsNode::File { .. } => {},
        FsNode::Dir { entries, .. } => {
            lemma_seq_removed_le_count(entries@);
        },
    }
}

/// The sibling-sequence form of [`lemma_removed_le_count`].
proof fn lemma_seq_removed_le_count(s: Seq<FsNode>)
    ensures
        seq_removed(s) <= seq_count(s),
    decreases s,
{
    if s.len() > 0 {
        lemma_seq_removed_le_count(s.drop_last());
        lemma_removed_le_count(s.last());
    }
}

/// Law: the walk removes every node of a tree exactly when no entry of the
/// tree is locked — only a platform refusal, never the walk itself, leaves
/// anything behind, and any refusal leaves at least that entry behind.
pub proof fn lemma_fully_removed_iff_unlocked(n: FsNode)
    ensures
        removed_count(n) == node_count(n) <==> no_locked(n),
    decreases n,
{
    match n {
        FsNode::File { .. } => {},
        FsNode::Dir { entries, .. } => {
            lemma_seq_fully_removed_iff_unlocked(entries@);
            lemma_seq_removed_le_count(entries@);
        },
    }
}

/// The sibling-sequence form of [`lemma_fully_removed_iff_unlocked`].
proof fn lemma_seq_fully_removed_iff_unlocked(s: Seq<FsNode>)
    ensures
        seq_removed(s) == seq_count(s) <==> (forall|i: int|
            0 <= i < s.len() ==> no_locked(#[trigger] s[i])),
    decreases s,
{
    if s.len() > 0 {
        let d = s.drop_last();
        lemma_seq_fully_removed_iff_unlocked(d);
        lemma_fully_removed_iff_unlocked(s.last());
        lemma_seq_removed_le_count(d);
        lemma_removed_le_count(s.last());
        assert(forall|i: int| 0 <= i < d.len() ==> d[i] == s[i]);
        if seq_removed(s) == seq_count(s) {
            assert forall|i: int| 0 <= i < s.len() implies no_locked(#[trigger] s[i]) by {
                if i < s.len() - 1 {
                    assert(no_locked(d[i]));
                } else {
                    assert(no_locked(s.last()));
                }
            }
        } else {
            if forall|i: int| 0 <= i < s.len() ==> no_locked(#[trigger] s[i]) {
                assert(forall|i: int| 0 <= i < d.len() ==> no_locked(#[trigger] d[i]));
                assert(no_locked(s.last()));
            }
        }
    }
}

/// What one walk did: how many nodes it reached and how many it removed.
#[derive(Clone, Copy, PartialEq, Eq, Structural, Debug)]
pub struct DeleteReport {
    pub visited: u64,
    pub removed: u64,
}

/// Depth-first, best-effort deletion of one tree. Children are processed
/// before their directory; a locked entry is skipped and the walk continues.
/// The walk reaches every node exactly once, whatever fails along the way,
/// and removes exactly what the policy says it removes.
#[verifier::loop_isolation(false)]
pub fn delete_directory_recursive(node: &FsNode) -> (r: DeleteReport)
    requires
        node_count(*node) <= u64::MAX,
    ensures
        r.visited == node_count(*node),
        r.removed == removed_count(*node),
    decreases *node,
{
    match node {
        FsNode::File { locked } => {
            if *locked {
                DeleteReport { visited: 1, removed: 0 }
            } else {
                DeleteReport { visited: 1, removed: 1 }
            }
        },
        FsNode::Dir { locked, entries } => {
            proof {
                assert(node_count(*node) == 1 + seq_count(entries@));
            }
            let mut visited: u64 = 0;
            let mut removed: u64 = 0;
            let mut i: usize = 0;
            while i < entries.len()
                invariant
                    seq_count(entries@) + 1 <= u64::MAX,
                    i <= entries@.len(),
                    visited == seq_count(entries@.subrange(0, i as int)),
                    removed == seq_removed(entries@.subrange(0, i as int)),
                decreases entries@.len() - i,
            {
                proof {
                    lemma_seq_prefix_extend(entries@, i as int);
                    lemma_seq_count_prefix_le(entries@, i as int + 1);
                    lemma_seq_removed_le_count(entries@.subrange(0, i as int + 1));
                }
                let child = delete_directory_recursive(&entries[i]);
                visited = visited + child.visited;
                removed = removed + child.removed;
                i += 1;
            }
            proof {
                assert(entries@.subrange(0, entries@.len() as int) =~= entries@);
                lemma_seq_removed_le_count(entries@);
            }
            if !*locked && removed == visited {
                DeleteReport { visited: visited + 1, removed: removed + 1 }
            } else {
                DeleteReport { visited: visited + 1, removed }
            }
        },
    }
}

/// The outcome of one reactor run: what the walk over each target did, and
/// the status code the process must exit with.
#[derive(Clone, Copy, PartialEq, Eq, Structural, Debug)]
pub struct CleanupReport {
    pub install: DeleteReport,
    pub data: DeleteReport,
    pub exit_code: i32,
}

/// One reactor run over its two targets: the installation directory beside
/// the running executable, and the application's per-user data directory. An
/// absent target is no error: its walk is simply empty. Whatever the walks
/// manage to remove — everything, some of it, or nothing at all — the run
/// ends with the protection-triggered exit status.
pub fn emergency_cleanup(install_dir: Option<&FsNode>, data_dir: Option<&FsNode>) -> (r:
    CleanupReport)
    requires
        install_dir matches Some(n) ==> node_count(*n) <= u64::MAX,
        data_dir matches Some(n) ==> node_count(*n) <= u64::MAX,
    ensures
        r.exit_code == PROTECTION_EXIT_CODE,
        r.exit_code != 0,
        (match install_dir {
            Some(n) => r.install.visited == node_count(*n) && r.install.removed == removed_count(
                *n,
            ),
            None => r.install == (DeleteReport { visited: 0, removed: 0 }),
        }),
        (match data_dir {
            Some(n) => r.data.visited == node_count(*n) && r.data.removed == removed_count(*n),
            None => r.data == (DeleteReport { visited: 0, removed: 0 }),
        }),
{
    let install = match install_dir {
        Some(n) => delete_directory_recursive(n),
        None => DeleteReport { visited: 0, removed: 0 },
    };
    let data = match data_dir {
        Some(n) => delete_directory_recursive(n),
        None => DeleteReport { visited: 0, removed: 0 },
    };
    CleanupReport { install, data, exit_code: PROTECTION_EXIT_CODE }
}

} // verus!


//! The bookkeeping of hk's git layer: when unstaged changes are stashed, what
//! is kept of them until they are put back, and how paths are given to git.

use vstd::prelude::*;

use crate::paths::{join_path, joined};
use crate::text::{
    contains_seq, contains_str, lemma_replaced_absent, lemma_replaced_prefix, replace_str,
    replaced,
};

verus! {

/// What the git layer keeps besides the repository itself: the working
/// directory's root, and the diff of unstaged changes set aside by a stash.
pub struct GitState {
    root: String,
    stash_diff: Option<Vec<u8>>,
}

/// What the stashing of unstaged changes has just learned.
pub enum StashEvent {
    /// Stashing was asked for: `force` says whether it is forced,
    /// `auto_stash` whether auto-stashing is on, `has_head` whether the
    /// repository has a first commit.
    Begin { force: bool, auto_stash: bool, has_head: bool },
    /// The number of unstaged (and untracked) files.
    Unstaged { count: usize },
    /// The head commit's message, if it could be read.
    HeadMessage { message: Option<String> },
    /// The unstaged changes as a patch: the index against the working tree,
    /// restricted to files that still exist.
    Diff { bytes: Vec<u8> },
}

/// What the stashing of unstaged changes does next.
#[derive(Debug, Clone, Copy, PartialEq, Eq, Structural)]
pub enum StashAction {
    /// Nothing more: no stash is taken, or it has been taken.
    Finish,
    /// List the unstaged files and report their number.
    ListUnstaged,
    /// Read the head commit's message.
    ReadHeadMessage,
    /// Build the diff and report it.
    BuildDiff,
    /// Check out the head to drop the changes now kept in the stash.
    CheckoutHead,
}

/// The action that follows an event: stashing goes on while it is enabled,
/// there are unstaged files, the head is not a merge, and the diff is not
/// empty; then the head is checked out.
pub open spec fn spec_stash_next(event: StashEvent) -> StashAction {
    match event {
        StashEvent::Begin { force, auto_stash, has_head } => if spec_stash_enabled(
            force,
            auto_stash,
            has_head,
        ) {
            StashAction::ListUnstaged
        } else {
            StashAction::Finish
        },
        StashEvent::Unstaged { count } => if count == 0 {
            StashAction::Finish
        } else {
            StashAction::ReadHeadMessage
        },
        StashEvent::HeadMessage { message } => match message {
            Some(m) => if contains_seq(m@, "Merge"@) {
                StashAction::Finish
            } else {
                StashAction::BuildDiff
            },
            None => StashAction::BuildDiff,
        },
        StashEvent::Diff { bytes } => if bytes@.len() > 0 {
            StashAction::CheckoutHead
        } else {
            StashAction::Finish
        },
    }
}

/// Whether unstaged changes are stashed at all: when forced or when
/// auto-stashing is on, and only once the repository has a first commit.
pub open spec fn spec_stash_enabled(force: bool, auto_stash: bool, has_head: bool) -> bool {
    (force || auto_stash) && has_head
}

/// Whether unstaged changes are stashed at all (see [`spec_stash_enabled`]).
pub fn stash_enabled(force: bool, auto_stash: bool, has_head: bool) -> (r: bool)
    ensures
        r == spec_stash_enabled(force, auto_stash, has_head),
{
    (force || auto_stash) && has_head
}

/// A head commit whose message holds `Merge` is a merge in progress, and
/// nothing is stashed then.
pub fn is_merge_message(message: &str) -> (r: bool)
    ensures
        r == contains_seq(message@, "Merge"@),
{
    contains_str(message, "Merge")
}

/// The path of a tree entry named `name` under the tree path `tree_root`:
/// the name itself at the top of the tree, else the two joined.
pub fn tree_entry_path(tree_root: &str, name: &str) -> (r: String)
    ensures
        r@ == (if tree_root@.len() == 0 {
            name@
        } else {
            joined(tree_root@, name@)
        }),
{
    if tree_root.unicode_len() == 0 {
        String::from_str(name)
    } else {
        join_path(tree_root, name)
    }
}

/// A path under the root, `root + rel`, is handed to git as `rel`, provided
/// the root is not empty and does not occur again inside `rel`.
pub proof fn law_pathspec_is_relative(root: Seq<char>, rel: Seq<char>)
    requires
        root.len() > 0,
        !contains_seq(rel, root),
    ensures
        replaced(root + rel, root, Seq::empty()) == rel,
{
    lemma_replaced_prefix(root, rel, Seq::empty());
    lemma_replaced_absent(rel, root, Seq::empty());
    assert(Seq::<char>::empty() + rel =~= rel);
}

/// Putting the stash back gives exactly the diff that was recorded, and only
/// once. `recorded` is a state that `record_diff(diff)` leaves of `before`;
/// `taken` and `after` are what `take_stash` then returns and leaves.
pub proof fn law_stash_round_trip(
    before: GitState,
    diff: Seq<u8>,
    recorded: GitState,
    taken: Option<Seq<u8>>,
    after: GitState,
)
    requires
        recorded.spec_root() == before.spec_root(),
        diff.len() == 0 ==> recorded.spec_stash() is None,
        diff.len() > 0 ==> recorded.spec_stash() == Some(diff),
        after.spec_root() == recorded.spec_root(),
        after.spec_stash() is None,
        match taken {
            Some(d) => recorded.spec_stash() == Some(d),
            None => recorded.spec_stash() is None,
        },
    ensures
        diff.len() > 0 ==> taken == Some(diff),
        diff.len() == 0 ==> taken is None,
        after.spec_root() == before.spec_root(),
        after.spec_stash() is None,
{
}

/// Stashing never starts in a repository without a first commit; with one, it
/// starts exactly when it is forced or auto-stashing is on. A head commit
/// whose message holds `Merge` stops it; any other message, or none, lets it
/// go on to build the diff. A diff leads to a checkout exactly when it is not
/// empty.
pub proof fn law_stash_gates(force: bool, auto_stash: bool, has_head: bool, message: Option<String>, bytes: Vec<u8>)
    ensures
        !has_head ==> spec_stash_next(StashEvent::Begin { force, auto_stash, has_head })
            == StashAction::Finish,
        has_head ==> (spec_stash_next(StashEvent::Begin { force, auto_stash, has_head })
            == StashAction::ListUnstaged <==> (force || auto_stash)),
        spec_stash_next(StashEvent::HeadMessage { message }) == StashAction::Finish <==> (
        message matches Some(m) && contains_seq(m@, "Merge"@)),
        spec_stash_next(StashEvent::HeadMessage { message }) != StashAction::Finish
            ==> spec_stash_next(StashEvent::HeadMessage { message }) == StashAction::BuildDiff,
        spec_stash_next(StashEvent::Diff { bytes }) == StashAction::CheckoutHead <==> bytes@.len()
            > 0,
{
}

/// Stashing stops at the unstaged files only when there are none: any
/// positive number of unstaged files goes on to read the head's message.
pub proof fn law_unstaged_files_are_stashed(count: usize)
    ensures
        spec_stash_next(StashEvent::Unstaged { count }) == StashAction::Finish <==> count == 0,
        count > 0 ==> spec_stash_next(StashEvent::Unstaged { count })
            == StashAction::ReadHeadMessage,
{
}

impl GitState {
    /// The working directory's root.
    pub closed spec fn spec_root(&self) -> Seq<char> {
        self.root@
    }

    /// The stashed diff, if there is one.
    pub closed spec fn spec_stash(&self) -> Option<Seq<u8>> {
        match self.stash_diff {
            Some(d) => Some(d@),
            None => None,
        }
    }

    /// The state of a freshly opened repository whose working directory is
    /// `root`: nothing is stashed.
    pub fn new(root: String) -> (r: GitState)
        ensures
            r.spec_root() == root@,
            r.spec_stash() is None,
    {
        GitState { root, stash_diff: None }
    }

    /// The working directory's root.
    pub fn root(&self) -> (r: &str)
        ensures
            r@ == self.spec_root(),
    {
        self.root.as_str()
    }

    /// Whether a diff is stashed.
    pub fn has_stash(&self) -> (r: bool)
        ensures
            r == self.spec_stash() is Some,
    {
        self.stash_diff.is_some()
    }

    /// Keeps the diff of the unstaged changes. An empty diff keeps nothing.
    /// The result says whether a diff is now kept, that is, whether the
    /// working directory is to be checked out to drop the changes.
    pub fn record_diff(&mut self, diff: Vec<u8>) -> (r: bool)
        ensures
            final(self).spec_root() == old(self).spec_root(),
            diff@.len() == 0 ==> final(self).spec_stash() is None,
            diff@.len() > 0 ==> final(self).spec_stash() == Some(diff@),
            r == (diff@.len() > 0),
    {
        if diff.len() == 0 {
            self.stash_diff = None;
            false
        } else {
            self.stash_diff = Some(diff);
            true
        }
    }

    /// Takes one step of stashing the unstaged changes: from what was just
    /// learned, the next action (see [`spec_stash_next`]). A diff is kept
    /// exactly when it is reported and not empty, so the head is checked out
    /// only once the changes it drops are kept.
    pub fn stash_step(&mut self, event: StashEvent) -> (r: StashAction)
        ensures
            r == spec_stash_next(event),
            final(self).spec_root() == old(self).spec_root(),
            match event {
                StashEvent::Diff { bytes } => if bytes@.len() > 0 {
                    final(self).spec_stash() == Some(bytes@)
                } else {
                    final(self).spec_stash() is None
                },
                _ => final(self).spec_stash() == old(self).spec_stash(),
            },
            r == StashAction::CheckoutHead ==> final(self).spec_stash() is Some,
            event matches StashEvent::Unstaged { count } ==> (r == StashAction::Finish <==> count
                == 0) && (count > 0 ==> r == StashAction::ReadHeadMessage),
    {
        match event {
            StashEvent::Begin { force, auto_stash, has_head } => {
                if stash_enabled(force, auto_stash, has_head) {
                    StashAction::ListUnstaged
                } else {
                    StashAction::Finish
                }
            },
            StashEvent::Unstaged { count } => {
                if count == 0 {
                    StashAction::Finish
                } else {
                    StashAction::ReadHeadMessage
                }
            },
            StashEvent::HeadMessage { message } => match message {
                Some(m) => {
                    if is_merge_message(m.as_str()) {
                        StashAction::Finish
                    } else {
                        StashAction::BuildDiff
                    }
                },
                None => StashAction::BuildDiff,
            },
            StashEvent::Diff { bytes } => {
                if self.record_diff(bytes) {
                    StashAction::CheckoutHead
                } else {
                    StashAction::Finish
                }
            },
        }
    }

    /// Takes the stashed diff out, to apply it to the working directory; the
    /// state keeps nothing afterwards.
    pub fn take_stash(&mut self) -> (r: Option<Vec<u8>>)
        ensures
            final(self).spec_root() == old(self).spec_root(),
            final(self).spec_stash() is None,
            match r {
                Some(d) => old(self).spec_stash() == Some(d@),
                None => old(self).spec_stash() is None,
            },
    {
        self.stash_diff.take()
    }

    /// The pathspecs handed to `git add`: each path with every occurrence of
    /// the root taken out, which turns paths under the root into paths
    /// relative to it.
    pub fn pathspecs(&self, paths: &Vec<String>) -> (r: Vec<String>)
        ensures
            r@.len() == paths@.len(),
            forall|i: int|
                0 <= i < paths@.len() ==> #[trigger] r@[i]@ == replaced(
                    paths@[i]@,
                    self.spec_root(),
                    Seq::empty(),
                ),
    {
        proof {
            reveal_strlit("");
            assert(""@ =~= Seq::<char>::empty());
        }
        let mut out: Vec<String> = Vec::new();
        let mut i: usize = 0;
        while i < paths.len()
            invariant
                i <= paths.len(),
                out@.len() == i,
                forall|k: int|
                    0 <= k < i ==> #[trigger] out@[k]@ == replaced(
                        paths@[k]@,
                        self.spec_root(),
                        Seq::empty(),
                    ),
            decreases paths.len() - i,
        {
            proof {
                reveal_strlit("");
                assert(""@ =~= Seq::<char>::empty());
            }
            let stripped = replace_str(paths[i].as_str(), self.root.as_str(), "");
            let ghost prev = out@;
            out.push(stripped);
            assert forall|k: int| 0 <= k < i + 1 implies #[trigger] out@[k]@ == replaced(
                paths@[k]@,
                self.spec_root(),
                Seq::empty(),
            ) by {
                if k < i {
                    assert(out@[k] == prev[k]);
                }
            }
            i += 1;
        }
        out
    }
}

} // verus!

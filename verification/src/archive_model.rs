//! What unpacking leaves on disk, told on a model of the directory tree
//! below the target directory.
//!
//! The model knows two things of the file system: making a directory with
//! those above it fails where one of them is a file, and creating a file
//! fails where it is a directory or the directory that holds it is missing.
use vstd::prelude::*;
use crate::archive::{
    entry_steps, is_directory, parent_of, plan_of, EntryView, LocationView, StepView,
};

verus! {

/// What is at a path below the target directory.
pub enum Node {
    Directory,
    /// A file with the contents of the archive entry of this index.
    File(nat),
}

/// The directory `path` or one of those above it, below the target, is a
/// file in `tree`.
pub open spec fn blocked(tree: Map<Seq<Seq<char>>, Node>, path: Seq<Seq<char>>) -> bool {
    exists|n: int|
        1 <= n <= path.len() && tree.contains_key(#[trigger] path.take(n)) && tree[path.take(
            n,
        )] is File
}

/// `q` is `path` or lies above it, below the target.
pub open spec fn on_the_way(q: Seq<Seq<char>>, path: Seq<Seq<char>>) -> bool {
    exists|n: int| 1 <= n <= path.len() && q == #[trigger] path.take(n)
}

/// The tree after the directory `path` was made with those above it.
pub open spec fn with_directories(
    tree: Map<Seq<Seq<char>>, Node>,
    path: Seq<Seq<char>>,
) -> Map<Seq<Seq<char>>, Node> {
    Map::new(
        |q: Seq<Seq<char>>| tree.contains_key(q) || on_the_way(q, path),
        |q: Seq<Seq<char>>|
            if tree.contains_key(q) {
                tree[q]
            } else {
                Node::Directory
            },
    )
}

/// Whether a file can be created at `path`: the path names something below
/// the target, nothing there is a directory, and the directory that holds it
/// is there.
pub open spec fn can_create(tree: Map<Seq<Seq<char>>, Node>, path: Seq<Seq<char>>) -> bool {
    &&& path.len() > 0
    &&& !(tree.contains_key(path) && tree[path] is Directory)
    &&& path.len() > 1 ==> tree.contains_key(path.drop_last()) && tree[path.drop_last()]
        is Directory
}

/// The tree after one step, or nothing where the step fails. The target
/// directory itself is there throughout. Permissions leave the tree as it
/// is.
pub open spec fn apply(tree: Map<Seq<Seq<char>>, Node>, step: StepView) -> Option<
    Map<Seq<Seq<char>>, Node>,
> {
    match step {
        StepView::CreateDirAll(LocationView::Inside(path)) => if blocked(tree, path) {
            None
        } else {
            Some(with_directories(tree, path))
        },
        StepView::CreateDirAll(LocationView::AboveTarget) => Some(tree),
        StepView::WriteFile { entry, path } => if can_create(tree, path) {
            Some(tree.insert(path, Node::File(entry)))
        } else {
            None
        },
        StepView::SetPermissions { .. } => Some(tree),
    }
}

/// The tree after the steps, taken in order, or nothing where one fails.
pub open spec fn run(tree: Map<Seq<Seq<char>>, Node>, steps: Seq<StepView>) -> Option<
    Map<Seq<Seq<char>>, Node>,
>
    decreases steps.len(),
{
    if steps.len() == 0 {
        Some(tree)
    } else {
        match run(tree, steps.drop_last()) {
            Some(before) => apply(before, steps.last()),
            None => None,
        }
    }
}

/// The index of the last file entry before `count` that is unpacked to
/// `path`, or -1 where there is none.
pub open spec fn last_writer(entries: Seq<EntryView>, path: Seq<Seq<char>>, count: int) -> int
    decreases count,
{
    if count <= 0 || count > entries.len() {
        -1
    } else if entries[count - 1].path == path && !is_directory(entries[count - 1].name) {
        count - 1
    } else {
        last_writer(entries, path, count - 1)
    }
}

/// What the tree holds for the first `count` entries: every directory entry
/// with a place of its own is a directory, and at the place of every file
/// entry is a file with the contents of the last entry for that place.
pub open spec fn unpacked(
    tree: Map<Seq<Seq<char>>, Node>,
    entries: Seq<EntryView>,
    count: int,
) -> bool {
    forall|i: int|
        0 <= i < count ==> {
            let e = #[trigger] entries[i];
            if is_directory(e.name) {
                e.path.len() > 0 ==> tree.contains_key(e.path) && tree[e.path] is Directory
            } else {
                tree.contains_key(e.path) && tree[e.path] == Node::File(
                    last_writer(entries, e.path, count) as nat,
                ) && last_writer(entries, e.path, count) >= i
            }
        }
}

/// Taking steps one after the other is taking the first, then the rest.
pub proof fn lemma_run_concat(
    tree: Map<Seq<Seq<char>>, Node>,
    first: Seq<StepView>,
    rest: Seq<StepView>,
)
    ensures
        run(tree, first + rest) == match run(tree, first) {
            Some(between) => run(between, rest),
            None => None,
        },
    decreases rest.len(),
{
    if rest.len() == 0 {
        assert(first + rest =~= first);
    } else {
        assert((first + rest).drop_last() =~= first + rest.drop_last());
        assert((first + rest).last() == rest.last());
        lemma_run_concat(tree, first, rest.drop_last());
    }
}

/// What the steps for one entry do to the tree.
pub proof fn lemma_entry_steps(
    tree: Map<Seq<Seq<char>>, Node>,
    entry: EntryView,
    index: nat,
    unix: bool,
)
    ensures
        run(tree, entry_steps(entry, index, unix)) == if is_directory(entry.name) {
            apply(tree, StepView::CreateDirAll(LocationView::Inside(entry.path)))
        } else {
            match apply(tree, StepView::CreateDirAll(parent_of(entry.path))) {
                Some(ready) => apply(ready, StepView::WriteFile { entry: index, path: entry.path }),
                None => None,
            }
        },
{
    let steps = entry_steps(entry, index, unix);
    reveal_with_fuel(run, 4);
    if is_directory(entry.name) {
        assert(steps.drop_last() =~= Seq::<StepView>::empty());
    } else {
        let make = StepView::CreateDirAll(parent_of(entry.path));
        let write = StepView::WriteFile { entry: index, path: entry.path };
        if steps.len() == 2 {
            assert(steps.drop_last() =~= seq![make]);
            assert(seq![make].drop_last() =~= Seq::<StepView>::empty());
        } else {
            assert(steps.drop_last() =~= seq![make, write]);
            assert(seq![make, write].drop_last() =~= seq![make]);
            assert(seq![make].drop_last() =~= Seq::<StepView>::empty());
        }
    }
}

/// Steps for later entries do not change which entry wrote last to another
/// place.
pub proof fn lemma_last_writer_bounds(entries: Seq<EntryView>, path: Seq<Seq<char>>, count: int)
    requires
        0 <= count <= entries.len(),
    ensures
        -1 <= last_writer(entries, path, count) < count,
        last_writer(entries, path, count) >= 0 ==> entries[last_writer(entries, path, count)].path
            == path && !is_directory(entries[last_writer(entries, path, count)].name),
    decreases count,
{
    if count > 0 {
        lemma_last_writer_bounds(entries, path, count - 1);
    }
}

/// Unpacking that succeeds leaves every entry in its place: each directory
/// entry as a directory, and each file entry as a file with the contents of
/// the last entry for the same place, so that of several entries for one
/// file the last one counts.
pub proof fn lemma_unpacking(entries: Seq<EntryView>, count: nat, unix: bool)
    requires
        count <= entries.len(),
        run(Map::empty(), plan_of(entries, count, unix)) is Some,
    ensures
        unpacked(run(Map::empty(), plan_of(entries, count, unix))->0, entries, count as int),
    decreases count,
{
    if count > 0 {
        let k = (count - 1) as nat;
        let e = entries[k as int];
        let before_plan = plan_of(entries, k, unix);
        let steps = entry_steps(e, k, unix);
        lemma_run_concat(Map::empty(), before_plan, steps);
        let before = run(Map::empty(), before_plan)->0;
        lemma_unpacking(entries, k, unix);
        lemma_entry_steps(before, e, k, unix);
        let after = run(Map::empty(), plan_of(entries, count, unix))->0;
        assert(run(before, steps) == Some(after));
        assert forall|i: int| 0 <= i < count implies ({
            let x = #[trigger] entries[i];
            if is_directory(x.name) {
                x.path.len() > 0 ==> after.contains_key(x.path) && after[x.path] is Directory
            } else {
                after.contains_key(x.path) && after[x.path] == Node::File(
                    last_writer(entries, x.path, count as int) as nat,
                ) && last_writer(entries, x.path, count as int) >= i
            }
        }) by {
            let x = entries[i];
            lemma_last_writer_bounds(entries, x.path, k as int);
            if is_directory(e.name) {
                assert(after == with_directories(before, e.path));
                assert(!blocked(before, e.path));
                if i == k {
                    if e.path.len() > 0 {
                        assert(e.path.take(e.path.len() as int) =~= e.path);
                        assert(on_the_way(e.path, e.path));
                        if before.contains_key(e.path) {
                            assert(before[e.path.take(e.path.len() as int)] is Directory);
                        }
                    }
                }
            } else {
                let ready = apply(before, StepView::CreateDirAll(parent_of(e.path)))->0;
                assert(can_create(ready, e.path));
                assert(after == ready.insert(e.path, Node::File(k)));
                assert(forall|q: Seq<Seq<char>>|
                    before.contains_key(q) ==> ready.contains_key(q) && ready[q] == before[q]);
                if i < k && x.path == e.path {
                    if is_directory(x.name) {
                        assert(before.contains_key(x.path) && before[x.path] is Directory);
                    }
                }
            }
        }
    }
}

} // verus!

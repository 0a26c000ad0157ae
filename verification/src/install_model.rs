//! An installation carried out on a destination, and what the destination
//! holds afterwards.

use crate::install::{
    install_plan_spec, remove_dir_contents_spec, removal_spec, DirEntryView, InstallStepView,
};
use vstd::prelude::*;

verus! {

/// What an installation works on.
pub struct Target {
    /// Whether the destination directory exists.
    pub exists: bool,
    /// The names of the entries of the destination directory.
    pub entries: Set<Seq<char>>,
    /// The names of the temporary files that stand in the working directory.
    pub temp_files: Set<Seq<char>>,
}

/// The names of a list of entries.
pub open spec fn entry_names(entries: Seq<DirEntryView>) -> Set<Seq<char>> {
    Set::new(|name: Seq<char>| exists|i: int| 0 <= i < entries.len() && (#[trigger] entries[i]).name == name)
}

/// One operation carried out. `archive` holds the names of the entries that
/// the archive puts into the destination.
pub open spec fn apply(step: InstallStepView, target: Target, archive: Set<Seq<char>>) -> Target {
    match step {
        InstallStepView::RemoveTree { name } => Target {
            entries: target.entries.remove(name),
            ..target
        },
        InstallStepView::RemoveFile { name } => Target {
            entries: target.entries.remove(name),
            ..target
        },
        InstallStepView::CreateTarget => Target { exists: true, ..target },
        InstallStepView::WriteTemp { file } => Target {
            temp_files: target.temp_files.insert(file),
            ..target
        },
        InstallStepView::Extract { file } => Target {
            entries: target.entries.union(archive),
            ..target
        },
        InstallStepView::RemoveTemp { file } => Target {
            temp_files: target.temp_files.remove(file),
            ..target
        },
    }
}

/// A list of operations carried out, each on what the one before left.
pub open spec fn apply_all(steps: Seq<InstallStepView>, target: Target, archive: Set<Seq<char>>) -> Target
    decreases steps.len(),
{
    if steps.len() == 0 {
        target
    } else {
        apply(steps.last(), apply_all(steps.drop_last(), target, archive), archive)
    }
}

/// Carrying out two lists one after the other is carrying out both as one.
pub proof fn lemma_apply_all_concat(
    first: Seq<InstallStepView>,
    second: Seq<InstallStepView>,
    target: Target,
    archive: Set<Seq<char>>,
)
    ensures
        apply_all(first + second, target, archive) == apply_all(
            second,
            apply_all(first, target, archive),
            archive,
        ),
    decreases second.len(),
{
    if second.len() == 0 {
        assert(first + second =~= first);
    } else {
        lemma_apply_all_concat(first, second.drop_last(), target, archive);
        assert((first + second).drop_last() =~= first + second.drop_last());
        assert((first + second).last() == second.last());
    }
}

/// Emptying a directory removes the listed entries and nothing else.
pub proof fn lemma_remove_dir_contents_clears(
    entries: Seq<DirEntryView>,
    target: Target,
    archive: Set<Seq<char>>,
)
    ensures
        apply_all(remove_dir_contents_spec(entries), target, archive) == (Target {
            entries: target.entries.difference(entry_names(entries)),
            ..target
        }),
    decreases entries.len(),
{
    let steps = remove_dir_contents_spec(entries);
    if entries.len() == 0 {
        assert(target.entries.difference(entry_names(entries)) =~= target.entries);
    } else {
        let front = entries.drop_last();
        lemma_remove_dir_contents_clears(front, target, archive);
        assert(steps.drop_last() =~= remove_dir_contents_spec(front));
        assert(steps.last() == removal_spec(entries.last()));
        let before = apply_all(remove_dir_contents_spec(front), target, archive);
        let after = apply(steps.last(), before, archive);
        assert(after.entries == before.entries.remove(entries.last().name));
        assert forall|name: Seq<char>| entry_names(entries).contains(name) <==> (entry_names(
            front,
        ).contains(name) || name == entries.last().name) by {
            if entry_names(entries).contains(name) {
                let i = choose|i: int| 0 <= i < entries.len() && (#[trigger] entries[i]).name == name;
                if i < front.len() {
                    assert(front[i].name == name);
                }
            }
            if entry_names(front).contains(name) {
                let i = choose|i: int| 0 <= i < front.len() && (#[trigger] front[i]).name == name;
                assert(entries[i].name == name);
            }
            if name == entries.last().name {
                assert(entries[entries.len() - 1].name == name);
            }
        }
        assert(after.entries =~= target.entries.difference(entry_names(entries)));
    }
}

/// An installation into an existing destination leaves exactly what the
/// archive holds: where the listed entries are all that the destination
/// held, it holds the archive's entries afterwards and none of its own, it
/// still exists, and the temporary file is gone.
pub proof fn lemma_install_replaces_contents(
    temp_file: Seq<char>,
    existing: Seq<DirEntryView>,
    target: Target,
    archive: Set<Seq<char>>,
)
    requires
        target.exists,
        target.entries == entry_names(existing),
    ensures
        apply_all(install_plan_spec(temp_file, Some(existing)), target, archive) == (Target {
            exists: true,
            entries: archive,
            temp_files: target.temp_files.remove(temp_file),
        }),
{
    let prepare = remove_dir_contents_spec(existing);
    let write = InstallStepView::WriteTemp { file: temp_file };
    let extract = InstallStepView::Extract { file: temp_file };
    let remove = InstallStepView::RemoveTemp { file: temp_file };
    let rest = seq![write, extract, remove];
    lemma_apply_all_concat(prepare, rest, target, archive);
    lemma_remove_dir_contents_clears(existing, target, archive);
    let cleared = apply_all(prepare, target, archive);
    assert(cleared.entries =~= Set::<Seq<char>>::empty());
    lemma_apply_rest(temp_file, cleared, archive);
    let done = apply_all(rest, cleared, archive);
    assert(done.entries =~= archive);
    assert(done.temp_files =~= target.temp_files.remove(temp_file));
}

/// An installation into a missing destination creates it and leaves exactly
/// what the archive holds.
pub proof fn lemma_install_creates_target(
    temp_file: Seq<char>,
    target: Target,
    archive: Set<Seq<char>>,
)
    requires
        !target.exists,
        target.entries == Set::<Seq<char>>::empty(),
    ensures
        apply_all(install_plan_spec(temp_file, None), target, archive) == (Target {
            exists: true,
            entries: archive,
            temp_files: target.temp_files.remove(temp_file),
        }),
{
    let prepare = seq![InstallStepView::CreateTarget];
    let write = InstallStepView::WriteTemp { file: temp_file };
    let extract = InstallStepView::Extract { file: temp_file };
    let remove = InstallStepView::RemoveTemp { file: temp_file };
    let rest = seq![write, extract, remove];
    lemma_apply_all_concat(prepare, rest, target, archive);
    assert(prepare.drop_last() =~= Seq::<InstallStepView>::empty());
    assert(apply_all(prepare.drop_last(), target, archive) == target);
    let created = apply_all(prepare, target, archive);
    assert(created == Target { exists: true, ..target });
    lemma_apply_rest(temp_file, created, archive);
    let done = apply_all(rest, created, archive);
    assert(done.entries =~= archive);
    assert(done.temp_files =~= target.temp_files.remove(temp_file));
}

/// Writing, extracting and removing the temporary file adds the archive's
/// entries to the destination and leaves no temporary file of that name.
proof fn lemma_apply_rest(temp_file: Seq<char>, target: Target, archive: Set<Seq<char>>)
    ensures
        apply_all(
            seq![
                InstallStepView::WriteTemp { file: temp_file },
                InstallStepView::Extract { file: temp_file },
                InstallStepView::RemoveTemp { file: temp_file },
            ],
            target,
            archive,
        ) == (Target {
            exists: target.exists,
            entries: target.entries.union(archive),
            temp_files: target.temp_files.insert(temp_file).remove(temp_file),
        }),
{
    let write = InstallStepView::WriteTemp { file: temp_file };
    let extract = InstallStepView::Extract { file: temp_file };
    let remove = InstallStepView::RemoveTemp { file: temp_file };
    let three = seq![write, extract, remove];
    let two = seq![write, extract];
    let one = seq![write];
    assert(three.drop_last() =~= two);
    assert(two.drop_last() =~= one);
    assert(one.drop_last() =~= Seq::<InstallStepView>::empty());
    assert(apply_all(one.drop_last(), target, archive) == target);
    assert(apply_all(one, target, archive) == apply(write, target, archive));
    assert(apply_all(two, target, archive) == apply(extract, apply(write, target, archive), archive));
}

} // verus!

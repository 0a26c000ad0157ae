//! Replacing the content of the instance directory with that of an archive.
//!
//! The library lists the filesystem operations of an installation, in the
//! order in which the caller carries them out; the first that fails ends the
//! installation, with nothing undone.

use crate::error::FileStep;
use vstd::prelude::*;
use vstd::string::StringExecFns;

verus! {

/// An entry of the destination directory, as the caller found it.
#[derive(Clone, Debug, PartialEq, Eq)]
pub struct DirEntry {
    /// The entry's name within the directory.
    pub name: String,
    /// Whether the entry is a directory.
    pub is_dir: bool,
}

/// An entry of the destination directory, as plain mathematical values.
pub struct DirEntryView {
    pub name: Seq<char>,
    pub is_dir: bool,
}

impl View for DirEntry {
    type V = DirEntryView;

    open spec fn view(&self) -> DirEntryView {
        DirEntryView { name: self.name@, is_dir: self.is_dir }
    }
}

/// One filesystem operation of an installation.
#[derive(Clone, Debug, PartialEq, Eq)]
pub enum InstallStep {
    /// Remove the named directory of the destination with all that it holds.
    RemoveTree { name: String },
    /// Remove the named file of the destination.
    RemoveFile { name: String },
    /// Create the destination directory, and its parents where they are
    /// missing.
    CreateTarget,
    /// Write the archive's bytes to the named temporary file.
    WriteTemp { file: String },
    /// Open the named temporary file as an archive and extract every entry
    /// into the destination, under the path that the archive gives it.
    Extract { file: String },
    /// Remove the named temporary file.
    RemoveTemp { file: String },
}

/// An operation of an installation, as plain mathematical values.
pub enum InstallStepView {
    RemoveTree { name: Seq<char> },
    RemoveFile { name: Seq<char> },
    CreateTarget,
    WriteTemp { file: Seq<char> },
    Extract { file: Seq<char> },
    RemoveTemp { file: Seq<char> },
}

impl View for InstallStep {
    type V = InstallStepView;

    open spec fn view(&self) -> InstallStepView {
        match *self {
            InstallStep::RemoveTree { name } => InstallStepView::RemoveTree { name: name@ },
            InstallStep::RemoveFile { name } => InstallStepView::RemoveFile { name: name@ },
            InstallStep::CreateTarget => InstallStepView::CreateTarget,
            InstallStep::WriteTemp { file } => InstallStepView::WriteTemp { file: file@ },
            InstallStep::Extract { file } => InstallStepView::Extract { file: file@ },
            InstallStep::RemoveTemp { file } => InstallStepView::RemoveTemp { file: file@ },
        }
    }
}

/// The views of a list of entries, in order.
pub open spec fn entry_views(entries: Seq<DirEntry>) -> Seq<DirEntryView> {
    Seq::new(entries.len(), |i: int| entries[i]@)
}

/// The views of a list of operations, in order.
pub open spec fn step_views(steps: Seq<InstallStep>) -> Seq<InstallStepView> {
    Seq::new(steps.len(), |i: int| steps[i]@)
}

/// The operation that removes an entry: a directory goes with all that it
/// holds, anything else as a file.
pub open spec fn removal_spec(entry: DirEntryView) -> InstallStepView {
    if entry.is_dir {
        InstallStepView::RemoveTree { name: entry.name }
    } else {
        InstallStepView::RemoveFile { name: entry.name }
    }
}

/// The operations that empty a directory: the removal of each entry, in the
/// order of the entries.
pub open spec fn remove_dir_contents_spec(entries: Seq<DirEntryView>) -> Seq<InstallStepView> {
    Seq::new(entries.len(), |i: int| removal_spec(entries[i]))
}

/// The operations of an installation. `existing` holds the entries of the
/// destination where it exists, and is `None` where it does not. An existing
/// destination is emptied and kept; a missing one is created. Then the
/// archive is written to the temporary file, extracted, and the temporary
/// file removed.
pub open spec fn install_plan_spec(
    temp_file: Seq<char>,
    existing: Option<Seq<DirEntryView>>,
) -> Seq<InstallStepView> {
    let prepare = match existing {
        Some(entries) => remove_dir_contents_spec(entries),
        None => seq![InstallStepView::CreateTarget],
    };
    prepare + seq![
        InstallStepView::WriteTemp { file: temp_file },
        InstallStepView::Extract { file: temp_file },
        InstallStepView::RemoveTemp { file: temp_file },
    ]
}

/// What is reported where an operation fails.
pub open spec fn failure_spec(step: InstallStepView) -> FileStep {
    match step {
        InstallStepView::RemoveTree { name } => FileStep::CleanTarget,
        InstallStepView::RemoveFile { name } => FileStep::CleanTarget,
        InstallStepView::CreateTarget => FileStep::CreateTarget,
        InstallStepView::WriteTemp { file } => FileStep::WriteTemp,
        InstallStepView::Extract { file } => FileStep::Extract,
        InstallStepView::RemoveTemp { file } => FileStep::RemoveTemp,
    }
}

/// What the user is told after the last operation.
pub open spec fn success_message_spec() -> Seq<char> {
    "Update completed successfully!"@
}

impl InstallStep {
    /// What is reported where this operation fails.
    pub fn failure(&self) -> (step: FileStep)
        ensures
            step == failure_spec(self@),
    {
        match self {
            InstallStep::RemoveTree { .. } => FileStep::CleanTarget,
            InstallStep::RemoveFile { .. } => FileStep::CleanTarget,
            InstallStep::CreateTarget => FileStep::CreateTarget,
            InstallStep::WriteTemp { .. } => FileStep::WriteTemp,
            InstallStep::Extract { .. } => FileStep::Extract,
            InstallStep::RemoveTemp { .. } => FileStep::RemoveTemp,
        }
    }
}

/// The operation that removes an entry.
pub fn removal(entry: &DirEntry) -> (step: InstallStep)
    ensures
        step@ == removal_spec(entry@),
{
    let name = String::from_str(entry.name.as_str());
    if entry.is_dir {
        InstallStep::RemoveTree { name }
    } else {
        InstallStep::RemoveFile { name }
    }
}

/// The operations that empty a directory with the given entries, and keep
/// the directory itself.
pub fn remove_dir_contents(entries: &Vec<DirEntry>) -> (steps: Vec<InstallStep>)
    ensures
        step_views(steps@) == remove_dir_contents_spec(entry_views(entries@)),
{
    let mut steps: Vec<InstallStep> = Vec::new();
    let mut i: usize = 0;
    while i < entries.len()
        invariant
            i <= entries.len(),
            steps@.len() == i,
            forall|k: int| 0 <= k < i ==> (#[trigger] steps@[k])@ == removal_spec(entries@[k]@),
        decreases entries.len() - i,
    {
        steps.push(removal(&entries[i]));
        i += 1;
    }
    proof {
        assert(step_views(steps@) =~= remove_dir_contents_spec(entry_views(entries@)));
    }
    steps
}

/// The entries of an existing destination, or `None`, as plain mathematical
/// values.
pub open spec fn existing_view(existing: Option<&Vec<DirEntry>>) -> Option<Seq<DirEntryView>> {
    match existing {
        Some(entries) => Some(entry_views(entries@)),
        None => None,
    }
}

/// The operations of an installation, in order. `existing` holds the entries
/// of the destination where it exists, and is `None` where it does not;
/// `temp_file` names the temporary file that carries the archive.
pub fn install_plan(temp_file: &str, existing: Option<&Vec<DirEntry>>) -> (steps: Vec<InstallStep>)
    ensures
        step_views(steps@) == install_plan_spec(temp_file@, existing_view(existing)),
{
    let mut steps = match existing {
        Some(entries) => remove_dir_contents(entries),
        None => {
            let mut create: Vec<InstallStep> = Vec::new();
            create.push(InstallStep::CreateTarget);
            proof {
                assert(step_views(create@) =~= seq![InstallStepView::CreateTarget]);
            }
            create
        },
    };
    let ghost prepare = step_views(steps@);
    steps.push(InstallStep::WriteTemp { file: String::from_str(temp_file) });
    steps.push(InstallStep::Extract { file: String::from_str(temp_file) });
    steps.push(InstallStep::RemoveTemp { file: String::from_str(temp_file) });
    proof {
        assert(step_views(steps@) =~= prepare + seq![
            InstallStepView::WriteTemp { file: temp_file@ },
            InstallStepView::Extract { file: temp_file@ },
            InstallStepView::RemoveTemp { file: temp_file@ },
        ]);
    }
    steps
}

/// What the user is told after the last operation.
pub fn success_message() -> (text: &'static str)
    ensures
        text@ == success_message_spec(),
{
    "Update completed successfully!"
}

} // verus!

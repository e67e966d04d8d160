//! The work of a build, as values: each step names one thing to do to the file
//! system, the environment or an outside tool. The library decides the steps
//! and their order; whoever runs them does nothing but what they say.
use vstd::prelude::*;
use crate::text::owned;
use crate::tools::CommandLine;

verus! {

/// One thing to do. A step that fails ends the build.
#[derive(Clone, Debug, PartialEq, Eq)]
pub enum Step {
    /// Remove the directory with all that is in it, if it is there.
    RemoveDirectory { path: String },
    /// Create the directory, and those above it that are missing, unless it
    /// is there.
    CreateDirectories { path: String },
    /// Create the directory, which is not there yet, in its parent, which is.
    CreateDirectory { path: String },
    /// Copy the file `from` to the file `to`.
    CopyFile { from: String, to: String },
    /// Copy the file or directory `from` into `directory`, under its own name.
    CopyInto { from: String, directory: String },
    /// As `CopyInto`, if `from` is there.
    CopyIntoIfPresent { from: String, directory: String },
    /// Copy what the directory `from` holds into `directory`.
    CopyContents { from: String, directory: String },
    /// Write `contents` to the file `path`, in place of what it held.
    WriteFile { path: String, contents: String },
    /// Set a variable of the environment, for the tools started later.
    SetVariable { name: String, value: String },
    /// Remove the file.
    RemoveFile { path: String },
    /// Start the tool and wait for it; `failure` is what to say if it fails.
    Run { command: CommandLine, failure: String },
    /// As `Run`, with `directory` as the tool's working directory.
    RunIn { directory: String, command: CommandLine, failure: String },
    /// Make the binary look for its libraries in `subdirectory`, beside the
    /// executable.
    RewriteSearchPaths { binary: String, subdirectory: String },
    /// Assemble the package from what the steps before have laid out: the
    /// package that the bundler describes together with these steps.
    BuildPackage,
}

/// A step as plain values.
pub enum StepView {
    RemoveDirectory { path: Seq<char> },
    CreateDirectories { path: Seq<char> },
    CreateDirectory { path: Seq<char> },
    CopyFile { from: Seq<char>, to: Seq<char> },
    CopyInto { from: Seq<char>, directory: Seq<char> },
    CopyIntoIfPresent { from: Seq<char>, directory: Seq<char> },
    CopyContents { from: Seq<char>, directory: Seq<char> },
    WriteFile { path: Seq<char>, contents: Seq<char> },
    SetVariable { name: Seq<char>, value: Seq<char> },
    RemoveFile { path: Seq<char> },
    Run { words: Seq<Seq<char>>, failure: Seq<char> },
    RunIn { directory: Seq<char>, words: Seq<Seq<char>>, failure: Seq<char> },
    RewriteSearchPaths { binary: Seq<char>, subdirectory: Seq<char> },
    BuildPackage,
}

impl View for Step {
    type V = StepView;

    open spec fn view(&self) -> StepView {
        match *self {
            Step::RemoveDirectory { path } => StepView::RemoveDirectory { path: path@ },
            Step::CreateDirectories { path } => StepView::CreateDirectories { path: path@ },
            Step::CreateDirectory { path } => StepView::CreateDirectory { path: path@ },
            Step::CopyFile { from, to } => StepView::CopyFile { from: from@, to: to@ },
            Step::CopyInto { from, directory } => StepView::CopyInto {
                from: from@,
                directory: directory@,
            },
            Step::CopyIntoIfPresent { from, directory } => StepView::CopyIntoIfPresent {
                from: from@,
                directory: directory@,
            },
            Step::CopyContents { from, directory } => StepView::CopyContents {
                from: from@,
                directory: directory@,
            },
            Step::WriteFile { path, contents } => StepView::WriteFile {
                path: path@,
                contents: contents@,
            },
            Step::SetVariable { name, value } => StepView::SetVariable {
                name: name@,
                value: value@,
            },
            Step::RemoveFile { path } => StepView::RemoveFile { path: path@ },
            Step::Run { command, failure } => StepView::Run {
                words: command.words(),
                failure: failure@,
            },
            Step::RunIn { directory, command, failure } => StepView::RunIn {
                directory: directory@,
                words: command.words(),
                failure: failure@,
            },
            Step::RewriteSearchPaths { binary, subdirectory } => StepView::RewriteSearchPaths {
                binary: binary@,
                subdirectory: subdirectory@,
            },
            Step::BuildPackage => StepView::BuildPackage,
        }
    }
}

/// The steps of a list, as plain values.
pub open spec fn plan(steps: Seq<Step>) -> Seq<StepView> {
    steps.map_values(|s: Step| s@)
}

/// `step` put at the end of `steps`.
pub fn push_step(steps: &mut Vec<Step>, step: Step)
    ensures
        plan(final(steps)@) == plan(old(steps)@).push(step@),
{
    let ghost before = steps@;
    steps.push(step);
    assert(plan(steps@) =~= plan(before).push(step@));
}

/// `more` put at the end of `steps`, in order.
pub fn append_steps(steps: &mut Vec<Step>, more: Vec<Step>)
    ensures
        plan(final(steps)@) == plan(old(steps)@) + plan(more@),
{
    let ghost before = steps@;
    let mut more = more;
    let ghost added = more@;
    steps.append(&mut more);
    assert(steps@ =~= before + added);
    assert(plan(steps@) =~= plan(before) + plan(added));
}

/// No steps at all.
pub fn no_steps() -> (steps: Vec<Step>)
    ensures
        plan(steps@) == Seq::<StepView>::empty(),
{
    let steps: Vec<Step> = Vec::new();
    assert(plan(steps@) =~= Seq::<StepView>::empty());
    steps
}

pub fn remove_directory(path: &str) -> (step: Step)
    ensures
        step@ == (StepView::RemoveDirectory { path: path@ }),
{
    Step::RemoveDirectory { path: owned(path) }
}

pub fn create_directories(path: &str) -> (step: Step)
    ensures
        step@ == (StepView::CreateDirectories { path: path@ }),
{
    Step::CreateDirectories { path: owned(path) }
}

pub fn create_directory(path: &str) -> (step: Step)
    ensures
        step@ == (StepView::CreateDirectory { path: path@ }),
{
    Step::CreateDirectory { path: owned(path) }
}

pub fn copy_file(from: &str, to: &str) -> (step: Step)
    ensures
        step@ == (StepView::CopyFile { from: from@, to: to@ }),
{
    Step::CopyFile { from: owned(from), to: owned(to) }
}

pub fn copy_into(from: &str, directory: &str) -> (step: Step)
    ensures
        step@ == (StepView::CopyInto { from: from@, directory: directory@ }),
{
    Step::CopyInto { from: owned(from), directory: owned(directory) }
}

pub fn copy_into_if_present(from: &str, directory: &str) -> (step: Step)
    ensures
        step@ == (StepView::CopyIntoIfPresent { from: from@, directory: directory@ }),
{
    Step::CopyIntoIfPresent { from: owned(from), directory: owned(directory) }
}

pub fn copy_contents(from: &str, directory: &str) -> (step: Step)
    ensures
        step@ == (StepView::CopyContents { from: from@, directory: directory@ }),
{
    Step::CopyContents { from: owned(from), directory: owned(directory) }
}

pub fn write_file(path: &str, contents: &str) -> (step: Step)
    ensures
        step@ == (StepView::WriteFile { path: path@, contents: contents@ }),
{
    Step::WriteFile { path: owned(path), contents: owned(contents) }
}

pub fn set_variable(name: &str, value: &str) -> (step: Step)
    ensures
        step@ == (StepView::SetVariable { name: name@, value: value@ }),
{
    Step::SetVariable { name: owned(name), value: owned(value) }
}

pub fn run(command: CommandLine, failure: &str) -> (step: Step)
    ensures
        step@ == (StepView::Run { words: command.words(), failure: failure@ }),
{
    Step::Run { command, failure: owned(failure) }
}

pub fn remove_file(path: &str) -> (step: Step)
    ensures
        step@ == (StepView::RemoveFile { path: path@ }),
{
    Step::RemoveFile { path: owned(path) }
}

pub fn run_in(directory: &str, command: CommandLine, failure: &str) -> (step: Step)
    ensures
        step@ == (StepView::RunIn {
            directory: directory@,
            words: command.words(),
            failure: failure@,
        }),
{
    Step::RunIn { directory: owned(directory), command, failure: owned(failure) }
}

pub fn rewrite_search_paths(binary: &str, subdirectory: &str) -> (step: Step)
    ensures
        step@ == (StepView::RewriteSearchPaths { binary: binary@, subdirectory: subdirectory@ }),
{
    Step::RewriteSearchPaths { binary: owned(binary), subdirectory: owned(subdirectory) }
}

} // verus!

//! The bundle of a macOS application, and the search paths of its binaries.
use vstd::prelude::*;
use crate::bundlers::{
    compiled_libraries, copies_into, copy_each_into, find_icon, first_usable_icon,
    spec_compiled_libraries, Bundler, Inventory,
};
use crate::error::Error;
use crate::options::build_options::Platform;
use crate::options::bundle_options::{BundleOptions, Executable};
use crate::options::executable_options::ExecutableOptions;
use crate::paths::{
    file_name, file_name_of, join, joined, lemma_file_name_is_a_name, lemma_file_name_of_joined,
    replace_extension, replace_file_name, separator, with_extension, with_file_name,
};
use crate::steps::{
    copy_file, copy_into_if_present, create_directories, create_directory, no_steps, plan, push_step,
    remove_directory, rewrite_search_paths, run, write_file, Step, StepView,
};
use crate::templates::{
    bind, bindings, bound, lemma_bound_at, mustache_rendering, render, Template, TemplateValue,
};
use crate::text::{concat, concat3, has_prefix, opt_text, owned, starts_with, views};
use crate::tools::CommandLine;

verus! {

/// The kinds of load commands that matter to the search paths of a binary.
#[derive(Copy, Clone, Debug, PartialEq, Eq, Structural)]
pub enum LoadCommandKind {
    /// The identity of the binary, where it is a library.
    IdDylib,
    LoadDylib,
    LoadWeakDylib,
    ReexportDylib,
    LoadUpwardDylib,
    LazyLoadDylib,
    /// A directory in which libraries are looked for.
    Rpath,
    /// Any other command.
    Other,
}

impl LoadCommandKind {
    /// Whether a command of this kind names a dynamic library.
    pub open spec fn names_library(self) -> bool {
        self != LoadCommandKind::Rpath && self != LoadCommandKind::Other
    }

    pub fn is_library(&self) -> (yes: bool)
        ensures
            yes == self.names_library(),
    {
        match self {
            LoadCommandKind::IdDylib
            | LoadCommandKind::LoadDylib
            | LoadCommandKind::LoadWeakDylib
            | LoadCommandKind::ReexportDylib
            | LoadCommandKind::LoadUpwardDylib
            | LoadCommandKind::LazyLoadDylib => true,
            LoadCommandKind::Rpath | LoadCommandKind::Other => false,
        }
    }
}

/// A load command of a binary: its kind, and the path that it holds. A command
/// of another kind holds none, and its path is left empty.
#[derive(Clone, Debug, PartialEq, Eq)]
pub struct LoadCommand {
    pub kind: LoadCommandKind,
    pub name: String,
}

impl View for LoadCommand {
    type V = (LoadCommandKind, Seq<char>);

    open spec fn view(&self) -> (LoadCommandKind, Seq<char>) {
        (self.kind, self.name@)
    }
}

/// The load commands of a list, as plain values.
pub open spec fn commands_of(commands: Seq<LoadCommand>) -> Seq<(LoadCommandKind, Seq<char>)> {
    commands.map_values(|c: LoadCommand| c@)
}

/// What a binary file turned out to be.
#[derive(Clone, Debug, PartialEq, Eq)]
pub enum ObjectFile {
    /// A single binary, with its load commands in order.
    MachFile { commands: Vec<LoadCommand> },
    /// Several binaries in one file.
    FatFile,
    /// An archive.
    ArFile,
    /// A table of symbols.
    SymDef,
}

impl ObjectFile {
    /// The load commands that are looked at: those of a single binary. The
    /// other kinds of file are left alone.
    pub open spec fn commands(self) -> Option<Seq<(LoadCommandKind, Seq<char>)>> {
        match self {
            ObjectFile::MachFile { commands } => Some(commands_of(commands@)),
            _ => None,
        }
    }
}

/// One change to the load commands of a binary.
#[derive(Clone, Debug, PartialEq, Eq)]
pub enum Edit {
    /// Add a directory in which libraries are looked for.
    AddSearchPath { path: String },
    /// Give the library another identity.
    SetIdentity { name: String },
    /// Look for a library under another path.
    ChangeLibrary { from: String, to: String },
}

/// A change as plain values.
pub enum EditView {
    AddSearchPath { path: Seq<char> },
    SetIdentity { name: Seq<char> },
    ChangeLibrary { from: Seq<char>, to: Seq<char> },
}

impl View for Edit {
    type V = EditView;

    open spec fn view(&self) -> EditView {
        match *self {
            Edit::AddSearchPath { path } => EditView::AddSearchPath { path: path@ },
            Edit::SetIdentity { name } => EditView::SetIdentity { name: name@ },
            Edit::ChangeLibrary { from, to } => EditView::ChangeLibrary { from: from@, to: to@ },
        }
    }
}

/// The changes of a list, as plain values.
pub open spec fn edits_of(edits: Seq<Edit>) -> Seq<EditView> {
    edits.map_values(|e: Edit| e@)
}

/// The directory beside the executable in which libraries are looked for.
pub open spec fn search_path(subdirectory: Seq<char>) -> Seq<char> {
    "@executable_path/"@ + subdirectory
}

/// The path of the library `name` in that directory.
pub open spec fn executable_relative(subdirectory: Seq<char>, name: Seq<char>) -> Seq<char> {
    (search_path(subdirectory) + "/"@) + name
}

/// A path is absolute when it begins with a separator.
pub open spec fn is_absolute(path: Seq<char>) -> bool {
    has_prefix(path, "/"@)
}

/// A command is rewritten when it names a library by a path that is not
/// absolute.
pub open spec fn needs_rewrite(command: (LoadCommandKind, Seq<char>)) -> bool {
    command.0.names_library() && !is_absolute(command.1)
}

/// A command that is to be rewritten and whose path names no file.
pub open spec fn is_nameless(command: (LoadCommandKind, Seq<char>)) -> bool {
    needs_rewrite(command) && file_name(command.1) is None
}

/// The change that rewrites `command`: the identity of the library is set,
/// every other reference is changed, to the file name of the path in the
/// directory beside the executable.
pub open spec fn edit_of(command: (LoadCommandKind, Seq<char>), subdirectory: Seq<char>) -> EditView {
    let to = executable_relative(subdirectory, file_name(command.1)->0);
    if command.0 == LoadCommandKind::IdDylib {
        EditView::SetIdentity { name: to }
    } else {
        EditView::ChangeLibrary { from: command.1, to }
    }
}

/// The changes that rewrite `commands`, in their order.
pub open spec fn library_edits(
    commands: Seq<(LoadCommandKind, Seq<char>)>,
    subdirectory: Seq<char>,
) -> Seq<EditView>
    decreases commands.len(),
{
    if commands.len() == 0 {
        Seq::empty()
    } else {
        let before = library_edits(commands.drop_last(), subdirectory);
        if needs_rewrite(commands.last()) {
            before.push(edit_of(commands.last(), subdirectory))
        } else {
            before
        }
    }
}

/// `at` is where the first command stands that cannot be rewritten.
pub open spec fn is_first_nameless(commands: Seq<(LoadCommandKind, Seq<char>)>, at: int) -> bool {
    &&& 0 <= at < commands.len()
    &&& is_nameless(commands[at])
    &&& forall|i: int| 0 <= i < at ==> !is_nameless(#[trigger] commands[i])
}

/// The changes to a binary with `commands`: the search path is added, whatever
/// the commands are, and then each command is rewritten. There are none where
/// a command cannot be rewritten.
pub open spec fn search_path_edits(
    commands: Seq<(LoadCommandKind, Seq<char>)>,
    subdirectory: Seq<char>,
) -> Option<Seq<EditView>> {
    if exists|at: int| 0 <= at < commands.len() && is_nameless(#[trigger] commands[at]) {
        None
    } else {
        Some(
            seq![EditView::AddSearchPath { path: search_path(subdirectory) }] + library_edits(
                commands,
                subdirectory,
            ),
        )
    }
}

/// The changes to a file: those of its load commands where it is a single
/// binary, none for every other kind of file.
pub open spec fn file_edits(file: ObjectFile, subdirectory: Seq<char>) -> Option<Seq<EditView>> {
    match file.commands() {
        Some(commands) => search_path_edits(commands, subdirectory),
        None => Some(Seq::empty()),
    }
}

/// The tool that changes the load commands of a binary.
pub open spec fn tool() -> Seq<char> {
    "install_name_tool"@
}

/// The step that makes one change to the binary `filename`: the tool with its
/// arguments, and what to say if it fails.
pub open spec fn edit_step(edit: EditView, filename: Seq<char>) -> StepView {
    match edit {
        EditView::AddSearchPath { path } => StepView::Run {
            words: seq![tool(), "-add_rpath"@, path, filename],
            failure: "Failed to add rpath to "@ + filename,
        },
        EditView::SetIdentity { name } => StepView::Run {
            words: seq![tool(), "-id"@, name, filename],
            failure: (("Failed to change id to "@ + name) + " of "@) + filename,
        },
        EditView::ChangeLibrary { from, to } => StepView::Run {
            words: seq![tool(), "-change"@, from, to, filename],
            failure: (((("Failed to change "@ + from) + " to "@) + to) + " in "@) + filename,
        },
    }
}

/// The steps that make `edits` to the binary `filename`.
pub open spec fn edit_steps(edits: Seq<EditView>, filename: Seq<char>) -> Seq<StepView> {
    edits.map_values(|e: EditView| edit_step(e, filename))
}

impl Edit {
    /// The step that makes the change to the binary `filename`.
    pub fn step(&self, filename: &str) -> (step: Step)
        ensures
            step@ == edit_step(self@, filename@),
    {
        match self {
            Edit::AddSearchPath { path } => {
                let mut command = CommandLine::new("install_name_tool");
                command.arg("-add_rpath");
                command.arg(path.as_str());
                command.arg(filename);
                assert(command.words() =~= seq![tool(), "-add_rpath"@, path@, filename@]);
                let failure = concat("Failed to add rpath to ", filename);
                run(command, failure.as_str())
            },
            Edit::SetIdentity { name } => {
                let mut command = CommandLine::new("install_name_tool");
                command.arg("-id");
                command.arg(name.as_str());
                command.arg(filename);
                assert(command.words() =~= seq![tool(), "-id"@, name@, filename@]);
                let failure = concat3("Failed to change id to ", name.as_str(), " of ");
                let failure = concat(failure.as_str(), filename);
                run(command, failure.as_str())
            },
            Edit::ChangeLibrary { from, to } => {
                let mut command = CommandLine::new("install_name_tool");
                command.arg("-change");
                command.arg(from.as_str());
                command.arg(to.as_str());
                command.arg(filename);
                assert(command.words() =~= seq![tool(), "-change"@, from@, to@, filename@]);
                let failure = concat3("Failed to change ", from.as_str(), " to ");
                let failure = concat3(failure.as_str(), to.as_str(), " in ");
                let failure = concat(failure.as_str(), filename);
                run(command, failure.as_str())
            },
        }
    }
}

/// The bundler for macOS.
#[derive(Copy, Clone, Debug, PartialEq, Eq)]
pub struct MacBundler {}

/// The directory of the libraries of a bundle, beside its executables.
pub const PLUGINS: &'static str = "Plugins";

impl MacBundler {
    pub fn new() -> (bundler: Self)
        ensures
            bundler.spec_platform() == Platform::Mac,
    {
        Self {  }
    }

    /// Whether the search paths of binaries are rewritten by a builder that
    /// runs on `host`: the tool that rewrites them is there on macOS only, and
    /// on every other host the binaries are left as they are.
    pub fn rewrites_search_paths(host: Platform) -> (yes: bool)
        ensures
            yes == (host == Platform::Mac),
    {
        host == Platform::Mac
    }

    /// The changes that make a binary look for its libraries in
    /// `subdirectory`, beside the executable. For a single binary: the search
    /// path is added, and then every command that names a library by a path
    /// that is not absolute is rewritten to the file name of that path in the
    /// directory. A path without file name cannot be rewritten, and the first
    /// such path is reported. A file of another kind is left alone.
    pub fn search_path_edits(file: &ObjectFile, subdirectory: &str) -> (edits: Result<
        Vec<Edit>,
        Error,
    >)
        ensures
            match edits {
                Ok(edits) => file_edits(*file, subdirectory@) == Some(edits_of(edits@)),
                Err(error) => {
                    &&& file_edits(*file, subdirectory@) is None
                    &&& file.commands() is Some
                    &&& error matches Error::NoFileName { path }
                    &&& exists|at: int|
                        #![trigger file.commands()->0[at]]
                        is_first_nameless(file.commands()->0, at) && path@
                            == file.commands()->0[at].1
                },
            },
    {
        let mut edits: Vec<Edit> = Vec::new();
        match file {
            ObjectFile::MachFile { commands } => {
                let target = concat("@executable_path/", subdirectory);
                let prefix = concat(target.as_str(), "/");
                edits.push(Edit::AddSearchPath { path: target });
                let ghost all = commands_of(commands@);
                let ghost first = EditView::AddSearchPath { path: search_path(subdirectory@) };
                assert(all.subrange(0, 0) =~= Seq::empty());
                assert(edits_of(edits@) =~= seq![first] + library_edits(
                    all.subrange(0, 0),
                    subdirectory@,
                ));
                let mut i: usize = 0;
                while i < commands.len()
                    invariant
                        i <= commands.len(),
                        all == commands_of(commands@),
                        file.commands() == Some(all),
                        prefix@ == search_path(subdirectory@) + "/"@,
                        first == (EditView::AddSearchPath { path: search_path(subdirectory@) }),
                        forall|j: int| 0 <= j < i ==> !is_nameless(#[trigger] all[j]),
                        edits_of(edits@) == seq![first] + library_edits(
                            all.subrange(0, i as int),
                            subdirectory@,
                        ),
                    decreases commands.len() - i,
                {
                    let command = &commands[i];
                    proof {
                        let next = all.subrange(0, i + 1);
                        assert(next.drop_last() =~= all.subrange(0, i as int));
                        assert(next.last() == all[i as int]);
                        assert(all[i as int] == (command.kind, command.name@));
                    }
                    if command.kind.is_library() && !starts_with(command.name.as_str(), "/") {
                        match file_name_of(command.name.as_str()) {
                            Some(name) => {
                                let to = concat(prefix.as_str(), name.as_str());
                                let ghost before = edits@;
                                let edit = match command.kind {
                                    LoadCommandKind::IdDylib => Edit::SetIdentity { name: to },
                                    _ => Edit::ChangeLibrary {
                                        from: owned(command.name.as_str()),
                                        to,
                                    },
                                };
                                assert(edit@ == edit_of(all[i as int], subdirectory@));
                                edits.push(edit);
                                assert(edits_of(edits@) =~= edits_of(before).push(edit@));
                                assert(edits_of(edits@) =~= seq![first] + library_edits(
                                    all.subrange(0, i + 1),
                                    subdirectory@,
                                ));
                            },
                            None => {
                                assert(is_first_nameless(all, i as int));
                                return Err(
                                    Error::NoFileName { path: owned(command.name.as_str()) },
                                );
                            },
                        }
                    }
                    i = i + 1;
                }
                assert(all.subrange(0, commands.len() as int) =~= all);
                Ok(edits)
            },
            _ => {
                assert(edits_of(edits@) =~= Seq::<EditView>::empty());
                Ok(edits)
            },
        }
    }

    /// The steps that make the binary `filename`, whose file is `file`, look
    /// for its libraries in the directory `path` beside the executable: one
    /// start of the tool for each change, in order. Each of them has to
    /// succeed.
    pub fn set_rpath_to(file: &ObjectFile, filename: &str, path: &str) -> (steps: Result<
        Vec<Step>,
        Error,
    >)
        ensures
            match steps {
                Ok(steps) => {
                    &&& file_edits(*file, path@) is Some
                    &&& plan(steps@) == edit_steps(file_edits(*file, path@)->0, filename@)
                },
                Err(error) => {
                    &&& file_edits(*file, path@) is None
                    &&& file.commands() is Some
                    &&& error matches Error::NoFileName { path: nameless }
                    &&& exists|at: int|
                        #![trigger file.commands()->0[at]]
                        is_first_nameless(file.commands()->0, at) && nameless@
                            == file.commands()->0[at].1
                },
            },
    {
        match Self::search_path_edits(file, path) {
            Ok(edits) => {
                let mut steps = no_steps();
                let mut i: usize = 0;
                assert(plan(steps@) =~= edit_steps(edits_of(edits@).subrange(0, 0), filename@));
                while i < edits.len()
                    invariant
                        i <= edits.len(),
                        plan(steps@) == edit_steps(
                            edits_of(edits@).subrange(0, i as int),
                            filename@,
                        ),
                    decreases edits.len() - i,
                {
                    push_step(&mut steps, edits[i].step(filename));
                    assert(plan(steps@) =~= edit_steps(
                        edits_of(edits@).subrange(0, i + 1),
                        filename@,
                    ));
                    i = i + 1;
                }
                assert(edits_of(edits@).subrange(0, edits.len() as int) =~= edits_of(edits@));
                Ok(steps)
            },
            Err(error) => Err(error),
        }
    }

    /// As `set_rpath_to`, for the directory of the libraries of a bundle.
    pub fn set_rpath(file: &ObjectFile, filename: &str) -> (steps: Result<Vec<Step>, Error>)
        ensures
            match steps {
                Ok(steps) => {
                    &&& file_edits(*file, PLUGINS@) is Some
                    &&& plan(steps@) == edit_steps(file_edits(*file, PLUGINS@)->0, filename@)
                },
                Err(error) => {
                    &&& file_edits(*file, PLUGINS@) is None
                    &&& file.commands() is Some
                    &&& error matches Error::NoFileName { path: nameless }
                    &&& exists|at: int|
                        #![trigger file.commands()->0[at]]
                        is_first_nameless(file.commands()->0, at) && nameless@
                            == file.commands()->0[at].1
                },
            },
    {
        Self::set_rpath_to(file, filename, PLUGINS)
    }
}

/// What a change does to the load commands of a binary: a search path is added
/// unless it is there; the identity is given to the identity commands; a
/// reference to a library is changed wherever it stands.
///
/// This is a model of the tool, not the tool: it is what the laws below are
/// stated over. The steps of `set_rpath_to` ask the tool to add the search
/// path every time, whether it is there or not; that a path which is there is
/// not added a second time is taken here as what the tool does.
pub open spec fn applied(commands: Seq<(LoadCommandKind, Seq<char>)>, edit: EditView) -> Seq<
    (LoadCommandKind, Seq<char>),
> {
    match edit {
        EditView::AddSearchPath { path } => if commands.contains((LoadCommandKind::Rpath, path)) {
            commands
        } else {
            commands.push((LoadCommandKind::Rpath, path))
        },
        EditView::SetIdentity { name } => commands.map_values(
            |c: (LoadCommandKind, Seq<char>)|
                if c.0 == LoadCommandKind::IdDylib {
                    (c.0, name)
                } else {
                    c
                },
        ),
        EditView::ChangeLibrary { from, to } => commands.map_values(
            |c: (LoadCommandKind, Seq<char>)|
                if c.0.names_library() && c.0 != LoadCommandKind::IdDylib && c.1 == from {
                    (c.0, to)
                } else {
                    c
                },
        ),
    }
}

/// What a list of changes does, one after the other.
pub open spec fn applied_all(
    commands: Seq<(LoadCommandKind, Seq<char>)>,
    edits: Seq<EditView>,
) -> Seq<(LoadCommandKind, Seq<char>)>
    decreases edits.len(),
{
    if edits.len() == 0 {
        commands
    } else {
        applied(applied_all(commands, edits.drop_last()), edits.last())
    }
}

/// A binary has one identity at most: its identity commands agree.
pub open spec fn has_one_identity(commands: Seq<(LoadCommandKind, Seq<char>)>) -> bool {
    forall|i: int, j: int|
        0 <= i < commands.len() && 0 <= j < commands.len() && (#[trigger] commands[i]).0
            == LoadCommandKind::IdDylib && (#[trigger] commands[j]).0 == LoadCommandKind::IdDylib
            ==> commands[i].1 == commands[j].1
}

/// The load commands of a binary that was rewritten for `subdirectory`: the
/// search path is there, and every library that is not named by an absolute
/// path is named by its file name in the directory beside the executable.
pub open spec fn is_rewritten(
    commands: Seq<(LoadCommandKind, Seq<char>)>,
    subdirectory: Seq<char>,
) -> bool {
    &&& commands.contains((LoadCommandKind::Rpath, search_path(subdirectory)))
    &&& has_one_identity(commands)
    &&& forall|i: int|
        0 <= i < commands.len() && needs_rewrite(#[trigger] commands[i]) ==> {
            &&& file_name(commands[i].1) is Some
            &&& commands[i].1 == executable_relative(subdirectory, file_name(commands[i].1)->0)
        }
}

/// What rewriting is meant to leave: each command that needs it names its
/// library in the directory beside the executable, and the search path is
/// there once more than before at most.
pub open spec fn rewritten(
    commands: Seq<(LoadCommandKind, Seq<char>)>,
    subdirectory: Seq<char>,
) -> Seq<(LoadCommandKind, Seq<char>)> {
    applied(
        commands.map_values(
            |c: (LoadCommandKind, Seq<char>)|
                if needs_rewrite(c) {
                    (c.0, executable_relative(subdirectory, file_name(c.1)->0))
                } else {
                    c
                },
        ),
        EditView::AddSearchPath { path: search_path(subdirectory) },
    )
}

/// A rewritten path is not rewritten again: the path of a library in the
/// directory beside the executable is not absolute, its file name is that of
/// the library, and rewriting it gives the same path.
pub proof fn lemma_rewritten_name_is_fixed(name: Seq<char>, subdirectory: Seq<char>)
    requires
        file_name(name) is Some,
    ensures
        !is_absolute(executable_relative(subdirectory, file_name(name)->0)),
        file_name(executable_relative(subdirectory, file_name(name)->0)) == file_name(name),
        executable_relative(
            subdirectory,
            file_name(executable_relative(subdirectory, file_name(name)->0))->0,
        ) == executable_relative(subdirectory, file_name(name)->0),
{
    let base = file_name(name)->0;
    let path = executable_relative(subdirectory, base);
    reveal_strlit("@executable_path/");
    reveal_strlit("/");
    lemma_file_name_is_a_name(name);
    let head = search_path(subdirectory);
    assert(head.push(separator()) =~= head + "/"@);
    lemma_file_name_of_joined(head, base);
    assert(path[0] == '@');
    if is_absolute(path) {
        assert(path.subrange(0, 1)[0] == '/');
    }
}

/// What rewriting leaves is rewritten.
pub proof fn lemma_rewriting_rewrites(
    commands: Seq<(LoadCommandKind, Seq<char>)>,
    subdirectory: Seq<char>,
)
    requires
        has_one_identity(commands),
        forall|i: int| 0 <= i < commands.len() ==> !is_nameless(#[trigger] commands[i]),
    ensures
        is_rewritten(rewritten(commands, subdirectory), subdirectory),
{
    let mapped = commands.map_values(
        |c: (LoadCommandKind, Seq<char>)|
            if needs_rewrite(c) {
                (c.0, executable_relative(subdirectory, file_name(c.1)->0))
            } else {
                c
            },
    );
    let entry = (LoadCommandKind::Rpath, search_path(subdirectory));
    let after = rewritten(commands, subdirectory);
    assert forall|i: int| 0 <= i < mapped.len() && needs_rewrite(#[trigger] mapped[i]) implies {
        &&& file_name(mapped[i].1) is Some
        &&& mapped[i].1 == executable_relative(subdirectory, file_name(mapped[i].1)->0)
    } by {
        if needs_rewrite(commands[i]) {
            lemma_rewritten_name_is_fixed(commands[i].1, subdirectory);
        }
    }
    assert forall|i: int, j: int|
        0 <= i < mapped.len() && 0 <= j < mapped.len() && (#[trigger] mapped[i]).0
            == LoadCommandKind::IdDylib && (#[trigger] mapped[j]).0
            == LoadCommandKind::IdDylib implies mapped[i].1 == mapped[j].1 by {
        assert(commands[i].0 == LoadCommandKind::IdDylib);
        assert(commands[j].0 == LoadCommandKind::IdDylib);
        assert(commands[i].1 == commands[j].1);
    }
    if mapped.contains(entry) {
        assert(after == mapped);
    } else {
        assert(after == mapped.push(entry));
        assert(after[mapped.len() as int] == entry);
        assert forall|i: int| 0 <= i < after.len() && needs_rewrite(#[trigger] after[i]) implies {
            &&& file_name(after[i].1) is Some
            &&& after[i].1 == executable_relative(subdirectory, file_name(after[i].1)->0)
        } by {
            if i < mapped.len() {
                assert(after[i] == mapped[i]);
            }
        }
        assert forall|i: int, j: int|
            0 <= i < after.len() && 0 <= j < after.len() && (#[trigger] after[i]).0
                == LoadCommandKind::IdDylib && (#[trigger] after[j]).0
                == LoadCommandKind::IdDylib implies after[i].1 == after[j].1 by {
            assert(after[i] == mapped[i]);
            assert(after[j] == mapped[j]);
        }
    }
}

/// The load commands of a binary that can be rewritten: it has one identity at
/// most, and every library that is not named by an absolute path is named by
/// a path with a file name.
pub open spec fn can_be_rewritten(commands: Seq<(LoadCommandKind, Seq<char>)>) -> bool {
    &&& has_one_identity(commands)
    &&& forall|i: int| 0 <= i < commands.len() ==> !is_nameless(#[trigger] commands[i])
}

/// The path that a command holds once it is rewritten.
pub open spec fn rewritten_path(
    command: (LoadCommandKind, Seq<char>),
    subdirectory: Seq<char>,
) -> Seq<char> {
    if needs_rewrite(command) {
        executable_relative(subdirectory, file_name(command.1)->0)
    } else {
        command.1
    }
}

/// The load commands after the search path is added and the first `count`
/// commands are rewritten.
spec fn partly_rewritten(
    commands: Seq<(LoadCommandKind, Seq<char>)>,
    subdirectory: Seq<char>,
    count: int,
) -> Seq<(LoadCommandKind, Seq<char>)> {
    applied_all(
        commands,
        seq![EditView::AddSearchPath { path: search_path(subdirectory) }] + library_edits(
            commands.subrange(0, count),
            subdirectory,
        ),
    )
}

/// After the first `count` commands are rewritten, each of them holds its
/// rewritten path, every other command holds the path it held or its
/// rewritten path, and nothing else has changed.
proof fn lemma_partly_rewritten(
    commands: Seq<(LoadCommandKind, Seq<char>)>,
    subdirectory: Seq<char>,
    count: int,
)
    requires
        can_be_rewritten(commands),
        0 <= count <= commands.len(),
    ensures
        ({
            let first = EditView::AddSearchPath { path: search_path(subdirectory) };
            let begun = applied(commands, first);
            let now = partly_rewritten(commands, subdirectory, count);
            &&& now.len() == begun.len()
            &&& forall|i: int|
                0 <= i < commands.len() ==> {
                    &&& (#[trigger] now[i]).0 == commands[i].0
                    &&& (now[i].1 == commands[i].1 || now[i].1 == rewritten_path(
                        commands[i],
                        subdirectory,
                    ))
                    &&& i < count ==> now[i].1 == rewritten_path(commands[i], subdirectory)
                }
            &&& forall|i: int| commands.len() <= i < now.len() ==> (#[trigger] now[i]) == begun[i]
        }),
    decreases count,
{
    let first = EditView::AddSearchPath { path: search_path(subdirectory) };
    let begun = applied(commands, first);
    let part = commands.subrange(0, count);
    let edits = seq![first] + library_edits(part, subdirectory);
    let now = partly_rewritten(commands, subdirectory, count);
    if count == 0 {
        assert(part =~= Seq::empty());
        assert(edits =~= seq![first]);
        assert(edits.drop_last() =~= Seq::<EditView>::empty());
        assert(applied_all(commands, edits.drop_last()) == commands);
        assert(edits.last() == first);
        assert(now == begun);
        assert forall|i: int| 0 <= i < commands.len() implies (#[trigger] now[i]) == commands[i] by {}
    } else {
        lemma_partly_rewritten(commands, subdirectory, count - 1);
        let before = partly_rewritten(commands, subdirectory, count - 1);
        let shorter = commands.subrange(0, count - 1);
        assert(part.drop_last() =~= shorter);
        let last = part.last();
        assert(last == commands[count - 1]);
        if needs_rewrite(last) {
            let change = edit_of(last, subdirectory);
            let to = executable_relative(subdirectory, file_name(last.1)->0);
            assert(edits =~= (seq![first] + library_edits(shorter, subdirectory)).push(change));
            assert(edits.drop_last() =~= seq![first] + library_edits(shorter, subdirectory));
            assert(edits.last() == change);
            assert(now == applied(before, change));
            assert(now.len() == before.len());
            assert forall|i: int| 0 <= i < commands.len() implies {
                &&& (#[trigger] now[i]).0 == commands[i].0
                &&& (now[i].1 == commands[i].1 || now[i].1 == rewritten_path(
                    commands[i],
                    subdirectory,
                ))
                &&& i < count ==> now[i].1 == rewritten_path(commands[i], subdirectory)
            } by {
                let held = before[i];
                assert(held.0 == commands[i].0);
                if last.0 == LoadCommandKind::IdDylib {
                    if held.0 == LoadCommandKind::IdDylib {
                        assert(commands[i].1 == commands[count - 1].1);
                        assert(needs_rewrite(commands[i]));
                    }
                } else if held.0.names_library() && held.0 != LoadCommandKind::IdDylib && held.1
                    == last.1 {
                    if held.1 == commands[i].1 {
                        assert(needs_rewrite(commands[i]));
                    } else {
                        assert(needs_rewrite(commands[i]));
                        lemma_rewritten_name_is_fixed(commands[i].1, subdirectory);
                    }
                }
            }
            assert forall|i: int| commands.len() <= i < now.len() implies (#[trigger] now[i])
                == begun[i] by {
                assert(before[i] == begun[i]);
                assert(begun[i] == (LoadCommandKind::Rpath, search_path(subdirectory)));
            }
        } else {
            assert(edits =~= seq![first] + library_edits(shorter, subdirectory));
            assert(now == before);
        }
    }
}

/// The changes do what rewriting is meant to leave.
pub proof fn lemma_edits_rewrite(
    commands: Seq<(LoadCommandKind, Seq<char>)>,
    subdirectory: Seq<char>,
)
    requires
        can_be_rewritten(commands),
    ensures
        search_path_edits(commands, subdirectory) is Some,
        applied_all(commands, search_path_edits(commands, subdirectory)->0) == rewritten(
            commands,
            subdirectory,
        ),
{
    let count = commands.len() as int;
    lemma_partly_rewritten(commands, subdirectory, count);
    assert(commands.subrange(0, count) =~= commands);
    let now = partly_rewritten(commands, subdirectory, count);
    let entry = (LoadCommandKind::Rpath, search_path(subdirectory));
    let mapped = commands.map_values(
        |c: (LoadCommandKind, Seq<char>)|
            if needs_rewrite(c) {
                (c.0, executable_relative(subdirectory, file_name(c.1)->0))
            } else {
                c
            },
    );
    assert forall|i: int| 0 <= i < commands.len() implies now[i] == mapped[i] by {
        assert(now[i].0 == commands[i].0);
        assert(now[i].1 == rewritten_path(commands[i], subdirectory));
    }
    if commands.contains(entry) {
        let at = choose|at: int| 0 <= at < commands.len() && commands[at] == entry;
        assert(mapped[at] == entry);
        assert(now =~= mapped);
    } else {
        if mapped.contains(entry) {
            let at = choose|at: int| 0 <= at < mapped.len() && mapped[at] == entry;
            assert(commands[at].0 == LoadCommandKind::Rpath);
            assert(commands[at] == entry);
        }
        assert(now[count] == entry);
        assert(now =~= mapped.push(entry));
    }
}

/// Rewriting is idempotent: after the changes are made to a binary, the
/// changes that a second rewriting asks for leave its load commands as they
/// are. The search path is there once for the two, and no path is rewritten a
/// second time.
///
/// The law rests on `applied`, the model of what the tool does with a change,
/// and holds of a binary that can be rewritten: one with one identity at most
/// and a file name in every path that is not absolute.
pub proof fn lemma_rewrite_is_idempotent(
    commands: Seq<(LoadCommandKind, Seq<char>)>,
    subdirectory: Seq<char>,
)
    requires
        can_be_rewritten(commands),
    ensures
        search_path_edits(commands, subdirectory) is Some,
        ({
            let once = applied_all(commands, search_path_edits(commands, subdirectory)->0);
            &&& search_path_edits(once, subdirectory) is Some
            &&& applied_all(once, search_path_edits(once, subdirectory)->0) == once
        }),
{
    lemma_edits_rewrite(commands, subdirectory);
    lemma_rewriting_rewrites(commands, subdirectory);
    lemma_second_rewrite_changes_nothing(rewritten(commands, subdirectory), subdirectory);
}

/// The changes for the first `count` commands of a rewritten binary leave its
/// load commands as they are.
proof fn lemma_edits_keep(
    commands: Seq<(LoadCommandKind, Seq<char>)>,
    subdirectory: Seq<char>,
    count: int,
)
    requires
        is_rewritten(commands, subdirectory),
        0 <= count <= commands.len(),
    ensures
        applied_all(
            commands,
            seq![EditView::AddSearchPath { path: search_path(subdirectory) }] + library_edits(
                commands.subrange(0, count),
                subdirectory,
            ),
        ) == commands,
    decreases count,
{
    let first = EditView::AddSearchPath { path: search_path(subdirectory) };
    let part = commands.subrange(0, count);
    let edits = seq![first] + library_edits(part, subdirectory);
    if count == 0 {
        assert(edits =~= seq![first]);
        assert(edits.drop_last() =~= Seq::<EditView>::empty());
        assert(applied_all(commands, edits.drop_last()) == commands);
        assert(edits.last() == first);
    } else {
        lemma_edits_keep(commands, subdirectory, count - 1);
        let shorter = commands.subrange(0, count - 1);
        assert(part.drop_last() =~= shorter);
        let last = part.last();
        assert(last == commands[count - 1]);
        if needs_rewrite(last) {
            let edit = edit_of(last, subdirectory);
            assert(edits =~= (seq![first] + library_edits(shorter, subdirectory)).push(edit));
            assert(edits.drop_last() =~= seq![first] + library_edits(shorter, subdirectory));
            assert(edits.last() == edit);
            assert(last.1 == executable_relative(subdirectory, file_name(last.1)->0));
            assert(applied(commands, edit) =~= commands) by {
                assert forall|i: int| 0 <= i < commands.len() implies applied(commands, edit)[i]
                    == commands[i] by {
                    if commands[i].0 == LoadCommandKind::IdDylib && last.0
                        == LoadCommandKind::IdDylib {
                        assert(commands[i].1 == commands[count - 1].1);
                    }
                }
            }
        } else {
            assert(edits =~= seq![first] + library_edits(shorter, subdirectory));
        }
    }
}

/// Rewriting a binary that was rewritten changes nothing: the changes can be
/// made, and its load commands are afterwards what they were, with the one
/// search path and no path rewritten a second time. As every law on what a
/// change does, this one rests on `applied`, the model of the tool.
pub proof fn lemma_second_rewrite_changes_nothing(
    commands: Seq<(LoadCommandKind, Seq<char>)>,
    subdirectory: Seq<char>,
)
    requires
        is_rewritten(commands, subdirectory),
    ensures
        search_path_edits(commands, subdirectory) is Some,
        applied_all(commands, search_path_edits(commands, subdirectory)->0) == commands,
{
    lemma_edits_keep(commands, subdirectory, commands.len() as int);
    assert(commands.subrange(0, commands.len() as int) =~= commands);
}

/// The directory of the application: the name of the application with `.app`
/// behind it, where the bundle is put.
pub open spec fn app_directory(options: BundleOptions) -> Seq<char> {
    joined(options.spec_bundle_location(), options.options.app_name@ + ".app"@)
}

pub open spec fn contents_directory(options: BundleOptions) -> Seq<char> {
    joined(app_directory(options), "Contents"@)
}

pub open spec fn resources_directory(options: BundleOptions) -> Seq<char> {
    joined(contents_directory(options), "Resources"@)
}

pub open spec fn macos_directory(options: BundleOptions) -> Seq<char> {
    joined(contents_directory(options), "MacOS"@)
}

pub open spec fn plugins_directory(options: BundleOptions) -> Seq<char> {
    joined(macos_directory(options), PLUGINS@)
}

/// The steps that make the directories of the bundle anew.
pub open spec fn directory_steps(options: BundleOptions) -> Seq<StepView> {
    seq![
        StepView::RemoveDirectory { path: app_directory(options) },
        StepView::CreateDirectories { path: app_directory(options) },
        StepView::CreateDirectory { path: contents_directory(options) },
        StepView::CreateDirectory { path: resources_directory(options) },
        StepView::CreateDirectory { path: macos_directory(options) },
        StepView::CreateDirectory { path: plugins_directory(options) },
    ]
}

/// Where `executable` stands in the bundle.
pub open spec fn bundled_executable(options: BundleOptions, executable: Executable) -> Seq<char> {
    joined(macos_directory(options), executable.spec_bundled_name(options.options))
}

/// For each executable, in order: it is copied into the bundle, and the copy
/// is made to look for its libraries beside it.
pub open spec fn executable_steps(options: BundleOptions, executables: Seq<Executable>) -> Seq<
    StepView,
>
    decreases executables.len(),
{
    if executables.len() == 0 {
        Seq::empty()
    } else {
        executable_steps(options, executables.drop_last()).push(
            StepView::CopyFile {
                from: options.spec_compiled_executable_path(executables.last()),
                to: bundled_executable(options, executables.last()),
            },
        ).push(
            StepView::RewriteSearchPaths {
                binary: bundled_executable(options, executables.last()),
                subdirectory: PLUGINS@,
            },
        )
    }
}

/// The directory that holds the debug symbols of `binary`: beside it, under
/// its file name with `.dSYM` behind it.
pub open spec fn debug_symbols(binary: Seq<char>) -> Option<Seq<char>> {
    match file_name(binary) {
        Some(name) => Some(with_file_name(binary, name + ".dSYM"@)),
        None => None,
    }
}

/// For each library: its debug symbols are copied into `directory`, if they
/// are there.
pub open spec fn symbol_steps(libraries: Seq<Seq<char>>, directory: Seq<char>) -> Seq<StepView>
    decreases libraries.len(),
{
    if libraries.len() == 0 {
        Seq::empty()
    } else {
        let before = symbol_steps(libraries.drop_last(), directory);
        match debug_symbols(libraries.last()) {
            Some(symbols) => before.push(StepView::CopyIntoIfPresent { from: symbols, directory }),
            None => before,
        }
    }
}

/// For each library: its copy in `directory` is made to look for the other
/// libraries there.
pub open spec fn relink_steps(libraries: Seq<Seq<char>>, directory: Seq<char>) -> Seq<StepView>
    decreases libraries.len(),
{
    if libraries.len() == 0 {
        Seq::empty()
    } else {
        let before = relink_steps(libraries.drop_last(), directory);
        match file_name(libraries.last()) {
            Some(name) => before.push(
                StepView::RewriteSearchPaths {
                    binary: joined(directory, name),
                    subdirectory: PLUGINS@,
                },
            ),
            None => before,
        }
    }
}

/// Where the icon of the bundle is put: among the resources, under the name of
/// the application with the extension `icns`.
pub open spec fn icon_destination(options: BundleOptions) -> Seq<char> {
    with_extension(joined(resources_directory(options), options.options.app_name@), "icns"@)
}

/// The icon is copied, where there is one.
pub open spec fn icon_steps(options: BundleOptions, icon: Option<Seq<char>>) -> Seq<StepView> {
    match icon {
        Some(icon) => seq![StepView::CopyFile { from: icon, to: icon_destination(options) }],
        None => Seq::empty(),
    }
}

/// The file name of the icon in the bundle; empty where there is no icon.
pub open spec fn icon_name(options: BundleOptions, icon: Option<Seq<char>>) -> Seq<char> {
    match icon {
        Some(_) => match file_name(icon_destination(options)) {
            Some(name) => name,
            None => Seq::empty(),
        },
        None => Seq::empty(),
    }
}

/// The values of the property list: the name, twice, the executable, the
/// identifier, the version and the icon of the bundle, each as given.
pub open spec fn info_values(options: BundleOptions, icon: Option<Seq<char>>) -> Seq<
    (Seq<char>, Seq<char>),
> {
    seq![
        ("bundle_name"@, options.options.app_name@),
        ("bundle_display_name"@, options.options.app_name@),
        ("executable_name"@, Executable::App.spec_bundled_name(options.options)),
        ("bundle_identifier"@, options.options.identifier@),
        ("bundle_version"@, options.options.version.text()),
        ("bundle_icon"@, icon_name(options, icon)),
    ]
}

/// The property list is rendered from the name, the identifier and the
/// version exactly as they were given: each stands under its own name among
/// the values, and no other value stands under that name.
pub proof fn lemma_property_list_carries_the_options(
    options: BundleOptions,
    icon: Option<Seq<char>>,
)
    ensures
        bound(info_values(options, icon), "bundle_name"@) == Some(options.options.app_name@),
        bound(info_values(options, icon), "bundle_display_name"@) == Some(
            options.options.app_name@,
        ),
        bound(info_values(options, icon), "bundle_identifier"@) == Some(
            options.options.identifier@,
        ),
        bound(info_values(options, icon), "bundle_version"@) == Some(
            options.options.version.text(),
        ),
{
    reveal_strlit("bundle_name");
    reveal_strlit("bundle_display_name");
    reveal_strlit("executable_name");
    reveal_strlit("bundle_identifier");
    reveal_strlit("bundle_version");
    reveal_strlit("bundle_icon");
    assert("bundle_name"@[7] != "bundle_icon"@[7]);
    let values = info_values(options, icon);
    assert(values[0].0 == "bundle_name"@ && values[1].0 == "bundle_display_name"@);
    assert(values[2].0 == "executable_name"@ && values[3].0 == "bundle_identifier"@);
    assert(values[4].0 == "bundle_version"@ && values[5].0 == "bundle_icon"@);
    lemma_bound_at(values, 0);
    lemma_bound_at(values, 1);
    lemma_bound_at(values, 3);
    lemma_bound_at(values, 4);
}

/// The icon that the bundle gets: the first icon of the options that is there
/// and is an `icns` file.
pub open spec fn bundle_icon(options: BundleOptions, inventory: Inventory) -> Option<Seq<char>> {
    first_usable_icon(views(options.options.icons@), views(inventory.icons@), "icns"@)
}

/// The property list of the bundle, where it can be rendered.
pub open spec fn property_list(options: BundleOptions, inventory: Inventory) -> Option<Seq<char>> {
    mustache_rendering(
        Template::InfoPlist.source(),
        info_values(options, bundle_icon(options, inventory)),
    )
}

/// The steps that copy the libraries, and their debug symbols where they are
/// wanted, and make the copies look for each other.
pub open spec fn library_steps(options: BundleOptions, inventory: Inventory) -> Seq<StepView> {
    let libraries = spec_compiled_libraries(options, inventory);
    let plugins = plugins_directory(options);
    copies_into(libraries, plugins) + (if options.options.builder_flags.include_debug_symbols {
        symbol_steps(libraries, plugins)
    } else {
        Seq::empty()
    }) + relink_steps(libraries, plugins)
}

/// The steps that lay out the bundle of a macOS application.
pub open spec fn mac_bundle(options: BundleOptions, inventory: Inventory) -> Option<Seq<StepView>> {
    match property_list(options, inventory) {
        Some(list) => Some(
            directory_steps(options) + executable_steps(options, options.options.executables@)
                + library_steps(options, inventory) + icon_steps(
                options,
                bundle_icon(options, inventory),
            ) + seq![
                StepView::WriteFile {
                    path: joined(resources_directory(options), "Info.plist"@),
                    contents: list,
                },
            ],
        ),
        None => None,
    }
}

impl MacBundler {
    /// The icon of the bundle: the first icon of the options that is there and
    /// is an `icns` file.
    pub fn create_icns(&self, configuration: &BundleOptions, inventory: &Inventory) -> (icon:
        Option<String>)
        ensures
            opt_text(icon) == bundle_icon(*configuration, *inventory),
    {
        find_icon(configuration.icons(), inventory, "icns")
    }

    /// The directory that holds the debug symbols of `binary`.
    pub fn debug_symbol_file(binary: &str) -> (symbols: Option<String>)
        ensures
            opt_text(symbols) == debug_symbols(binary@),
    {
        match file_name_of(binary) {
            Some(name) => {
                let folder = concat(name.as_str(), ".dSYM");
                Some(replace_file_name(binary, folder.as_str()))
            },
            None => None,
        }
    }

    fn app_dir(options: &BundleOptions) -> (directory: String)
        ensures
            directory@ == app_directory(*options),
    {
        let location = options.bundle_location();
        let name = concat(options.app_name(), ".app");
        join(location.as_str(), name.as_str())
    }

    fn contents_dir(options: &BundleOptions) -> (directory: String)
        ensures
            directory@ == contents_directory(*options),
    {
        join(Self::app_dir(options).as_str(), "Contents")
    }

    fn macos_dir(options: &BundleOptions) -> (directory: String)
        ensures
            directory@ == macos_directory(*options),
    {
        join(Self::contents_dir(options).as_str(), "MacOS")
    }

    fn resources_dir(options: &BundleOptions) -> (directory: String)
        ensures
            directory@ == resources_directory(*options),
    {
        join(Self::contents_dir(options).as_str(), "Resources")
    }

    fn plugins_dir(options: &BundleOptions) -> (directory: String)
        ensures
            directory@ == plugins_directory(*options),
    {
        join(Self::macos_dir(options).as_str(), PLUGINS)
    }

    fn add_directories(steps: &mut Vec<Step>, options: &BundleOptions)
        ensures
            plan(final(steps)@) == plan(old(steps)@) + directory_steps(*options),
    {
        push_step(steps, remove_directory(Self::app_dir(options).as_str()));
        push_step(steps, create_directories(Self::app_dir(options).as_str()));
        push_step(steps, create_directory(Self::contents_dir(options).as_str()));
        push_step(steps, create_directory(Self::resources_dir(options).as_str()));
        push_step(steps, create_directory(Self::macos_dir(options).as_str()));
        push_step(steps, create_directory(Self::plugins_dir(options).as_str()));
        assert(plan(steps@) =~= plan(old(steps)@) + directory_steps(*options));
    }

    fn add_executables(steps: &mut Vec<Step>, options: &BundleOptions)
        ensures
            plan(final(steps)@) == plan(old(steps)@) + executable_steps(
                *options,
                options.options.executables@,
            ),
    {
        let executables = options.executables();
        let directory = Self::macos_dir(options);
        let mut i: usize = 0;
        assert(executables@.subrange(0, 0) =~= Seq::<Executable>::empty());
        assert(plan(steps@) =~= plan(old(steps)@) + executable_steps(
            *options,
            executables@.subrange(0, 0),
        ));
        while i < executables.len()
            invariant
                i <= executables.len(),
                *executables == options.options.executables,
                directory@ == macos_directory(*options),
                plan(steps@) == plan(old(steps)@) + executable_steps(
                    *options,
                    executables@.subrange(0, i as int),
                ),
            decreases executables.len() - i,
        {
            let executable = executables[i];
            let compiled = options.compiled_executable_path(&executable);
            let name = options.bundled_executable_name(&executable);
            let bundled = join(directory.as_str(), name.as_str());
            push_step(steps, copy_file(compiled.as_str(), bundled.as_str()));
            push_step(steps, rewrite_search_paths(bundled.as_str(), PLUGINS));
            proof {
                let next = executables@.subrange(0, i + 1);
                assert(next.drop_last() =~= executables@.subrange(0, i as int));
                assert(next.last() == executable);
                assert(plan(steps@) =~= plan(old(steps)@) + executable_steps(*options, next));
            }
            i = i + 1;
        }
        assert(executables@.subrange(0, executables.len() as int) =~= executables@);
    }

    fn add_symbols(steps: &mut Vec<Step>, libraries: &Vec<String>, directory: &str)
        ensures
            plan(final(steps)@) == plan(old(steps)@) + symbol_steps(views(libraries@), directory@),
    {
        let mut i: usize = 0;
        assert(views(libraries@.subrange(0, 0)) =~= Seq::<Seq<char>>::empty());
        assert(plan(steps@) =~= plan(old(steps)@) + symbol_steps(
            views(libraries@.subrange(0, 0)),
            directory@,
        ));
        while i < libraries.len()
            invariant
                i <= libraries.len(),
                plan(steps@) == plan(old(steps)@) + symbol_steps(
                    views(libraries@.subrange(0, i as int)),
                    directory@,
                ),
            decreases libraries.len() - i,
        {
            proof {
                let next = views(libraries@.subrange(0, i + 1));
                assert(next.drop_last() =~= views(libraries@.subrange(0, i as int)));
                assert(next.last() == libraries@[i as int]@);
            }
            match Self::debug_symbol_file(libraries[i].as_str()) {
                Some(symbols) => {
                    push_step(steps, copy_into_if_present(symbols.as_str(), directory));
                },
                None => {},
            }
            assert(plan(steps@) =~= plan(old(steps)@) + symbol_steps(
                views(libraries@.subrange(0, i + 1)),
                directory@,
            ));
            i = i + 1;
        }
        assert(libraries@.subrange(0, libraries.len() as int) =~= libraries@);
    }

    fn add_relinks(steps: &mut Vec<Step>, libraries: &Vec<String>, directory: &str)
        ensures
            plan(final(steps)@) == plan(old(steps)@) + relink_steps(views(libraries@), directory@),
    {
        let mut i: usize = 0;
        assert(views(libraries@.subrange(0, 0)) =~= Seq::<Seq<char>>::empty());
        assert(plan(steps@) =~= plan(old(steps)@) + relink_steps(
            views(libraries@.subrange(0, 0)),
            directory@,
        ));
        while i < libraries.len()
            invariant
                i <= libraries.len(),
                plan(steps@) == plan(old(steps)@) + relink_steps(
                    views(libraries@.subrange(0, i as int)),
                    directory@,
                ),
            decreases libraries.len() - i,
        {
            proof {
                let next = views(libraries@.subrange(0, i + 1));
                assert(next.drop_last() =~= views(libraries@.subrange(0, i as int)));
                assert(next.last() == libraries@[i as int]@);
            }
            match file_name_of(libraries[i].as_str()) {
                Some(name) => {
                    let copy = join(directory, name.as_str());
                    push_step(steps, rewrite_search_paths(copy.as_str(), PLUGINS));
                },
                None => {},
            }
            assert(plan(steps@) =~= plan(old(steps)@) + relink_steps(
                views(libraries@.subrange(0, i + 1)),
                directory@,
            ));
            i = i + 1;
        }
        assert(libraries@.subrange(0, libraries.len() as int) =~= libraries@);
    }

    fn add_libraries(steps: &mut Vec<Step>, options: &BundleOptions, inventory: &Inventory)
        ensures
            plan(final(steps)@) == plan(old(steps)@) + library_steps(*options, *inventory),
    {
        let libraries = compiled_libraries(options, inventory);
        let plugins = Self::plugins_dir(options);
        copy_each_into(steps, &libraries, plugins.as_str());
        if options.include_debug_symbols() {
            Self::add_symbols(steps, &libraries, plugins.as_str());
        }
        Self::add_relinks(steps, &libraries, plugins.as_str());
        assert(plan(steps@) =~= plan(old(steps)@) + library_steps(*options, *inventory));
    }

    fn icon_path(options: &BundleOptions) -> (path: String)
        ensures
            path@ == icon_destination(*options),
    {
        let resources = Self::resources_dir(options);
        let named = join(resources.as_str(), options.app_name());
        replace_extension(named.as_str(), "icns")
    }

    fn add_icon(steps: &mut Vec<Step>, options: &BundleOptions, icon: &Option<String>)
        ensures
            plan(final(steps)@) == plan(old(steps)@) + icon_steps(*options, opt_text(*icon)),
    {
        match icon {
            Some(icon) => {
                let destination = Self::icon_path(options);
                push_step(steps, copy_file(icon.as_str(), destination.as_str()));
            },
            None => {},
        }
        assert(plan(steps@) =~= plan(old(steps)@) + icon_steps(*options, opt_text(*icon)));
    }

    /// The values that the property list of the bundle is rendered with.
    pub fn info(options: &BundleOptions, icon: &Option<String>) -> (values: Vec<TemplateValue>)
        ensures
            bindings(values@) == info_values(*options, opt_text(*icon)),
    {
        let icon_file = match icon {
            Some(_) => match file_name_of(Self::icon_path(options).as_str()) {
                Some(name) => name,
                None => String::new(),
            },
            None => String::new(),
        };
        let mut values: Vec<TemplateValue> = Vec::new();
        assert(bindings(values@) =~= Seq::empty());
        bind(&mut values, "bundle_name", options.app_name());
        bind(&mut values, "bundle_display_name", options.app_name());
        bind(
            &mut values,
            "executable_name",
            options.bundled_executable_name(&Executable::App).as_str(),
        );
        bind(&mut values, "bundle_identifier", options.identifier());
        bind(&mut values, "bundle_version", options.version().to_string().as_str());
        bind(&mut values, "bundle_icon", icon_file.as_str());
        assert(bindings(values@) =~= info_values(*options, opt_text(*icon)));
        values
    }
}

impl Bundler for MacBundler {
    open spec fn spec_platform(&self) -> Platform {
        Platform::Mac
    }

    open spec fn spec_executable_directory(&self, options: BundleOptions) -> Seq<char> {
        macos_directory(options)
    }

    open spec fn spec_resources_directory(&self, options: BundleOptions) -> Seq<char> {
        resources_directory(options)
    }

    open spec fn spec_pre_compile(
        &self,
        options: BundleOptions,
        executable: Executable,
        icon: Option<Seq<char>>,
    ) -> Option<Seq<StepView>> {
        Some(Seq::empty())
    }

    open spec fn spec_post_compile(&self, options: BundleOptions, executable: Executable) -> Seq<
        StepView,
    > {
        Seq::empty()
    }

    open spec fn spec_bundle(&self, options: BundleOptions, inventory: Inventory) -> Option<
        Seq<StepView>,
    > {
        mac_bundle(options, inventory)
    }

    fn platform(&self) -> (platform: Platform) {
        Platform::Mac
    }

    fn pre_compile(&self, options: &ExecutableOptions, icon: Option<&str>) -> (steps: Result<
        Vec<Step>,
        Error,
    >) {
        Ok(no_steps())
    }

    fn post_compile(
        &self,
        bundle_options: &BundleOptions,
        executable: &Executable,
        executable_options: &ExecutableOptions,
    ) -> (steps: Vec<Step>) {
        no_steps()
    }

    /// The bundle of a macOS application: the directories of the application,
    /// made anew; each executable, copied and made to look for its libraries
    /// beside it; the compiled libraries, copied beside the executables, with
    /// their debug symbols where wanted, and made to look for each other
    /// there; the icon; and the property list, among the resources. The one
    /// thing that can fail
    /// before any step is taken is the rendering of the property list.
    fn bundle(&self, options: &BundleOptions, inventory: &Inventory) -> (steps: Result<
        Vec<Step>,
        Error,
    >)
        ensures
            steps matches Err(error) ==> error matches Error::Template { name } && name@
                == Template::InfoPlist.name(),
    {
        let icon = self.create_icns(options, inventory);
        let values = Self::info(options, &icon);
        match render(Template::InfoPlist, &values) {
            Ok(list) => {
                let mut steps = no_steps();
                Self::add_directories(&mut steps, options);
                Self::add_executables(&mut steps, options);
                Self::add_libraries(&mut steps, options, inventory);
                Self::add_icon(&mut steps, options, &icon);
                let resources = Self::resources_dir(options);
                let path = join(resources.as_str(), "Info.plist");
                push_step(&mut steps, write_file(path.as_str(), list.as_str()));
                assert(Some(plan(steps@)) =~= mac_bundle(*options, *inventory));
                Ok(steps)
            },
            Err(error) => Err(error),
        }
    }

    fn bundled_executable_directory(&self, options: &BundleOptions) -> (directory: String) {
        Self::macos_dir(options)
    }

    fn bundled_resources_directory(&self, options: &BundleOptions) -> (directory: String) {
        Self::resources_dir(options)
    }
}

} // verus!

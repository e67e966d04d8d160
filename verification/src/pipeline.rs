//! The build as a whole: which bundler a build gets, the stages it goes
//! through, and what is written about it.
use vstd::prelude::*;
use crate::bundlers::android::AndroidBundler;
use crate::bundlers::linux::LinuxBundler;
use crate::bundlers::mac::MacBundler;
use crate::bundlers::windows::WindowsBundler;
use crate::bundlers::{compile_binary, compile_steps, Bundler, Inventory};
use crate::error::Error;
use crate::options::build_options::Platform;
use crate::options::bundle_options::{BundleOptions, Executable};
use crate::options::executable_options::ExecutableOptions;
use crate::options::resolved_options::ResolvedOptions;
use crate::paths::{join, joined};
use crate::steps::{
    append_steps, create_directories, no_steps, plan, push_step, set_variable, write_file, Step,
    StepView,
};
use crate::text::{opt_str, str_eq};

verus! {

/// What the user asked the builder to do.
#[derive(Copy, Clone, Debug, PartialEq, Eq, Structural)]
pub enum Command {
    /// Compile the executables and the third-party libraries.
    Compile,
    /// Bundle what was compiled before.
    Bundle,
    /// Compile and bundle.
    Build,
}

/// How far a build has come. A build only moves forward, and a build that
/// failed moves no more.
#[derive(Copy, Clone, Debug, PartialEq, Eq, Structural)]
pub enum Stage {
    Resolved,
    ThirdPartyRequirementsChecked,
    ExecutablesCompiled,
    ThirdPartyLibrariesCompiled,
    PostProcessed,
    Bundled,
    MetadataExported,
    Failed,
}

/// What is done between two stages.
#[derive(Copy, Clone, Debug, PartialEq, Eq, Structural)]
pub enum Action {
    CheckRequirements,
    CompileExecutables,
    CompileLibraries,
    PostProcess,
    Bundle,
    ExportMetadata,
}

impl Action {
    /// The stage that the build is in once the action has succeeded.
    pub open spec fn reaches(self) -> Stage {
        match self {
            Action::CheckRequirements => Stage::ThirdPartyRequirementsChecked,
            Action::CompileExecutables => Stage::ExecutablesCompiled,
            Action::CompileLibraries => Stage::ThirdPartyLibrariesCompiled,
            Action::PostProcess => Stage::PostProcessed,
            Action::Bundle => Stage::Bundled,
            Action::ExportMetadata => Stage::MetadataExported,
        }
    }

    pub fn stage(&self) -> (stage: Stage)
        ensures
            stage == self.reaches(),
    {
        match self {
            Action::CheckRequirements => Stage::ThirdPartyRequirementsChecked,
            Action::CompileExecutables => Stage::ExecutablesCompiled,
            Action::CompileLibraries => Stage::ThirdPartyLibrariesCompiled,
            Action::PostProcess => Stage::PostProcessed,
            Action::Bundle => Stage::Bundled,
            Action::ExportMetadata => Stage::MetadataExported,
        }
    }
}

impl Stage {
    /// The place of the stage in the order of the stages.
    pub open spec fn rank(self) -> nat {
        match self {
            Stage::Resolved => 0,
            Stage::ThirdPartyRequirementsChecked => 1,
            Stage::ExecutablesCompiled => 2,
            Stage::ThirdPartyLibrariesCompiled => 3,
            Stage::PostProcessed => 4,
            Stage::Bundled => 5,
            Stage::MetadataExported => 6,
            Stage::Failed => 7,
        }
    }
}

/// What a build that is in `stage` does next; nothing once it is done, and
/// nothing after a failure. A build goes through every stage in order; a
/// compilation leaves out the bundle; a bundling leaves out everything else.
pub open spec fn next_action(command: Command, stage: Stage) -> Option<Action> {
    match command {
        Command::Build => match stage {
            Stage::Resolved => Some(Action::CheckRequirements),
            Stage::ThirdPartyRequirementsChecked => Some(Action::CompileExecutables),
            Stage::ExecutablesCompiled => Some(Action::CompileLibraries),
            Stage::ThirdPartyLibrariesCompiled => Some(Action::PostProcess),
            Stage::PostProcessed => Some(Action::Bundle),
            Stage::Bundled => Some(Action::ExportMetadata),
            Stage::MetadataExported => None,
            Stage::Failed => None,
        },
        Command::Compile => match stage {
            Stage::Resolved => Some(Action::CheckRequirements),
            Stage::ThirdPartyRequirementsChecked => Some(Action::CompileExecutables),
            Stage::ExecutablesCompiled => Some(Action::CompileLibraries),
            Stage::ThirdPartyLibrariesCompiled => Some(Action::PostProcess),
            Stage::PostProcessed => Some(Action::ExportMetadata),
            Stage::Bundled => None,
            Stage::MetadataExported => None,
            Stage::Failed => None,
        },
        Command::Bundle => match stage {
            Stage::Resolved => Some(Action::Bundle),
            _ => None,
        },
    }
}

/// The stage after the action of `stage` has ended: the stage that the action
/// reaches if it succeeded, failure if it did not. A build that has nothing
/// left to do stays where it is.
pub open spec fn next_stage(command: Command, stage: Stage, succeeded: bool) -> Stage {
    match next_action(command, stage) {
        Some(action) => if succeeded {
            action.reaches()
        } else {
            Stage::Failed
        },
        None => stage,
    }
}

/// The stage that a build is in after the outcomes of its actions, one after
/// the other, beginning at `stage`.
pub open spec fn stage_after(command: Command, stage: Stage, outcomes: Seq<bool>) -> Stage
    decreases outcomes.len(),
{
    if outcomes.len() == 0 {
        stage
    } else {
        next_stage(command, stage_after(command, stage, outcomes.drop_last()), outcomes.last())
    }
}

/// What a build that is in `stage` does next.
pub fn action_after(command: Command, stage: Stage) -> (action: Option<Action>)
    ensures
        action == next_action(command, stage),
{
    match command {
        Command::Build => match stage {
            Stage::Resolved => Some(Action::CheckRequirements),
            Stage::ThirdPartyRequirementsChecked => Some(Action::CompileExecutables),
            Stage::ExecutablesCompiled => Some(Action::CompileLibraries),
            Stage::ThirdPartyLibrariesCompiled => Some(Action::PostProcess),
            Stage::PostProcessed => Some(Action::Bundle),
            Stage::Bundled => Some(Action::ExportMetadata),
            Stage::MetadataExported => None,
            Stage::Failed => None,
        },
        Command::Compile => match stage {
            Stage::Resolved => Some(Action::CheckRequirements),
            Stage::ThirdPartyRequirementsChecked => Some(Action::CompileExecutables),
            Stage::ExecutablesCompiled => Some(Action::CompileLibraries),
            Stage::ThirdPartyLibrariesCompiled => Some(Action::PostProcess),
            Stage::PostProcessed => Some(Action::ExportMetadata),
            Stage::Bundled => None,
            Stage::MetadataExported => None,
            Stage::Failed => None,
        },
        Command::Bundle => match stage {
            Stage::Resolved => Some(Action::Bundle),
            _ => None,
        },
    }
}

/// The stage of a build after the action of `stage` has ended.
pub fn advance(command: Command, stage: Stage, succeeded: bool) -> (next: Stage)
    ensures
        next == next_stage(command, stage, succeeded),
{
    match action_after(command, stage) {
        Some(action) => if succeeded {
            action.stage()
        } else {
            Stage::Failed
        },
        None => stage,
    }
}

/// What a build does for `command`, from its beginning.
pub fn build(command: Command) -> (first: Option<Action>)
    ensures
        first == next_action(command, Stage::Resolved),
        first is Some,
{
    action_after(command, Stage::Resolved)
}

/// As `build`, to compile only.
pub fn compile() -> (first: Option<Action>)
    ensures
        first == Some(Action::CheckRequirements),
{
    action_after(Command::Compile, Stage::Resolved)
}

/// As `build`, to bundle only.
pub fn bundle() -> (first: Option<Action>)
    ensures
        first == Some(Action::Bundle),
{
    action_after(Command::Bundle, Stage::Resolved)
}

/// A build moves forward: every action leads to a later stage, whether it
/// succeeds or fails.
pub proof fn lemma_stages_are_sequential(command: Command, stage: Stage, succeeded: bool)
    requires
        next_action(command, stage) is Some,
    ensures
        next_stage(command, stage, succeeded).rank() > stage.rank(),
{
}

/// A failure ends the build: after a failed action nothing is done, whatever
/// is reported afterwards, and the build stays failed.
pub proof fn lemma_failure_is_final(command: Command, stage: Stage, later: Seq<bool>)
    requires
        next_action(command, stage) is Some,
    ensures
        next_action(command, next_stage(command, stage, false)) is None,
        stage_after(command, next_stage(command, stage, false), later) == Stage::Failed,
    decreases later.len(),
{
    if later.len() > 0 {
        lemma_failure_is_final(command, stage, later.drop_last());
    }
}

/// A build whose actions all succeed ends after a number of actions that
/// depends on the command alone: six for a build, five for a compilation, one
/// for a bundling.
pub proof fn lemma_builds_end()
    ensures
        next_action(
            Command::Build,
            stage_after(Command::Build, Stage::Resolved, Seq::new(6, |i: int| true)),
        ) is None,
        stage_after(Command::Build, Stage::Resolved, Seq::new(6, |i: int| true))
            == Stage::MetadataExported,
        stage_after(Command::Compile, Stage::Resolved, Seq::new(5, |i: int| true))
            == Stage::MetadataExported,
        stage_after(Command::Bundle, Stage::Resolved, Seq::new(1, |i: int| true))
            == Stage::Bundled,
{
    let six = Seq::new(6, |i: int| true);
    let five = Seq::new(5, |i: int| true);
    let four = Seq::new(4, |i: int| true);
    let three = Seq::new(3, |i: int| true);
    let two = Seq::new(2, |i: int| true);
    let one = Seq::new(1, |i: int| true);
    assert(one.drop_last() =~= Seq::<bool>::empty());
    assert(two.drop_last() =~= one);
    assert(three.drop_last() =~= two);
    assert(four.drop_last() =~= three);
    assert(five.drop_last() =~= four);
    assert(six.drop_last() =~= five);
    let none = Seq::<bool>::empty();
    assert(one.last() && two.last() && three.last() && four.last() && five.last() && six.last());
    assert(stage_after(Command::Build, Stage::Resolved, none) == Stage::Resolved);
    assert(stage_after(Command::Compile, Stage::Resolved, none) == Stage::Resolved);
    assert(stage_after(Command::Bundle, Stage::Resolved, none) == Stage::Resolved);
    assert(stage_after(Command::Build, Stage::Resolved, one)
        == Stage::ThirdPartyRequirementsChecked);
    assert(stage_after(Command::Build, Stage::Resolved, two) == Stage::ExecutablesCompiled);
    assert(stage_after(Command::Build, Stage::Resolved, three)
        == Stage::ThirdPartyLibrariesCompiled);
    assert(stage_after(Command::Build, Stage::Resolved, four) == Stage::PostProcessed);
    assert(stage_after(Command::Build, Stage::Resolved, five) == Stage::Bundled);
    assert(stage_after(Command::Compile, Stage::Resolved, one)
        == Stage::ThirdPartyRequirementsChecked);
    assert(stage_after(Command::Compile, Stage::Resolved, two) == Stage::ExecutablesCompiled);
    assert(stage_after(Command::Compile, Stage::Resolved, three)
        == Stage::ThirdPartyLibrariesCompiled);
    assert(stage_after(Command::Compile, Stage::Resolved, four) == Stage::PostProcessed);
}

/// A bundler for any platform: the one of the four that the platform asks
/// for.
#[derive(Copy, Clone, Debug, PartialEq, Eq)]
pub enum PlatformBundler {
    Mac(MacBundler),
    Windows(WindowsBundler),
    Linux(LinuxBundler),
    Android(AndroidBundler),
}

impl Bundler for PlatformBundler {
    open spec fn spec_platform(&self) -> Platform {
        match self {
            PlatformBundler::Mac(b) => b.spec_platform(),
            PlatformBundler::Windows(b) => b.spec_platform(),
            PlatformBundler::Linux(b) => b.spec_platform(),
            PlatformBundler::Android(b) => b.spec_platform(),
        }
    }

    open spec fn spec_executable_directory(&self, options: BundleOptions) -> Seq<char> {
        match self {
            PlatformBundler::Mac(b) => b.spec_executable_directory(options),
            PlatformBundler::Windows(b) => b.spec_executable_directory(options),
            PlatformBundler::Linux(b) => b.spec_executable_directory(options),
            PlatformBundler::Android(b) => b.spec_executable_directory(options),
        }
    }

    open spec fn spec_resources_directory(&self, options: BundleOptions) -> Seq<char> {
        match self {
            PlatformBundler::Mac(b) => b.spec_resources_directory(options),
            PlatformBundler::Windows(b) => b.spec_resources_directory(options),
            PlatformBundler::Linux(b) => b.spec_resources_directory(options),
            PlatformBundler::Android(b) => b.spec_resources_directory(options),
        }
    }

    open spec fn spec_pre_compile(
        &self,
        options: BundleOptions,
        executable: Executable,
        icon: Option<Seq<char>>,
    ) -> Option<Seq<StepView>> {
        match self {
            PlatformBundler::Mac(b) => b.spec_pre_compile(options, executable, icon),
            PlatformBundler::Windows(b) => b.spec_pre_compile(options, executable, icon),
            PlatformBundler::Linux(b) => b.spec_pre_compile(options, executable, icon),
            PlatformBundler::Android(b) => b.spec_pre_compile(options, executable, icon),
        }
    }

    open spec fn spec_post_compile(&self, options: BundleOptions, executable: Executable) -> Seq<
        StepView,
    > {
        match self {
            PlatformBundler::Mac(b) => b.spec_post_compile(options, executable),
            PlatformBundler::Windows(b) => b.spec_post_compile(options, executable),
            PlatformBundler::Linux(b) => b.spec_post_compile(options, executable),
            PlatformBundler::Android(b) => b.spec_post_compile(options, executable),
        }
    }

    open spec fn spec_bundle(&self, options: BundleOptions, inventory: Inventory) -> Option<
        Seq<StepView>,
    > {
        match self {
            PlatformBundler::Mac(b) => b.spec_bundle(options, inventory),
            PlatformBundler::Windows(b) => b.spec_bundle(options, inventory),
            PlatformBundler::Linux(b) => b.spec_bundle(options, inventory),
            PlatformBundler::Android(b) => b.spec_bundle(options, inventory),
        }
    }

    fn platform(&self) -> (platform: Platform) {
        match self {
            PlatformBundler::Mac(b) => b.platform(),
            PlatformBundler::Windows(b) => b.platform(),
            PlatformBundler::Linux(b) => b.platform(),
            PlatformBundler::Android(b) => b.platform(),
        }
    }

    fn pre_compile(&self, options: &ExecutableOptions, icon: Option<&str>) -> (steps: Result<
        Vec<Step>,
        Error,
    >) {
        match self {
            PlatformBundler::Mac(b) => b.pre_compile(options, icon),
            PlatformBundler::Windows(b) => b.pre_compile(options, icon),
            PlatformBundler::Linux(b) => b.pre_compile(options, icon),
            PlatformBundler::Android(b) => b.pre_compile(options, icon),
        }
    }

    fn post_compile(
        &self,
        bundle_options: &BundleOptions,
        executable: &Executable,
        executable_options: &ExecutableOptions,
    ) -> (steps: Vec<Step>) {
        match self {
            PlatformBundler::Mac(b) => b.post_compile(bundle_options, executable, executable_options),
            PlatformBundler::Windows(b) => b.post_compile(
                bundle_options,
                executable,
                executable_options,
            ),
            PlatformBundler::Linux(b) => b.post_compile(
                bundle_options,
                executable,
                executable_options,
            ),
            PlatformBundler::Android(b) => b.post_compile(
                bundle_options,
                executable,
                executable_options,
            ),
        }
    }

    fn bundle(&self, options: &BundleOptions, inventory: &Inventory) -> (steps: Result<
        Vec<Step>,
        Error,
    >) {
        match self {
            PlatformBundler::Mac(b) => b.bundle(options, inventory),
            PlatformBundler::Windows(b) => b.bundle(options, inventory),
            PlatformBundler::Linux(b) => b.bundle(options, inventory),
            PlatformBundler::Android(b) => b.bundle(options, inventory),
        }
    }

    fn bundled_executable_directory(&self, options: &BundleOptions) -> (directory: String) {
        match self {
            PlatformBundler::Mac(b) => b.bundled_executable_directory(options),
            PlatformBundler::Windows(b) => b.bundled_executable_directory(options),
            PlatformBundler::Linux(b) => b.bundled_executable_directory(options),
            PlatformBundler::Android(b) => b.bundled_executable_directory(options),
        }
    }

    fn bundled_resources_directory(&self, options: &BundleOptions) -> (directory: String) {
        match self {
            PlatformBundler::Mac(b) => b.bundled_resources_directory(options),
            PlatformBundler::Windows(b) => b.bundled_resources_directory(options),
            PlatformBundler::Linux(b) => b.bundled_resources_directory(options),
            PlatformBundler::Android(b) => b.bundled_resources_directory(options),
        }
    }
}

/// Every bundle begins anew: whatever the platform, the first step removes
/// the root of the bundle, and the second makes it again. So nothing of an
/// earlier bundle, or of one that failed half way, stays.
pub proof fn lemma_bundles_begin_anew(
    bundler: PlatformBundler,
    options: BundleOptions,
    inventory: Inventory,
)
    requires
        bundler.spec_bundle(options, inventory) is Some,
    ensures
        ({
            let steps = bundler.spec_bundle(options, inventory)->0;
            &&& steps.len() >= 2
            &&& steps[0] matches StepView::RemoveDirectory { path }
            &&& steps[1] == (StepView::CreateDirectories { path })
        }),
{
    match bundler {
        PlatformBundler::Mac(b) => {
            assert(crate::bundlers::mac::directory_steps(options).len() == 6);
        },
        PlatformBundler::Windows(b) => {
            assert(crate::bundlers::windows::directory_steps(options).len() == 3);
        },
        PlatformBundler::Linux(b) => {
            assert(crate::bundlers::linux::directory_steps(options).len() == 3);
        },
        PlatformBundler::Android(b) => {},
    }
}

/// The bundler for the platform of the target.
pub fn bundler(options: &ResolvedOptions) -> (bundler: PlatformBundler)
    ensures
        bundler.spec_platform() == options.target.platform_of(),
        match options.target.platform_of() {
            Platform::Mac => bundler is Mac,
            Platform::Windows => bundler is Windows,
            Platform::Linux => bundler is Linux,
            Platform::Android => bundler is Android,
        },
{
    match options.platform() {
        Platform::Mac => PlatformBundler::Mac(MacBundler::new()),
        Platform::Windows => PlatformBundler::Windows(WindowsBundler::new()),
        Platform::Linux => PlatformBundler::Linux(LinuxBundler::new()),
        Platform::Android => PlatformBundler::Android(AndroidBundler::new()),
    }
}

/// The resolved options with the bundler of their platform.
pub fn prepare(options: ResolvedOptions) -> (prepared: (PlatformBundler, BundleOptions))
    ensures
        prepared.1.options == options,
        prepared.0.spec_platform() == options.target.platform_of(),
{
    let bundler = bundler(&options);
    (bundler, BundleOptions::new(options))
}

/// The steps that compile `executables`, one after the other: for each, what
/// the bundler does before the compilation, and then the compilation. There
/// are none where the bundler cannot prepare one of them.
pub open spec fn executables_steps<B: Bundler>(
    bundler: B,
    options: BundleOptions,
    icon: Option<Seq<char>>,
    executables: Seq<Executable>,
) -> Option<Seq<StepView>>
    decreases executables.len(),
{
    if executables.len() == 0 {
        Some(Seq::empty())
    } else {
        match (
            executables_steps(bundler, options, icon, executables.drop_last()),
            bundler.spec_pre_compile(options, executables.last(), icon),
        ) {
            (Some(before), Some(prepared)) => Some(
                before + prepared + compile_steps(options, executables.last()),
            ),
            _ => None,
        }
    }
}

/// What cannot be done for the first executables cannot be done for all.
proof fn lemma_unprepared_stays_unprepared<B: Bundler>(
    bundler: B,
    options: BundleOptions,
    icon: Option<Seq<char>>,
    executables: Seq<Executable>,
    count: int,
)
    requires
        0 <= count <= executables.len(),
        executables_steps(bundler, options, icon, executables.subrange(0, count)) is None,
    ensures
        executables_steps(bundler, options, icon, executables) is None,
    decreases executables.len() - count,
{
    if count < executables.len() {
        let next = executables.subrange(0, count + 1);
        assert(next.drop_last() =~= executables.subrange(0, count));
        lemma_unprepared_stays_unprepared(bundler, options, icon, executables, count + 1);
    } else {
        assert(executables.subrange(0, count) =~= executables);
    }
}

/// The steps after the compilation of `executables`, one after the other.
pub open spec fn post_process_steps<B: Bundler>(
    bundler: B,
    options: BundleOptions,
    executables: Seq<Executable>,
) -> Seq<StepView>
    decreases executables.len(),
{
    if executables.len() == 0 {
        Seq::empty()
    } else {
        post_process_steps(bundler, options, executables.drop_last()) + bundler.spec_post_compile(
            options,
            executables.last(),
        )
    }
}

/// The steps that compile the executables of the build, in their order: for
/// each of them the bundler prepares the compilation, and the compiler is
/// started. `icon` is the icon to embed, where one was found.
pub fn compile_executables<B: Bundler>(bundler: &B, bundle_options: &BundleOptions, icon: Option<
    &str,
>) -> (steps: Result<Vec<Step>, Error>)
    ensures
        match steps {
            Ok(steps) => executables_steps(
                *bundler,
                *bundle_options,
                opt_str(icon),
                bundle_options.options.executables@,
            ) == Some(plan(steps@)),
            Err(_) => executables_steps(
                *bundler,
                *bundle_options,
                opt_str(icon),
                bundle_options.options.executables@,
            ) is None,
        },
{
    let executables = bundle_options.executables();
    let mut steps = no_steps();
    let mut i: usize = 0;
    assert(executables@.subrange(0, 0) =~= Seq::<Executable>::empty());
    while i < executables.len()
        invariant
            i <= executables.len(),
            *executables == bundle_options.options.executables,
            executables_steps(
                *bundler,
                *bundle_options,
                opt_str(icon),
                executables@.subrange(0, i as int),
            ) == Some(plan(steps@)),
        decreases executables.len() - i,
    {
        let options = ExecutableOptions::new(bundle_options, executables[i]);
        proof {
            let next = executables@.subrange(0, i + 1);
            assert(next.drop_last() =~= executables@.subrange(0, i as int));
            assert(next.last() == executables@[i as int]);
        }
        match bundler.pre_compile(&options, icon) {
            Ok(prepared) => {
                append_steps(&mut steps, prepared);
                append_steps(&mut steps, compile_binary(&options));
            },
            Err(error) => {
                proof {
                    lemma_unprepared_stays_unprepared(
                        *bundler,
                        *bundle_options,
                        opt_str(icon),
                        executables@,
                        i + 1,
                    );
                }
                return Err(error);
            },
        }
        i = i + 1;
    }
    assert(executables@.subrange(0, executables.len() as int) =~= executables@);
    Ok(steps)
}

/// The steps that follow the compilation, for the executables of the build in
/// their order.
pub fn post_process<B: Bundler>(bundler: &B, bundle_options: &BundleOptions) -> (steps: Vec<Step>)
    ensures
        plan(steps@) == post_process_steps(
            *bundler,
            *bundle_options,
            bundle_options.options.executables@,
        ),
{
    let executables = bundle_options.executables();
    let mut steps = no_steps();
    let mut i: usize = 0;
    assert(executables@.subrange(0, 0) =~= Seq::<Executable>::empty());
    while i < executables.len()
        invariant
            i <= executables.len(),
            *executables == bundle_options.options.executables,
            plan(steps@) == post_process_steps(
                *bundler,
                *bundle_options,
                executables@.subrange(0, i as int),
            ),
        decreases executables.len() - i,
    {
        let executable = executables[i];
        let options = ExecutableOptions::new(bundle_options, executable);
        proof {
            let next = executables@.subrange(0, i + 1);
            assert(next.drop_last() =~= executables@.subrange(0, i as int));
            assert(next.last() == executable);
        }
        append_steps(&mut steps, bundler.post_compile(bundle_options, &executable, &options));
        i = i + 1;
    }
    assert(executables@.subrange(0, executables.len() as int) =~= executables@);
    steps
}

/// The tools that a build needs, in the order in which they are looked for:
/// the driver of the toolchain always; for a Windows target the resource
/// compiler, the manifest tool and the editor of binaries; for a macOS target
/// the tool that rewrites search paths, where the host rewrites them.
pub open spec fn tools_required(options: BundleOptions) -> Seq<Seq<char>> {
    match options.options.target.platform_of() {
        Platform::Windows => seq!["cargo"@, "rc.exe"@, "mt.exe"@, "editbin.exe"@],
        Platform::Mac => if options.options.host.platform_of() == Platform::Mac {
            seq!["cargo"@, "install_name_tool"@]
        } else {
            seq!["cargo"@]
        },
        _ => seq!["cargo"@],
    }
}

/// The tools that have to be there before anything is compiled.
pub fn required_tools(options: &BundleOptions) -> (tools: Vec<String>)
    ensures
        crate::text::views(tools@) == tools_required(*options),
{
    let mut tools: Vec<String> = Vec::new();
    tools.push(crate::text::owned("cargo"));
    match options.platform() {
        Platform::Windows => {
            tools.push(crate::text::owned("rc.exe"));
            tools.push(crate::text::owned("mt.exe"));
            tools.push(crate::text::owned("editbin.exe"));
        },
        Platform::Mac => {
            if MacBundler::rewrites_search_paths(options.host().platform()) {
                tools.push(crate::text::owned("install_name_tool"));
            }
        },
        _ => {},
    }
    assert(crate::text::views(tools@) =~= tools_required(*options));
    tools
}

/// The icon that is embedded into the executables: only a Windows executable
/// embeds one, and it is the first icon of the options that is there and is an
/// `ico` file.
pub open spec fn embedded_icon(options: BundleOptions, inventory: Inventory) -> Option<Seq<char>> {
    if options.options.target.platform_of() == Platform::Windows {
        crate::bundlers::first_usable_icon(
            crate::text::views(options.options.icons@),
            crate::text::views(inventory.icons@),
            "ico"@,
        )
    } else {
        None
    }
}

/// The icon to embed into the executables of the build, where there is one.
pub fn icon_to_embed(options: &BundleOptions, inventory: &Inventory) -> (icon: Option<String>)
    ensures
        crate::text::opt_text(icon) == embedded_icon(*options, *inventory),
{
    if options.platform().is_windows() {
        crate::bundlers::find_icon(options.icons(), inventory, "ico")
    } else {
        None
    }
}

/// The name of the file that describes the build.
pub const BUILD_INFO: &'static str = "build-info.json";

/// Where the description of the build is written.
pub open spec fn build_info_path(options: BundleOptions) -> Seq<char> {
    joined(options.spec_compilation_location(), BUILD_INFO@)
}

/// The steps that export the description of a build: the directory of the
/// resources is made sure of; the description is written, unless the file
/// holds exactly that already; and the build is told where the file is.
pub open spec fn export_steps(
    resources: Seq<char>,
    options: BundleOptions,
    description: Seq<char>,
    existing: Option<Seq<char>>,
) -> Seq<StepView> {
    seq![StepView::CreateDirectories { path: resources }] + (if existing == Some(description) {
        Seq::empty()
    } else {
        seq![StepView::WriteFile { path: build_info_path(options), contents: description }]
    }) + seq![StepView::SetVariable { name: "APP_BUILD_INFO"@, value: build_info_path(options) }]
}

/// Whether a step writes a file.
pub open spec fn writes(step: StepView) -> bool {
    step is WriteFile
}

/// The steps that export `description`, which describes the build with the
/// resolved options and the version of every library. `existing` is what the
/// file holds, if it is there.
pub fn export_build_info<B: Bundler>(
    bundler: &B,
    bundle_options: &BundleOptions,
    description: &str,
    existing: Option<&str>,
) -> (steps: Vec<Step>)
    ensures
        plan(steps@) == export_steps(
            bundler.spec_resources_directory(*bundle_options),
            *bundle_options,
            description@,
            opt_str(existing),
        ),
{
    let mut steps = no_steps();
    let resources = bundler.bundled_resources_directory(bundle_options);
    push_step(&mut steps, create_directories(resources.as_str()));
    let location = bundle_options.compilation_location();
    let path = join(location.as_str(), BUILD_INFO);
    let unchanged = match existing {
        Some(text) => str_eq(text, description),
        None => false,
    };
    if !unchanged {
        push_step(&mut steps, write_file(path.as_str(), description));
    }
    push_step(&mut steps, set_variable("APP_BUILD_INFO", path.as_str()));
    assert(plan(steps@) =~= export_steps(
        bundler.spec_resources_directory(*bundle_options),
        *bundle_options,
        description@,
        opt_str(existing),
    ));
    steps
}

/// Exporting the description of a build a second time writes nothing: when the
/// file holds what was exported, no step of the export writes a file.
pub proof fn lemma_unchanged_metadata_is_not_rewritten(
    resources: Seq<char>,
    options: BundleOptions,
    description: Seq<char>,
)
    ensures
        forall|i: int|
            0 <= i < export_steps(resources, options, description, Some(description)).len()
                ==> !writes(
                #[trigger] export_steps(resources, options, description, Some(description))[i],
            ),
        forall|before: Option<Seq<char>>|
            before != Some(description) ==> #[trigger] export_steps(
                resources,
                options,
                description,
                before,
            ).contains(
                StepView::WriteFile { path: build_info_path(options), contents: description },
            ),
{
    assert forall|before: Option<Seq<char>>| before != Some(description) implies #[trigger] export_steps(
        resources,
        options,
        description,
        before,
    ).contains(
        StepView::WriteFile { path: build_info_path(options), contents: description },
    ) by {
        let steps = export_steps(resources, options, description, before);
        assert(steps[1] == (StepView::WriteFile {
            path: build_info_path(options),
            contents: description,
        }));
    }
}

} // verus!

//! The bundlers: one interface, implemented once for each platform, and what
//! all of them share.
pub mod android;
pub mod linux;
pub mod mac;
pub mod windows;

use vstd::prelude::*;
use crate::error::Error;
use crate::options::build_options::{Platform, Target};
use crate::options::bundle_options::{BundleOptions, Executable};
use crate::options::executable_options::ExecutableOptions;
use crate::paths::{extension, has_extension, join, joined};
use crate::steps::{
    copy_file, create_directories, plan, push_step, run, set_variable, Step, StepView,
};
use crate::text::{concat, concat3, owned, views};
use crate::tools::CommandLine;

verus! {

/// What the bundlers have to know of the file system before they decide.
#[derive(Clone, Debug, PartialEq, Eq)]
pub struct Inventory {
    /// The names of the entries of the directory that holds the compiled
    /// libraries.
    pub entries: Vec<String>,
    /// Those icons of the options that are there.
    pub icons: Vec<String>,
}

/// The extension of a shared library on `platform`.
pub open spec fn library_extension(platform: Platform) -> Seq<char> {
    match platform {
        Platform::Mac => "dylib"@,
        Platform::Windows => "dll"@,
        Platform::Linux => "so"@,
        Platform::Android => "so"@,
    }
}

/// The file name under which the library `name` is kept on `platform`.
pub open spec fn library_file_name(name: Seq<char>, platform: Platform) -> Seq<char> {
    match platform {
        Platform::Mac => "lib"@ + name + ".dylib"@,
        Platform::Windows => name + ".dll"@,
        Platform::Linux => "lib"@ + name + ".so"@,
        Platform::Android => "lib"@ + name + ".so"@,
    }
}

/// The entries of `directory` that are shared libraries of `platform`, as
/// paths, in the order of `entries`.
pub open spec fn libraries_in(
    directory: Seq<char>,
    entries: Seq<Seq<char>>,
    platform: Platform,
) -> Seq<Seq<char>>
    decreases entries.len(),
{
    if entries.len() == 0 {
        Seq::empty()
    } else {
        let before = libraries_in(directory, entries.drop_last(), platform);
        let path = joined(directory, entries.last());
        if extension(path) == Some(library_extension(platform)) {
            before.push(path)
        } else {
            before
        }
    }
}

/// The compiled libraries of a build, as paths.
pub open spec fn spec_compiled_libraries(options: BundleOptions, inventory: Inventory) -> Seq<
    Seq<char>,
> {
    libraries_in(
        options.spec_compilation_location(),
        views(inventory.entries@),
        options.options.target.platform_of(),
    )
}

/// The variable that names the target, unless the target is the host.
pub open spec fn target_variables(options: BundleOptions) -> Seq<StepView> {
    if options.options.target == options.options.host {
        Seq::empty()
    } else {
        seq![
            StepView::SetVariable { name: "CARGO_TARGET"@, value: options.options.target.name() },
        ]
    }
}

/// The variables that name the virtual machine and the image to build with,
/// where they are given.
pub open spec fn vmmaker_variables(options: BundleOptions) -> Seq<StepView> {
    (match options.options.builder_flags.vmmaker_vm {
        Some(vm) => seq![StepView::SetVariable { name: "VM_CLIENT_VMMAKER"@, value: vm@ }],
        None => Seq::empty(),
    }) + (match options.options.builder_flags.vmmaker_image {
        Some(image) => seq![
            StepView::SetVariable { name: "VM_CLIENT_VMMAKER_IMAGE"@, value: image@ },
        ],
        None => Seq::empty(),
    })
}

/// The variables that the compiler and the build scripts read: the build
/// directory, the target of a cross build, the virtual machine and the image
/// where given, and the version.
pub open spec fn compile_variables(options: BundleOptions) -> Seq<StepView> {
    seq![
        StepView::SetVariable { name: "CARGO_TARGET_DIR"@, value: options.options.target_dir@ },
    ] + target_variables(options) + vmmaker_variables(options) + seq![
        StepView::SetVariable { name: "VM_CLIENT_VERSION"@, value: options.options.version.text() },
    ]
}

/// The flag for the level of reporting: none for zero, `-v` for one, `-vv` for
/// every other level.
pub open spec fn verbosity_words(level: i32) -> Seq<Seq<char>> {
    if level == 0 {
        Seq::empty()
    } else if level == 1 {
        seq!["-v"@]
    } else {
        seq!["-vv"@]
    }
}

/// The words that name the target, unless the target is the host.
pub open spec fn target_words(options: BundleOptions) -> Seq<Seq<char>> {
    if options.options.target == options.options.host {
        Seq::empty()
    } else {
        seq!["--target"@, options.options.target.name()]
    }
}

/// The flag of a release build.
pub open spec fn profile_words(options: BundleOptions) -> Seq<Seq<char>> {
    if options.options.builder_flags.release {
        seq!["--release"@]
    } else {
        Seq::empty()
    }
}

/// The features, behind their flag, where there are any.
pub open spec fn feature_words(options: BundleOptions) -> Seq<Seq<char>> {
    if options.options.builder_flags.spec_features().len() == 0 {
        Seq::empty()
    } else {
        seq!["--features"@] + options.options.builder_flags.spec_features()
    }
}

/// The command that compiles `executable`: the build command of its kind, the
/// target unless it is the host, the level of reporting, the profile, and the
/// features where there are any.
pub open spec fn compile_words(options: BundleOptions, executable: Executable) -> Seq<Seq<char>> {
    executable.build_words() + target_words(options) + verbosity_words(
        options.options.builder_flags.verbose,
    ) + profile_words(options) + feature_words(options)
}

/// What is said when the compiler fails.
pub open spec fn compile_failure() -> Seq<char> {
    "Failed to compile a vm-client"@
}

/// The steps that compile one executable: the variables, then the compiler.
pub open spec fn compile_steps(options: BundleOptions, executable: Executable) -> Seq<StepView> {
    compile_variables(options).push(
        StepView::Run { words: compile_words(options, executable), failure: compile_failure() },
    )
}

/// The extension of a shared library on `platform`.
pub fn library_extension_of(platform: Platform) -> (extension: &'static str)
    ensures
        extension@ == library_extension(platform),
{
    match platform {
        Platform::Mac => "dylib",
        Platform::Windows => "dll",
        Platform::Linux => "so",
        Platform::Android => "so",
    }
}

/// The file name under which the compiled library `name` is kept.
pub fn compiled_library_file_name(name: &str, platform: Platform) -> (file_name: String)
    ensures
        file_name@ == library_file_name(name@, platform),
{
    match platform {
        Platform::Mac => concat3("lib", name, ".dylib"),
        Platform::Windows => concat(name, ".dll"),
        Platform::Linux => concat3("lib", name, ".so"),
        Platform::Android => concat3("lib", name, ".so"),
    }
}

fn set_target_variables(steps: &mut Vec<Step>, options: &BundleOptions)
    ensures
        plan(final(steps)@) == plan(old(steps)@) + target_variables(*options),
{
    if !options.target().is_current(options.host()) {
        push_step(steps, set_variable("CARGO_TARGET", options.target().as_str()));
        assert(plan(steps@) =~= plan(old(steps)@) + target_variables(*options));
    } else {
        assert(plan(steps@) =~= plan(old(steps)@) + target_variables(*options));
    }
}

fn set_vmmaker_variables(steps: &mut Vec<Step>, options: &BundleOptions)
    ensures
        plan(final(steps)@) == plan(old(steps)@) + vmmaker_variables(*options),
{
    match options.vmmaker_vm() {
        Some(vm) => {
            push_step(steps, set_variable("VM_CLIENT_VMMAKER", vm));
        },
        None => {},
    }
    match options.vmmaker_image() {
        Some(image) => {
            push_step(steps, set_variable("VM_CLIENT_VMMAKER_IMAGE", image));
        },
        None => {},
    }
    assert(plan(steps@) =~= plan(old(steps)@) + vmmaker_variables(*options));
}

fn add_target_words(command: &mut CommandLine, options: &BundleOptions)
    ensures
        final(command).words() == old(command).words() + target_words(*options),
{
    if !options.target().is_current(options.host()) {
        command.arg("--target");
        command.arg(options.target().as_str());
    }
    assert(command.words() =~= old(command).words() + target_words(*options));
}

fn add_verbosity_words(command: &mut CommandLine, level: i32)
    ensures
        final(command).words() == old(command).words() + verbosity_words(level),
{
    if level == 0 {
    } else if level == 1 {
        command.arg("-v");
    } else {
        command.arg("-vv");
    }
    assert(command.words() =~= old(command).words() + verbosity_words(level));
}

fn add_profile_words(command: &mut CommandLine, options: &BundleOptions)
    ensures
        final(command).words() == old(command).words() + profile_words(*options),
{
    if options.release() {
        command.arg("--release");
    }
    assert(command.words() =~= old(command).words() + profile_words(*options));
}

fn add_feature_words(command: &mut CommandLine, options: &BundleOptions)
    ensures
        final(command).words() == old(command).words() + feature_words(*options),
{
    let features = options.features();
    if features.len() > 0 {
        command.arg("--features");
        command.args(&features);
    }
    assert(command.words() =~= old(command).words() + feature_words(*options));
}

/// The command that compiles the executable of `options`.
pub fn compile_command(options: &ExecutableOptions) -> (command: CommandLine)
    ensures
        command.words() == compile_words(*options.options, options.executable),
{
    let mut command = options.cargo_build_command();
    add_target_words(&mut command, options.options);
    add_verbosity_words(&mut command, options.verbose());
    add_profile_words(&mut command, options.options);
    add_feature_words(&mut command, options.options);
    command
}

/// The steps that compile the executable of `options`: the variables that the
/// compiler and the build scripts read are set, then the compiler is started.
/// A compiler that fails ends the build.
pub fn compile_binary(options: &ExecutableOptions) -> (steps: Vec<Step>)
    ensures
        plan(steps@) == compile_steps(*options.options, options.executable),
{
    let mut steps: Vec<Step> = crate::steps::no_steps();
    push_step(&mut steps, set_variable("CARGO_TARGET_DIR", options.target_dir().as_str()));
    set_target_variables(&mut steps, options.options);
    set_vmmaker_variables(&mut steps, options.options);
    let version = options.version().to_string();
    push_step(&mut steps, set_variable("VM_CLIENT_VERSION", version.as_str()));
    assert(plan(steps@) =~= compile_variables(*options.options));
    push_step(&mut steps, run(compile_command(options), "Failed to compile a vm-client"));
    steps
}

/// The entries of `directory` that are shared libraries of the target's
/// platform, as paths.
pub fn compiled_libraries_in(directory: &str, entries: &Vec<String>, options: &BundleOptions) -> (libraries:
    Vec<String>)
    ensures
        views(libraries@) == libraries_in(
            directory@,
            views(entries@),
            options.options.target.platform_of(),
        ),
{
    let platform = options.platform();
    let wanted = library_extension_of(platform);
    let mut libraries: Vec<String> = Vec::new();
    let mut i: usize = 0;
    assert(views(entries@.subrange(0, 0)) =~= Seq::<Seq<char>>::empty());
    assert(views(libraries@) =~= Seq::<Seq<char>>::empty());
    while i < entries.len()
        invariant
            i <= entries.len(),
            wanted@ == library_extension(platform),
            views(libraries@) == libraries_in(
                directory@,
                views(entries@.subrange(0, i as int)),
                platform,
            ),
        decreases entries.len() - i,
    {
        let path = join(directory, entries[i].as_str());
        let ghost before = libraries@;
        proof {
            let next = views(entries@.subrange(0, i + 1));
            assert(next.drop_last() =~= views(entries@.subrange(0, i as int)));
            assert(next.last() == entries@[i as int]@);
        }
        if has_extension(path.as_str(), wanted) {
            libraries.push(path);
            assert(views(libraries@) =~= views(before).push(path@));
        }
        i = i + 1;
    }
    assert(entries@.subrange(0, entries.len() as int) =~= entries@);
    libraries
}

/// Where the bundle is put.
pub fn bundle_location(configuration: &BundleOptions) -> (location: String)
    ensures
        location@ == configuration.spec_bundle_location(),
{
    configuration.bundle_location()
}

/// Where the compiler puts what it builds.
pub fn compilation_location(configuration: &BundleOptions) -> (location: String)
    ensures
        location@ == configuration.spec_compilation_location(),
{
    configuration.compilation_location()
}

/// Where the bundle is put where no place is named.
pub fn default_bundle_location(configuration: &BundleOptions) -> (location: String)
    ensures
        location@ == configuration.spec_default_bundle_location(),
{
    configuration.default_bundle_location()
}

/// The directory that holds the compiled libraries: where the compiler puts
/// what it builds.
pub fn compiled_libraries_directory(options: &BundleOptions) -> (directory: String)
    ensures
        directory@ == options.spec_compilation_location(),
{
    compilation_location(options)
}

/// The compiled libraries of the build, as paths.
pub fn compiled_libraries(options: &BundleOptions, inventory: &Inventory) -> (libraries: Vec<
    String,
>)
    ensures
        views(libraries@) == spec_compiled_libraries(*options, *inventory),
{
    let directory = compiled_libraries_directory(options);
    compiled_libraries_in(directory.as_str(), &inventory.entries, options)
}

/// The step that makes sure that the directory of the compiled libraries is
/// there.
pub fn ensure_compiled_libraries_directory(options: &BundleOptions) -> (step: Step)
    ensures
        step@ == (StepView::CreateDirectories { path: options.spec_compilation_location() }),
{
    let directory = compiled_libraries_directory(options);
    create_directories(directory.as_str())
}

/// What one compilation of a library is given. Two compilations are the same
/// unit of the cache when library, target and profile agree.
#[derive(Clone, Debug, PartialEq, Eq)]
pub struct LibraryCompilationContext {
    pub sources_directory: String,
    pub build_directory: String,
    pub target: Target,
    pub debug: bool,
}

/// What tells one unit of the cache from another: the library, the target and
/// the profile.
#[derive(Clone, Debug, PartialEq, Eq)]
pub struct CacheKey {
    pub library: String,
    pub target: Target,
    pub debug: bool,
}

/// The name that the cache gives a target and a profile.
pub open spec fn cache_name(target: Target, debug: bool) -> Seq<char> {
    target.name() + "-"@ + (if debug {
        "debug"@
    } else {
        "release"@
    })
}

impl LibraryCompilationContext {
    /// The key of the cache under which the compilation of `library` in this
    /// context is kept.
    pub fn cache_key(&self, library: &str) -> (key: CacheKey)
        ensures
            key.library@ == library@,
            key.target == self.target,
            key.debug == self.debug,
    {
        CacheKey { library: owned(library), target: self.target, debug: self.debug }
    }

    /// The directory whose presence says that the library of this context is
    /// compiled: below the directory of its build, named by target and
    /// profile. What the directory holds is not looked at.
    pub fn cache_directory(&self) -> (directory: String)
        ensures
            directory@ == joined(self.build_directory@, cache_name(self.target, self.debug)),
    {
        let profile = if self.debug {
            "debug"
        } else {
            "release"
        };
        let name = concat3(self.target.as_str(), "-", profile);
        join(self.build_directory.as_str(), name.as_str())
    }
}

/// The context in which the library `name` is compiled: its sources below the
/// directory of the sources, its build below the build directory, both under
/// its name; the target of the build; debug unless the build is a release.
pub fn new_library_compilation_context(name: &str, options: &BundleOptions) -> (context:
    LibraryCompilationContext)
    ensures
        context.sources_directory@ == joined(options.spec_sources_directory(), name@),
        context.build_directory@ == joined(options.options.target_dir@, name@),
        context.target == options.options.target,
        context.debug == !options.options.builder_flags.release,
{
    let sources = options.third_party_libraries_sources_directory();
    let build = options.third_party_libraries_build_directory();
    LibraryCompilationContext {
        sources_directory: join(sources.as_str(), name),
        build_directory: join(build.as_str(), name),
        target: *options.target(),
        debug: !options.release(),
    }
}

/// The steps that make sure that the directories of a context are there: that
/// of the sources first.
pub fn prepare_library_compilation(context: &LibraryCompilationContext) -> (steps: Vec<Step>)
    ensures
        plan(steps@) == seq![
            StepView::CreateDirectories { path: context.sources_directory@ },
            StepView::CreateDirectories { path: context.build_directory@ },
        ],
{
    let mut steps = crate::steps::no_steps();
    push_step(&mut steps, create_directories(context.sources_directory.as_str()));
    push_step(&mut steps, create_directories(context.build_directory.as_str()));
    assert(plan(steps@) =~= seq![
        StepView::CreateDirectories { path: context.sources_directory@ },
        StepView::CreateDirectories { path: context.build_directory@ },
    ]);
    steps
}

/// The step that follows the compilation of the library `name`: what was
/// compiled, at `compiled`, is copied into the directory of the compiled
/// libraries under the file name that the platform gives the library.
pub fn compile_library(name: &str, compiled: &str, options: &BundleOptions) -> (step: Step)
    ensures
        step@ == (StepView::CopyFile {
            from: compiled@,
            to: joined(
                options.spec_compilation_location(),
                library_file_name(name@, options.options.target.platform_of()),
            ),
        }),
{
    let directory = compiled_libraries_directory(options);
    let file_name = compiled_library_file_name(name, options.platform());
    let destination = join(directory.as_str(), file_name.as_str());
    copy_file(compiled, destination.as_str())
}

/// Whether `icon` can be used as it is: it is there, and has the extension.
pub open spec fn usable_icon(icon: Seq<char>, present: Seq<Seq<char>>, wanted: Seq<char>) -> bool {
    present.contains(icon) && extension(icon) == Some(wanted)
}

/// The first of `icons` that can be used as it is.
pub open spec fn first_usable_icon(
    icons: Seq<Seq<char>>,
    present: Seq<Seq<char>>,
    wanted: Seq<char>,
) -> Option<Seq<char>>
    decreases icons.len(),
{
    if icons.len() == 0 {
        None
    } else if usable_icon(icons[0], present, wanted) {
        Some(icons[0])
    } else {
        first_usable_icon(icons.drop_first(), present, wanted)
    }
}

/// The first icon of the options that is there and has the extension
/// `wanted`.
pub fn find_icon(icons: &Vec<String>, inventory: &Inventory, wanted: &str) -> (icon: Option<String>)
    ensures
        crate::text::opt_text(icon) == first_usable_icon(
            views(icons@),
            views(inventory.icons@),
            wanted@,
        ),
{
    let mut i: usize = 0;
    assert(views(icons@).subrange(0, icons.len() as int) =~= views(icons@));
    while i < icons.len()
        invariant
            i <= icons.len(),
            first_usable_icon(views(icons@), views(inventory.icons@), wanted@)
                == first_usable_icon(
                views(icons@).subrange(i as int, icons.len() as int),
                views(inventory.icons@),
                wanted@,
            ),
        decreases icons.len() - i,
    {
        let icon = icons[i].as_str();
        let ghost rest = views(icons@).subrange(i as int, icons.len() as int);
        assert(rest[0] == icon@);
        assert(rest.drop_first() =~= views(icons@).subrange(i + 1, icons.len() as int));
        if crate::text::contains_text(&inventory.icons, icon) && has_extension(icon, wanted) {
            return Some(owned(icon));
        }
        i = i + 1;
    }
    None
}

/// One step for each of `files`: it is copied into `directory`.
pub open spec fn copies_into(files: Seq<Seq<char>>, directory: Seq<char>) -> Seq<StepView> {
    files.map_values(|file: Seq<char>| StepView::CopyInto { from: file, directory })
}

/// Adds the steps that copy each of `files` into `directory`.
pub fn copy_each_into(steps: &mut Vec<Step>, files: &Vec<String>, directory: &str)
    ensures
        plan(final(steps)@) == plan(old(steps)@) + copies_into(views(files@), directory@),
{
    let mut i: usize = 0;
    assert(plan(steps@) =~= plan(old(steps)@) + copies_into(
        views(files@.subrange(0, 0)),
        directory@,
    ));
    while i < files.len()
        invariant
            i <= files.len(),
            plan(steps@) == plan(old(steps)@) + copies_into(
                views(files@.subrange(0, i as int)),
                directory@,
            ),
        decreases files.len() - i,
    {
        push_step(steps, crate::steps::copy_into(files[i].as_str(), directory));
        proof {
            assert(copies_into(views(files@.subrange(0, i + 1)), directory@) =~= copies_into(
                views(files@.subrange(0, i as int)),
                directory@,
            ).push(StepView::CopyInto { from: files@[i as int]@, directory: directory@ }));
            assert(plan(steps@) =~= plan(old(steps)@) + copies_into(
                views(files@.subrange(0, i + 1)),
                directory@,
            ));
        }
        i = i + 1;
    }
    assert(files@.subrange(0, files.len() as int) =~= files@);
}

/// Something that was compiled: where it is, and what it is.
#[derive(Clone, Debug, PartialEq, Eq)]
pub struct CompiledArtifact {
    /// The library or executable that was compiled.
    pub name: String,
    /// The target that it was compiled for.
    pub target: Target,
    pub path: String,
}

/// Where the compiled library `name` is kept.
pub open spec fn artifact_path(options: BundleOptions, name: Seq<char>) -> Seq<char> {
    joined(
        options.spec_compilation_location(),
        library_file_name(name, options.options.target.platform_of()),
    )
}

/// The compiled library `name`, as the bundlers find it. Where it is depends
/// on the name, the target and the profile, and on nothing else: not on
/// whether it was compiled in this build or taken from the cache.
pub fn compiled_artifact(name: &str, options: &BundleOptions) -> (artifact: CompiledArtifact)
    ensures
        artifact.name@ == name@,
        artifact.target == options.options.target,
        artifact.path@ == artifact_path(*options, name@),
{
    let directory = compiled_libraries_directory(options);
    let file_name = compiled_library_file_name(name, options.platform());
    CompiledArtifact {
        name: owned(name),
        target: *options.target(),
        path: join(directory.as_str(), file_name.as_str()),
    }
}

/// One step for each compiled library: what was compiled is copied to where
/// the bundlers find it.
pub open spec fn delivery_steps(options: BundleOptions, compiled: Seq<(String, String)>) -> Seq<
    StepView,
> {
    compiled.map_values(
        |pair: (String, String)|
            StepView::CopyFile { from: pair.1@, to: artifact_path(options, pair.0@) },
    )
}

/// The steps that follow the compilation of the third-party libraries: the
/// directory of the compiled libraries is made sure of, and each library is
/// copied there. `compiled` holds, for each library in the order of the
/// options, its name and the path of what was compiled.
pub fn compile_third_party_libraries(compiled: &Vec<(String, String)>, options: &BundleOptions) -> (steps:
    Vec<Step>)
    ensures
        plan(steps@) == seq![
            StepView::CreateDirectories { path: options.spec_compilation_location() },
        ] + delivery_steps(*options, compiled@),
{
    let mut steps = crate::steps::no_steps();
    push_step(&mut steps, ensure_compiled_libraries_directory(options));
    let ghost first = plan(steps@);
    assert(first =~= seq![
        StepView::CreateDirectories { path: options.spec_compilation_location() },
    ]);
    let mut i: usize = 0;
    assert(plan(steps@) =~= first + delivery_steps(*options, compiled@.subrange(0, 0)));
    while i < compiled.len()
        invariant
            i <= compiled.len(),
            plan(steps@) == first + delivery_steps(*options, compiled@.subrange(0, i as int)),
        decreases compiled.len() - i,
    {
        let step = compile_library(compiled[i].0.as_str(), compiled[i].1.as_str(), options);
        push_step(&mut steps, step);
        proof {
            assert(delivery_steps(*options, compiled@.subrange(0, i + 1)) =~= delivery_steps(
                *options,
                compiled@.subrange(0, i as int),
            ).push(step@));
            assert(plan(steps@) =~= first + delivery_steps(
                *options,
                compiled@.subrange(0, i + 1),
            ));
        }
        i = i + 1;
    }
    assert(compiled@.subrange(0, compiled.len() as int) =~= compiled@);
    steps
}

/// A bundler: what differs between the platforms. Each function returns the
/// steps to take; none of them touches anything.
pub trait Bundler {
    /// The platform that the bundler is for.
    spec fn spec_platform(&self) -> Platform;

    /// The directory of the bundle that holds the executables.
    spec fn spec_executable_directory(&self, options: BundleOptions) -> Seq<char>;

    /// The directory of the bundle that holds the resources.
    spec fn spec_resources_directory(&self, options: BundleOptions) -> Seq<char>;

    /// The steps before `executable` is compiled, for the icon that was found;
    /// nothing where a document cannot be rendered.
    spec fn spec_pre_compile(
        &self,
        options: BundleOptions,
        executable: Executable,
        icon: Option<Seq<char>>,
    ) -> Option<Seq<StepView>>;

    /// The steps after `executable` was compiled.
    spec fn spec_post_compile(&self, options: BundleOptions, executable: Executable) -> Seq<
        StepView,
    >;

    /// The steps that lay out the bundle; nothing where the bundle cannot be
    /// made.
    spec fn spec_bundle(&self, options: BundleOptions, inventory: Inventory) -> Option<
        Seq<StepView>,
    >;

    fn platform(&self) -> (platform: Platform)
        ensures
            platform == self.spec_platform(),
    ;

    /// The steps to take before the executable is compiled. `icon` is the
    /// icon to embed, as an absolute path, where one was found.
    fn pre_compile(&self, options: &ExecutableOptions, icon: Option<&str>) -> (steps: Result<
        Vec<Step>,
        Error,
    >)
        ensures
            match steps {
                Ok(steps) => self.spec_pre_compile(
                    *options.options,
                    options.executable,
                    crate::text::opt_str(icon),
                ) == Some(plan(steps@)),
                Err(_) => self.spec_pre_compile(
                    *options.options,
                    options.executable,
                    crate::text::opt_str(icon),
                ) is None,
            },
    ;

    /// The steps to take after the executable was compiled.
    fn post_compile(
        &self,
        bundle_options: &BundleOptions,
        executable: &Executable,
        executable_options: &ExecutableOptions,
    ) -> (steps: Vec<Step>)
        ensures
            plan(steps@) == self.spec_post_compile(*bundle_options, *executable),
    ;

    /// The steps that lay out the bundle. The root of the bundle is removed
    /// and made anew first, so that nothing of an earlier bundle stays.
    fn bundle(&self, options: &BundleOptions, inventory: &Inventory) -> (steps: Result<
        Vec<Step>,
        Error,
    >)
        ensures
            match steps {
                Ok(steps) => self.spec_bundle(*options, *inventory) == Some(plan(steps@)),
                Err(_) => self.spec_bundle(*options, *inventory) is None,
            },
    ;

    fn bundled_executable_directory(&self, options: &BundleOptions) -> (directory: String)
        ensures
            directory@ == self.spec_executable_directory(*options),
    ;

    fn bundled_resources_directory(&self, options: &BundleOptions) -> (directory: String)
        ensures
            directory@ == self.spec_resources_directory(*options),
    ;
}

} // verus!

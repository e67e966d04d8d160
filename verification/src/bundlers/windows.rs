//! The bundle of a Windows application, the resources that are linked into its
//! executables, and the stack that they reserve.
use vstd::prelude::*;
use crate::bundlers::{
    compiled_libraries, copies_into, copy_each_into, find_icon, first_usable_icon,
    spec_compiled_libraries, Bundler, Inventory,
};
use crate::error::Error;
use crate::options::build_options::Platform;
use crate::options::bundle_options::{BundleOptions, Executable};
use crate::options::executable_options::ExecutableOptions;
use crate::paths::{
    file_name, file_name_of, join, joined, replace_extension, replace_file_name, with_extension,
    with_file_name,
};
use crate::steps::{
    copy_file, copy_into_if_present, create_directories, create_directory, no_steps, plan, push_step,
    remove_directory, run, set_variable, write_file, Step, StepView,
};
use crate::templates::{
    bind, bindings, bound, lemma_bound_at, mustache_rendering, render, Template, TemplateValue,
};
use crate::text::{
    concat, debug_form, debug_quoted, decimal, decimal_string, opt_str, opt_text, owned,
    replace_char, views, with_char_replaced,
};
use crate::tools::CommandLine;

verus! {

/// The bundler for Windows.
#[derive(Copy, Clone, Debug, PartialEq, Eq)]
pub struct WindowsBundler {}

/// The bytes of stack that an executable reserves for a thread: the default is
/// too little for nested native calls.
pub const STACK_SIZE: usize = 16000000;

/// The directory of the application: its name, where the bundle is put.
pub open spec fn app_directory(options: BundleOptions) -> Seq<char> {
    joined(options.spec_bundle_location(), options.options.app_name@)
}

/// The directory of the executables, in which the libraries stand too.
pub open spec fn binary_directory(options: BundleOptions) -> Seq<char> {
    joined(app_directory(options), "bin"@)
}

pub open spec fn share_directory(options: BundleOptions) -> Seq<char> {
    joined(app_directory(options), "share"@)
}

/// The directory in which the resources of an executable are rendered.
pub open spec fn temporary_directory(options: BundleOptions) -> Seq<char> {
    joined(options.options.current_directory@, "temp"@)
}

/// The file that holds the debug symbols of `binary`: beside it, under its
/// file name with `_` for each `-` and with the extension `pdb`.
pub open spec fn debug_symbols(binary: Seq<char>) -> Seq<char> {
    with_extension(
        match file_name(binary) {
            Some(name) => with_file_name(binary, with_char_replaced(name, '-', '_')),
            None => binary,
        },
        "pdb"@,
    )
}

/// The step that makes `binary` reserve `size` bytes of stack.
pub open spec fn stack_step(binary: Seq<char>, size: nat) -> StepView {
    StepView::Run {
        words: seq!["editbin.exe"@, "/STACK:"@ + decimal(size), binary],
        failure: "Failed to set /STACK of "@ + binary,
    }
}

/// The line of the resource script that embeds the icon; empty where there is
/// no icon.
pub open spec fn icon_line(icon: Option<Seq<char>>) -> Seq<char> {
    match icon {
        Some(icon) => "100 ICON "@ + debug_form(icon),
        None => Seq::empty(),
    }
}

/// The values of the resource script and of the manifest: the name, the
/// identifier, no author, the three numbers of the version, the icon and the
/// name of the executable, each as given.
pub open spec fn info_values(
    options: BundleOptions,
    executable: Executable,
    icon: Option<Seq<char>>,
) -> Seq<(Seq<char>, Seq<char>)> {
    seq![
        ("bundle_name"@, options.options.app_name@),
        ("bundle_identifier"@, options.options.identifier@),
        ("bundle_author"@, Seq::empty()),
        ("bundle_major_version"@, decimal(options.options.version.major as nat)),
        ("bundle_minor_version"@, decimal(options.options.version.minor as nat)),
        ("bundle_patch_version"@, decimal(options.options.version.patch as nat)),
        ("bundle_icon"@, icon_line(icon)),
        ("executable_name"@, executable.spec_bundled_name(options.options)),
    ]
}

/// The resource script and the manifest are rendered from the name, the
/// identifier and the version exactly as they were given: each stands under
/// its own name among the values, and no other value stands under that name.
pub proof fn lemma_resources_carry_the_options(
    options: BundleOptions,
    executable: Executable,
    icon: Option<Seq<char>>,
)
    ensures
        bound(info_values(options, executable, icon), "bundle_name"@) == Some(
            options.options.app_name@,
        ),
        bound(info_values(options, executable, icon), "bundle_identifier"@) == Some(
            options.options.identifier@,
        ),
        bound(info_values(options, executable, icon), "bundle_major_version"@) == Some(
            decimal(options.options.version.major as nat),
        ),
        bound(info_values(options, executable, icon), "bundle_minor_version"@) == Some(
            decimal(options.options.version.minor as nat),
        ),
        bound(info_values(options, executable, icon), "bundle_patch_version"@) == Some(
            decimal(options.options.version.patch as nat),
        ),
{
    reveal_strlit("bundle_name");
    reveal_strlit("bundle_identifier");
    reveal_strlit("bundle_author");
    reveal_strlit("bundle_major_version");
    reveal_strlit("bundle_minor_version");
    reveal_strlit("bundle_patch_version");
    reveal_strlit("bundle_icon");
    reveal_strlit("executable_name");
    assert("bundle_name"@[7] != "bundle_icon"@[7]);
    assert("bundle_major_version"@[8] != "bundle_minor_version"@[8]);
    assert("bundle_major_version"@[7] != "bundle_patch_version"@[7]);
    assert("bundle_minor_version"@[7] != "bundle_patch_version"@[7]);
    let values = info_values(options, executable, icon);
    assert(values[0].0 == "bundle_name"@ && values[1].0 == "bundle_identifier"@);
    assert(values[2].0 == "bundle_author"@ && values[3].0 == "bundle_major_version"@);
    assert(values[4].0 == "bundle_minor_version"@ && values[5].0 == "bundle_patch_version"@);
    assert(values[6].0 == "bundle_icon"@ && values[7].0 == "executable_name"@);
    lemma_bound_at(values, 0);
    lemma_bound_at(values, 1);
    lemma_bound_at(values, 3);
    lemma_bound_at(values, 4);
    lemma_bound_at(values, 5);
}

/// Where the resource script of `executable` is rendered.
pub open spec fn resource_path(options: BundleOptions, executable: Executable) -> Seq<char> {
    joined(temporary_directory(options), executable.spec_bundled_name(options.options) + ".rc"@)
}

/// Where the manifest of `executable` is rendered.
pub open spec fn manifest_path(options: BundleOptions, executable: Executable) -> Seq<char> {
    joined(
        temporary_directory(options),
        executable.spec_bundled_name(options.options) + ".manifest"@,
    )
}

/// The steps before `executable` is compiled: the resource script and the
/// manifest are written, and the compiler is told of the script. There are
/// none where one of the two cannot be rendered.
pub open spec fn windows_pre_compile(
    options: BundleOptions,
    executable: Executable,
    icon: Option<Seq<char>>,
) -> Option<Seq<StepView>> {
    let values = info_values(options, executable, icon);
    match (
        mustache_rendering(Template::Resource.source(), values),
        mustache_rendering(Template::Manifest.source(), values),
    ) {
        (Some(resource), Some(manifest)) => Some(
            seq![
                StepView::CreateDirectories { path: temporary_directory(options) },
                StepView::WriteFile {
                    path: resource_path(options, executable),
                    contents: resource,
                },
                StepView::WriteFile {
                    path: manifest_path(options, executable),
                    contents: manifest,
                },
                StepView::SetVariable {
                    name: "VM_CLIENT_EMBED_RESOURCES"@,
                    value: resource_path(options, executable),
                },
            ],
        ),
        _ => None,
    }
}

/// The steps after `executable` was compiled: what was rendered is removed,
/// and the executable is made to reserve its stack.
pub open spec fn windows_post_compile(options: BundleOptions, executable: Executable) -> Seq<
    StepView,
> {
    seq![
        StepView::RemoveDirectory { path: temporary_directory(options) },
        stack_step(options.spec_compiled_executable_path(executable), STACK_SIZE as nat),
    ]
}

/// Where `executable` stands in the bundle.
pub open spec fn bundled_executable(options: BundleOptions, executable: Executable) -> Seq<char> {
    joined(binary_directory(options), executable.spec_bundled_name(options.options))
}

/// For each executable, in order: it is copied into the bundle, and so are
/// its debug symbols unless the build is a release.
pub open spec fn executable_steps(options: BundleOptions, executables: Seq<Executable>) -> Seq<
    StepView,
>
    decreases executables.len(),
{
    if executables.len() == 0 {
        Seq::empty()
    } else {
        let copied = executable_steps(options, executables.drop_last()).push(
            StepView::CopyFile {
                from: options.spec_compiled_executable_path(executables.last()),
                to: bundled_executable(options, executables.last()),
            },
        );
        if options.options.builder_flags.release {
            copied
        } else {
            copied.push(
                StepView::CopyFile {
                    from: debug_symbols(options.spec_compiled_executable_path(executables.last())),
                    to: debug_symbols(bundled_executable(options, executables.last())),
                },
            )
        }
    }
}

/// For each library: its debug symbols are copied into `directory`, if they
/// are there.
pub open spec fn symbol_steps(libraries: Seq<Seq<char>>, directory: Seq<char>) -> Seq<StepView> {
    libraries.map_values(
        |library: Seq<char>|
            StepView::CopyIntoIfPresent { from: debug_symbols(library), directory },
    )
}

/// The steps that copy the libraries beside the executables, and their debug
/// symbols unless the build is a release.
pub open spec fn library_steps(options: BundleOptions, inventory: Inventory) -> Seq<StepView> {
    let libraries = spec_compiled_libraries(options, inventory);
    copies_into(libraries, binary_directory(options)) + (if options.options.builder_flags.release {
        Seq::empty()
    } else {
        symbol_steps(libraries, binary_directory(options))
    })
}

/// The steps that make the directories of the bundle anew.
pub open spec fn directory_steps(options: BundleOptions) -> Seq<StepView> {
    seq![
        StepView::RemoveDirectory { path: app_directory(options) },
        StepView::CreateDirectories { path: app_directory(options) },
        StepView::CreateDirectory { path: binary_directory(options) },
    ]
}

/// The steps that lay out the bundle of a Windows application: executables
/// and libraries stand in one directory, and no search path is rewritten.
pub open spec fn windows_bundle(options: BundleOptions, inventory: Inventory) -> Seq<StepView> {
    directory_steps(options) + executable_steps(options, options.options.executables@)
        + library_steps(options, inventory)
}

impl WindowsBundler {
    pub fn new() -> (bundler: Self)
        ensures
            bundler.spec_platform() == Platform::Windows,
    {
        Self {  }
    }

    /// The icon to embed: the first icon of the options that is there and is
    /// an `ico` file.
    pub fn create_ico(&self, options: &ExecutableOptions, inventory: &Inventory) -> (icon: Option<
        String,
    >)
        ensures
            opt_text(icon) == first_usable_icon(
                views(options.options.options.icons@),
                views(inventory.icons@),
                "ico"@,
            ),
    {
        find_icon(options.icons(), inventory, "ico")
    }

    /// The step that makes `binary` reserve `size_in_bytes` bytes of stack.
    pub fn set_stack_size(&self, binary: &str, size_in_bytes: usize) -> (step: Step)
        ensures
            step@ == stack_step(binary@, size_in_bytes as nat),
    {
        let mut command = CommandLine::new("editbin.exe");
        let size = decimal_string(size_in_bytes as u64);
        command.arg(concat("/STACK:", size.as_str()).as_str());
        command.arg(binary);
        assert(command.words() =~= seq!["editbin.exe"@, "/STACK:"@ + decimal(size_in_bytes as nat), binary@]);
        let failure = concat("Failed to set /STACK of ", binary);
        run(command, failure.as_str())
    }

    /// The directory in which the resources of an executable are rendered.
    pub fn temporary_directory(&self, options: &BundleOptions) -> (directory: String)
        ensures
            directory@ == temporary_directory(*options),
    {
        join(options.options.current_directory.as_str(), "temp")
    }

    /// The file that holds the debug symbols of `binary`.
    pub fn debug_symbol_file(binary: &str) -> (symbols: String)
        ensures
            symbols@ == debug_symbols(binary@),
    {
        let renamed = match file_name_of(binary) {
            Some(name) => {
                let name = replace_char(name.as_str(), '-', '_');
                replace_file_name(binary, name.as_str())
            },
            None => owned(binary),
        };
        replace_extension(renamed.as_str(), "pdb")
    }

    /// The values that the resource script and the manifest of an executable
    /// are rendered with.
    pub fn info(options: &ExecutableOptions, icon: Option<&str>) -> (values: Vec<TemplateValue>)
        ensures
            bindings(values@) == info_values(*options.options, options.executable, opt_str(icon)),
    {
        let line = match icon {
            Some(icon) => concat("100 ICON ", debug_quoted(icon).as_str()),
            None => String::new(),
        };
        let mut values: Vec<TemplateValue> = Vec::new();
        assert(bindings(values@) =~= Seq::empty());
        bind(&mut values, "bundle_name", options.app_name());
        bind(&mut values, "bundle_identifier", options.identifier());
        bind(&mut values, "bundle_author", "");
        bind(&mut values, "bundle_major_version", decimal_string(options.version().major()).as_str());
        bind(&mut values, "bundle_minor_version", decimal_string(options.version().minor()).as_str());
        bind(&mut values, "bundle_patch_version", decimal_string(options.version().patch()).as_str());
        bind(&mut values, "bundle_icon", line.as_str());
        bind(&mut values, "executable_name", options.executable_name().as_str());
        proof {
            reveal_strlit("");
            assert(""@ =~= Seq::<char>::empty());
            assert(bindings(values@) =~= info_values(
                *options.options,
                options.executable,
                opt_str(icon),
            ));
        }
        values
    }

    fn app_dir(options: &BundleOptions) -> (directory: String)
        ensures
            directory@ == app_directory(*options),
    {
        join(options.bundle_location().as_str(), options.app_name())
    }

    fn binary_dir(options: &BundleOptions) -> (directory: String)
        ensures
            directory@ == binary_directory(*options),
    {
        join(Self::app_dir(options).as_str(), "bin")
    }

    fn add_executables(steps: &mut Vec<Step>, options: &BundleOptions)
        ensures
            plan(final(steps)@) == plan(old(steps)@) + executable_steps(
                *options,
                options.options.executables@,
            ),
    {
        let executables = options.executables();
        let directory = Self::binary_dir(options);
        let mut i: usize = 0;
        assert(executables@.subrange(0, 0) =~= Seq::<Executable>::empty());
        assert(plan(steps@) =~= plan(old(steps)@) + executable_steps(
            *options,
            executables@.subrange(0, 0),
        ));
        while i < executables.len()
            invariant
                i <= executables.len(),
                *executables == options.options.executables,
                directory@ == binary_directory(*options),
                plan(steps@) == plan(old(steps)@) + executable_steps(
                    *options,
                    executables@.subrange(0, i as int),
                ),
            decreases executables.len() - i,
        {
            let executable = executables[i];
            let compiled = options.compiled_executable_path(&executable);
            let name = options.bundled_executable_name(&executable);
            let bundled = join(directory.as_str(), name.as_str());
            push_step(steps, copy_file(compiled.as_str(), bundled.as_str()));
            if !options.release() {
                let from = Self::debug_symbol_file(compiled.as_str());
                let to = Self::debug_symbol_file(bundled.as_str());
                push_step(steps, copy_file(from.as_str(), to.as_str()));
            }
            proof {
                let next = executables@.subrange(0, i + 1);
                assert(next.drop_last() =~= executables@.subrange(0, i as int));
                assert(next.last() == executable);
                assert(plan(steps@) =~= plan(old(steps)@) + executable_steps(*options, next));
            }
            i = i + 1;
        }
        assert(executables@.subrange(0, executables.len() as int) =~= executables@);
    }

    fn add_symbols(steps: &mut Vec<Step>, libraries: &Vec<String>, directory: &str)
        ensures
            plan(final(steps)@) == plan(old(steps)@) + symbol_steps(views(libraries@), directory@),
    {
        let mut i: usize = 0;
        assert(plan(steps@) =~= plan(old(steps)@) + symbol_steps(
            views(libraries@.subrange(0, 0)),
            directory@,
        ));
        while i < libraries.len()
            invariant
                i <= libraries.len(),
                plan(steps@) == plan(old(steps)@) + symbol_steps(
                    views(libraries@.subrange(0, i as int)),
                    directory@,
                ),
            decreases libraries.len() - i,
        {
            let symbols = Self::debug_symbol_file(libraries[i].as_str());
            push_step(steps, copy_into_if_present(symbols.as_str(), directory));
            proof {
                assert(symbol_steps(views(libraries@.subrange(0, i + 1)), directory@)
                    =~= symbol_steps(views(libraries@.subrange(0, i as int)), directory@).push(
                    StepView::CopyIntoIfPresent {
                        from: debug_symbols(libraries@[i as int]@),
                        directory: directory@,
                    },
                ));
                assert(plan(steps@) =~= plan(old(steps)@) + symbol_steps(
                    views(libraries@.subrange(0, i + 1)),
                    directory@,
                ));
            }
            i = i + 1;
        }
        assert(libraries@.subrange(0, libraries.len() as int) =~= libraries@);
    }

    fn add_libraries(steps: &mut Vec<Step>, options: &BundleOptions, inventory: &Inventory)
        ensures
            plan(final(steps)@) == plan(old(steps)@) + library_steps(*options, *inventory),
    {
        let libraries = compiled_libraries(options, inventory);
        let directory = Self::binary_dir(options);
        copy_each_into(steps, &libraries, directory.as_str());
        if !options.release() {
            Self::add_symbols(steps, &libraries, directory.as_str());
        }
        assert(plan(steps@) =~= plan(old(steps)@) + library_steps(*options, *inventory));
    }
}

impl Bundler for WindowsBundler {
    open spec fn spec_platform(&self) -> Platform {
        Platform::Windows
    }

    open spec fn spec_executable_directory(&self, options: BundleOptions) -> Seq<char> {
        binary_directory(options)
    }

    open spec fn spec_resources_directory(&self, options: BundleOptions) -> Seq<char> {
        share_directory(options)
    }

    open spec fn spec_pre_compile(
        &self,
        options: BundleOptions,
        executable: Executable,
        icon: Option<Seq<char>>,
    ) -> Option<Seq<StepView>> {
        windows_pre_compile(options, executable, icon)
    }

    open spec fn spec_post_compile(&self, options: BundleOptions, executable: Executable) -> Seq<
        StepView,
    > {
        windows_post_compile(options, executable)
    }

    open spec fn spec_bundle(&self, options: BundleOptions, inventory: Inventory) -> Option<
        Seq<StepView>,
    > {
        Some(windows_bundle(options, inventory))
    }

    fn platform(&self) -> (platform: Platform) {
        Platform::Windows
    }

    /// The resource script and the manifest of the executable are rendered
    /// into the temporary directory, and the compiler is told of the script
    /// through the environment, so that it is linked into the executable.
    fn pre_compile(&self, options: &ExecutableOptions, icon: Option<&str>) -> (steps: Result<
        Vec<Step>,
        Error,
    >)
        ensures
            steps matches Err(error) ==> error is Template,
    {
        let values = Self::info(options, icon);
        let resource = match render(Template::Resource, &values) {
            Ok(text) => text,
            Err(error) => {
                return Err(error);
            },
        };
        let manifest = match render(Template::Manifest, &values) {
            Ok(text) => text,
            Err(error) => {
                return Err(error);
            },
        };
        let directory = self.temporary_directory(options.options);
        let name = options.executable_name();
        let resource_file = join(directory.as_str(), concat(name.as_str(), ".rc").as_str());
        let manifest_file = join(directory.as_str(), concat(name.as_str(), ".manifest").as_str());
        let mut steps = no_steps();
        push_step(&mut steps, create_directories(directory.as_str()));
        push_step(&mut steps, write_file(resource_file.as_str(), resource.as_str()));
        push_step(&mut steps, write_file(manifest_file.as_str(), manifest.as_str()));
        push_step(&mut steps, set_variable("VM_CLIENT_EMBED_RESOURCES", resource_file.as_str()));
        assert(Some(plan(steps@)) =~= windows_pre_compile(
            *options.options,
            options.executable,
            opt_str(icon),
        ));
        Ok(steps)
    }

    /// What was rendered before the compilation is removed, and the
    /// executable is made to reserve its stack.
    fn post_compile(
        &self,
        bundle_options: &BundleOptions,
        executable: &Executable,
        executable_options: &ExecutableOptions,
    ) -> (steps: Vec<Step>) {
        let mut steps = no_steps();
        let directory = self.temporary_directory(bundle_options);
        push_step(&mut steps, remove_directory(directory.as_str()));
        let binary = bundle_options.compiled_executable_path(executable);
        push_step(&mut steps, self.set_stack_size(binary.as_str(), STACK_SIZE));
        assert(plan(steps@) =~= windows_post_compile(*bundle_options, *executable));
        steps
    }

    /// The bundle of a Windows application: the directory of the application,
    /// made anew; the executables and the compiled libraries, copied into one
    /// directory; with their debug symbols unless the build is a release.
    fn bundle(&self, options: &BundleOptions, inventory: &Inventory) -> (steps: Result<
        Vec<Step>,
        Error,
    >)
        ensures
            steps is Ok,
    {
        let mut steps = no_steps();
        push_step(&mut steps, remove_directory(Self::app_dir(options).as_str()));
        push_step(&mut steps, create_directories(Self::app_dir(options).as_str()));
        push_step(&mut steps, create_directory(Self::binary_dir(options).as_str()));
        assert(plan(steps@) =~= directory_steps(*options));
        Self::add_executables(&mut steps, options);
        Self::add_libraries(&mut steps, options, inventory);
        Ok(steps)
    }

    fn bundled_executable_directory(&self, options: &BundleOptions) -> (directory: String) {
        Self::binary_dir(options)
    }

    fn bundled_resources_directory(&self, options: &BundleOptions) -> (directory: String) {
        join(Self::app_dir(options).as_str(), "share")
    }
}

} // verus!

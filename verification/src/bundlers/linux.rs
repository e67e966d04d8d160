//! The bundle of a Linux application: executables and libraries in one
//! directory.
use vstd::prelude::*;
use crate::bundlers::{
    compiled_libraries, copies_into, copy_each_into, spec_compiled_libraries, Bundler, Inventory,
};
use crate::error::Error;
use crate::options::build_options::Platform;
use crate::options::bundle_options::{BundleOptions, Executable};
use crate::options::executable_options::ExecutableOptions;
use crate::paths::{join, joined};
use crate::steps::{
    copy_file, create_directories, create_directory, no_steps, plan, push_step, remove_directory,
    Step, StepView,
};

verus! {

/// The bundler for Linux.
#[derive(Copy, Clone, Debug, PartialEq, Eq)]
pub struct LinuxBundler {}

/// The directory of the application: its name, where the bundle is put.
pub open spec fn app_directory(options: BundleOptions) -> Seq<char> {
    joined(options.spec_bundle_location(), options.options.app_name@)
}

/// The directory of the executables, in which the libraries stand too.
pub open spec fn binary_directory(options: BundleOptions) -> Seq<char> {
    joined(app_directory(options), "bin"@)
}

pub open spec fn share_directory(options: BundleOptions) -> Seq<char> {
    joined(app_directory(options), "share"@)
}

/// The steps that make the directories of the bundle anew.
pub open spec fn directory_steps(options: BundleOptions) -> Seq<StepView> {
    seq![
        StepView::RemoveDirectory { path: app_directory(options) },
        StepView::CreateDirectories { path: app_directory(options) },
        StepView::CreateDirectory { path: binary_directory(options) },
    ]
}

/// One step for each executable, in order: it is copied into the bundle.
pub open spec fn executable_steps(options: BundleOptions, executables: Seq<Executable>) -> Seq<
    StepView,
> {
    executables.map_values(
        |executable: Executable|
            StepView::CopyFile {
                from: options.spec_compiled_executable_path(executable),
                to: joined(binary_directory(options), executable.spec_bundled_name(options.options)),
            },
    )
}

/// The steps that lay out the bundle of a Linux application.
pub open spec fn linux_bundle(options: BundleOptions, inventory: Inventory) -> Seq<StepView> {
    directory_steps(options) + executable_steps(options, options.options.executables@)
        + copies_into(spec_compiled_libraries(options, inventory), binary_directory(options))
}

impl LinuxBundler {
    pub fn new() -> (bundler: Self)
        ensures
            bundler.spec_platform() == Platform::Linux,
    {
        Self {  }
    }

    fn app_dir(options: &BundleOptions) -> (directory: String)
        ensures
            directory@ == app_directory(*options),
    {
        join(options.bundle_location().as_str(), options.app_name())
    }

    fn binary_dir(options: &BundleOptions) -> (directory: String)
        ensures
            directory@ == binary_directory(*options),
    {
        join(Self::app_dir(options).as_str(), "bin")
    }

    fn add_executables(steps: &mut Vec<Step>, options: &BundleOptions)
        ensures
            plan(final(steps)@) == plan(old(steps)@) + executable_steps(
                *options,
                options.options.executables@,
            ),
    {
        let executables = options.executables();
        let directory = Self::binary_dir(options);
        let mut i: usize = 0;
        assert(plan(steps@) =~= plan(old(steps)@) + executable_steps(
            *options,
            executables@.subrange(0, 0),
        ));
        while i < executables.len()
            invariant
                i <= executables.len(),
                *executables == options.options.executables,
                directory@ == binary_directory(*options),
                plan(steps@) == plan(old(steps)@) + executable_steps(
                    *options,
                    executables@.subrange(0, i as int),
                ),
            decreases executables.len() - i,
        {
            let executable = executables[i];
            let compiled = options.compiled_executable_path(&executable);
            let name = options.bundled_executable_name(&executable);
            let bundled = join(directory.as_str(), name.as_str());
            push_step(steps, copy_file(compiled.as_str(), bundled.as_str()));
            proof {
                let next = executables@.subrange(0, i + 1);
                assert(executable_steps(*options, next) =~= executable_steps(
                    *options,
                    executables@.subrange(0, i as int),
                ).push(
                    StepView::CopyFile {
                        from: options.spec_compiled_executable_path(executable),
                        to: joined(
                            binary_directory(*options),
                            executable.spec_bundled_name(options.options),
                        ),
                    },
                ));
                assert(plan(steps@) =~= plan(old(steps)@) + executable_steps(*options, next));
            }
            i = i + 1;
        }
        assert(executables@.subrange(0, executables.len() as int) =~= executables@);
    }
}

impl Bundler for LinuxBundler {
    open spec fn spec_platform(&self) -> Platform {
        Platform::Linux
    }

    open spec fn spec_executable_directory(&self, options: BundleOptions) -> Seq<char> {
        binary_directory(options)
    }

    open spec fn spec_resources_directory(&self, options: BundleOptions) -> Seq<char> {
        share_directory(options)
    }

    open spec fn spec_pre_compile(
        &self,
        options: BundleOptions,
        executable: Executable,
        icon: Option<Seq<char>>,
    ) -> Option<Seq<StepView>> {
        Some(Seq::empty())
    }

    open spec fn spec_post_compile(&self, options: BundleOptions, executable: Executable) -> Seq<
        StepView,
    > {
        Seq::empty()
    }

    open spec fn spec_bundle(&self, options: BundleOptions, inventory: Inventory) -> Option<
        Seq<StepView>,
    > {
        Some(linux_bundle(options, inventory))
    }

    fn platform(&self) -> (platform: Platform) {
        Platform::Linux
    }

    fn pre_compile(&self, options: &ExecutableOptions, icon: Option<&str>) -> (steps: Result<
        Vec<Step>,
        Error,
    >) {
        Ok(no_steps())
    }

    fn post_compile(
        &self,
        bundle_options: &BundleOptions,
        executable: &Executable,
        executable_options: &ExecutableOptions,
    ) -> (steps: Vec<Step>) {
        no_steps()
    }

    /// The bundle of a Linux application: the directory of the application,
    /// made anew, and the executables and the compiled libraries, copied into
    /// one directory.
    fn bundle(&self, options: &BundleOptions, inventory: &Inventory) -> (steps: Result<
        Vec<Step>,
        Error,
    >)
        ensures
            steps is Ok,
    {
        let mut steps = no_steps();
        push_step(&mut steps, remove_directory(Self::app_dir(options).as_str()));
        push_step(&mut steps, create_directories(Self::app_dir(options).as_str()));
        push_step(&mut steps, create_directory(Self::binary_dir(options).as_str()));
        assert(plan(steps@) =~= directory_steps(*options));
        Self::add_executables(&mut steps, options);
        let libraries = compiled_libraries(options, inventory);
        copy_each_into(&mut steps, &libraries, Self::binary_dir(options).as_str());
        Ok(steps)
    }

    fn bundled_executable_directory(&self, options: &BundleOptions) -> (directory: String) {
        Self::binary_dir(options)
    }

    fn bundled_resources_directory(&self, options: &BundleOptions) -> (directory: String) {
        join(Self::app_dir(options).as_str(), "share")
    }
}

} // verus!

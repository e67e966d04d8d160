//! The options of a bundle, seen from one of its executables.
use vstd::prelude::*;
use crate::options::build_options::Target;
use crate::options::bundle_options::{BundleOptions, Executable};
use crate::options::resolved_options::Version;
use crate::text::{opt_str, opt_text, views};
use crate::tools::CommandLine;

verus! {

/// One executable, with the options of the bundle it belongs to.
#[derive(Debug)]
pub struct ExecutableOptions<'bundle_options> {
    pub options: &'bundle_options BundleOptions,
    pub executable: Executable,
}

impl<'bundle_options> ExecutableOptions<'bundle_options> {
    pub fn new(options: &'bundle_options BundleOptions, executable: Executable) -> (made: Self)
        ensures
            *made.options == *options,
            made.executable == executable,
    {
        Self { options, executable }
    }

    pub fn app_name(&self) -> (name: &str)
        ensures
            name@ == self.options.options.app_name@,
    {
        self.options.app_name()
    }

    pub fn executable(&self) -> (executable: &Executable)
        ensures
            *executable == self.executable,
    {
        &self.executable
    }

    /// The name of the executable in the bundle.
    pub fn executable_name(&self) -> (name: String)
        ensures
            name@ == self.executable.spec_bundled_name(self.options.options),
    {
        self.options.bundled_executable_name(&self.executable)
    }

    pub fn version(&self) -> (version: &Version)
        ensures
            *version == self.options.options.version,
    {
        self.options.version()
    }

    pub fn verbose(&self) -> (level: i32)
        ensures
            level == self.options.options.builder_flags.verbose,
    {
        self.options.verbose()
    }

    pub fn vmmaker_vm(&self) -> (path: Option<&str>)
        ensures
            opt_str(path) == opt_text(self.options.options.builder_flags.vmmaker_vm),
    {
        self.options.vmmaker_vm()
    }

    pub fn vmmaker_image(&self) -> (path: Option<&str>)
        ensures
            opt_str(path) == opt_text(self.options.options.builder_flags.vmmaker_image),
    {
        self.options.vmmaker_image()
    }

    pub fn target(&self) -> (target: &Target)
        ensures
            *target == self.options.options.target,
    {
        self.options.target()
    }

    pub fn target_dir(&self) -> (dir: &String)
        ensures
            *dir == self.options.options.target_dir,
    {
        self.options.target_dir()
    }

    pub fn release(&self) -> (release: bool)
        ensures
            release == self.options.options.builder_flags.release,
    {
        self.options.release()
    }

    pub fn identifier(&self) -> (identifier: &str)
        ensures
            identifier@ == self.options.options.identifier@,
    {
        self.options.identifier()
    }

    pub fn icons(&self) -> (icons: &Vec<String>)
        ensures
            *icons == self.options.options.icons,
    {
        self.options.icons()
    }

    pub fn features(&self) -> (features: Vec<String>)
        ensures
            views(features@) == self.options.options.builder_flags.spec_features(),
    {
        self.options.features()
    }

    /// The command that compiles the executable, before the options of the
    /// build are added.
    pub fn cargo_build_command(&self) -> (command: CommandLine)
        ensures
            command.words() == self.executable.build_words(),
    {
        self.executable.cargo_build_command()
    }

    pub fn cargo_package_name(&self) -> (name: &str)
        ensures
            name@ == self.executable.package(),
    {
        self.executable.cargo_package_name()
    }

    /// The name of the executable as the compiler produces it.
    pub fn compiled_executable_name(&self) -> (name: String)
        ensures
            name@ == self.executable.spec_compiled_name(self.options.options),
    {
        self.options.compiled_executable_name(&self.executable)
    }
}

} // verus!

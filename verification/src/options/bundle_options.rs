//! The executables of a bundle, and the resolved options as the bundlers read
//! them.
use vstd::prelude::*;
use crate::libraries::third_party::LibraryRequest;
use crate::options::build_options::{Platform, Target};
use crate::options::resolved_options::{ResolvedOptions, Version};
use crate::paths::{join, joined};
use crate::text::{concat, opt_str, opt_text, owned, views};
use crate::tools::CommandLine;

verus! {

/// An executable that can be produced. Everything about it follows from its
/// kind.
#[derive(Copy, Clone, Debug, PartialEq, Eq, Structural)]
pub enum Executable {
    App,
    Cli,
    Android,
}

/// `name` with `.` and the extension behind it, where there is one.
pub open spec fn with_artefact_extension(name: Seq<char>, extension: Option<Seq<char>>) -> Seq<
    char,
> {
    match extension {
        Some(extension) => name + "."@ + extension,
        None => name,
    }
}

impl Executable {
    /// The package that the compiler is asked to build.
    pub open spec fn package(self) -> Seq<char> {
        match self {
            Executable::App => "vm-client-desktop"@,
            Executable::Cli => "vm-client-desktop-cli"@,
            Executable::Android => "vm-client-android"@,
        }
    }

    /// The name of the binary as the compiler produces it, without extension.
    pub open spec fn binary(self) -> Seq<char> {
        match self {
            Executable::App => "vm_client"@,
            Executable::Cli => "vm_client-cli"@,
            Executable::Android => "libvm_client_android"@,
        }
    }

    /// The command that compiles the executable, before the options of a
    /// particular build are added.
    pub open spec fn build_words(self) -> Seq<Seq<char>> {
        if self == Executable::Android {
            seq!["cargo"@, "apk"@, "--"@, "build"@, "--package"@, self.package()]
        } else {
            seq!["cargo"@, "build"@, "--package"@, self.package()]
        }
    }

    /// The name of the compiled binary in the build directory.
    pub open spec fn spec_compiled_name(self, options: ResolvedOptions) -> Seq<char> {
        with_artefact_extension(self.binary(), options.spec_executable_artefact_extension())
    }

    /// The name without extension that the executable has in the bundle: the
    /// name of the executable for the application, with `-cli` behind it for
    /// the command-line tool, with `lib` before it for the Android library.
    pub open spec fn bundled_stem(self, executable_name: Seq<char>) -> Seq<char> {
        match self {
            Executable::App => executable_name,
            Executable::Cli => executable_name + "-cli"@,
            Executable::Android => "lib"@ + executable_name,
        }
    }

    /// The name of the executable in the bundle.
    pub open spec fn spec_bundled_name(self, options: ResolvedOptions) -> Seq<char> {
        with_artefact_extension(
            self.bundled_stem(options.executable_name@),
            options.spec_executable_artefact_extension(),
        )
    }

    /// The command that compiles the executable.
    pub fn cargo_build_command(&self) -> (command: CommandLine)
        ensures
            command.words() == self.build_words(),
    {
        let mut command = CommandLine::new("cargo");
        if *self == Executable::Android {
            command.arg("apk");
            command.arg("--");
        }
        command.arg("build");
        command.arg("--package");
        command.arg(self.cargo_package_name());
        assert(command.words() =~= self.build_words());
        command
    }

    /// The name of the package to build, by kind of executable.
    pub fn cargo_package_name(&self) -> (name: &'static str)
        ensures
            name@ == self.package(),
    {
        match self {
            Executable::App => "vm-client-desktop",
            Executable::Cli => "vm-client-desktop-cli",
            Executable::Android => "vm-client-android",
        }
    }

    pub fn cargo_bin_name(&self) -> (name: &'static str)
        ensures
            name@ == self.binary(),
    {
        match self {
            Executable::App => "vm_client",
            Executable::Cli => "vm_client-cli",
            Executable::Android => "libvm_client_android",
        }
    }

    /// The name of the compiled binary as it stands in the build directory.
    pub fn compiled_name(&self, options: &ResolvedOptions) -> (name: String)
        ensures
            name@ == self.spec_compiled_name(*options),
    {
        let name = owned(self.cargo_bin_name());
        match options.executable_artefact_extension() {
            Some(extension) => {
                let dotted = concat(name.as_str(), ".");
                concat(dotted.as_str(), extension.as_str())
            },
            None => name,
        }
    }

    /// The name of the executable in the bundle.
    pub fn bundled_name(&self, options: &ResolvedOptions) -> (name: String)
        ensures
            name@ == self.spec_bundled_name(*options),
    {
        let name = match self {
            Executable::App => owned(options.executable_name()),
            Executable::Cli => concat(options.executable_name(), "-cli"),
            Executable::Android => concat("lib", options.executable_name()),
        };
        match options.executable_artefact_extension() {
            Some(extension) => {
                let dotted = concat(name.as_str(), ".");
                concat(dotted.as_str(), extension.as_str())
            },
            None => name,
        }
    }
}

/// The resolved options, as the bundlers read them.
#[derive(Clone, Debug, PartialEq, Eq)]
pub struct BundleOptions {
    pub options: ResolvedOptions,
}

impl BundleOptions {
    /// `release` or `debug`.
    pub open spec fn spec_profile(self) -> Seq<char> {
        if self.options.builder_flags.release {
            "release"@
        } else {
            "debug"@
        }
    }

    /// Where the compiler puts what it builds: the build directory, the
    /// target's triple below it unless the target is the host, and the profile
    /// below that.
    pub open spec fn spec_compilation_location(self) -> Seq<char> {
        if self.options.target == self.options.host {
            joined(self.options.target_dir@, self.spec_profile())
        } else {
            joined(joined(self.options.target_dir@, self.options.target.name()), self.spec_profile())
        }
    }

    /// Where the bundle is put where no place is named: `bundle`, below the
    /// profile, below the target's triple, below the build directory.
    pub open spec fn spec_default_bundle_location(self) -> Seq<char> {
        joined(
            joined(joined(self.options.target_dir@, self.options.target.name()), self.spec_profile()),
            "bundle"@,
        )
    }

    /// Where the bundle is put.
    pub open spec fn spec_bundle_location(self) -> Seq<char> {
        match self.options.builder_flags.bundle_dir {
            Some(dir) => dir@,
            None => self.spec_default_bundle_location(),
        }
    }

    /// Where the compiled binary of `executable` stands.
    pub open spec fn spec_compiled_executable_path(self, executable: Executable) -> Seq<char> {
        joined(self.spec_compilation_location(), executable.spec_compiled_name(self.options))
    }

    /// Where the sources of the third-party libraries are kept: `libs` below
    /// the workspace, or below the current directory where there is no
    /// workspace.
    pub open spec fn spec_sources_directory(self) -> Seq<char> {
        match self.options.workspace_directory {
            Some(workspace) => joined(workspace@, "libs"@),
            None => joined(self.options.current_directory@, "libs"@),
        }
    }

    pub fn new(options: ResolvedOptions) -> (bundle: Self)
        ensures
            bundle.options == options,
    {
        Self { options }
    }

    pub fn executables(&self) -> (executables: &Vec<Executable>)
        ensures
            *executables == self.options.executables,
    {
        self.options.executables()
    }

    pub fn target(&self) -> (target: &Target)
        ensures
            *target == self.options.target,
    {
        self.options.target()
    }

    pub fn host(&self) -> (host: Target)
        ensures
            host == self.options.host,
    {
        self.options.host
    }

    pub fn platform(&self) -> (platform: Platform)
        ensures
            platform == self.options.target.platform_of(),
    {
        self.options.platform()
    }

    pub fn target_dir(&self) -> (dir: &String)
        ensures
            *dir == self.options.target_dir,
    {
        self.options.target_dir()
    }

    pub fn verbose(&self) -> (level: i32)
        ensures
            level == self.options.builder_flags.verbose,
    {
        self.options.verbose()
    }

    pub fn release(&self) -> (release: bool)
        ensures
            release == self.options.builder_flags.release,
    {
        self.options.release()
    }

    pub fn include_debug_symbols(&self) -> (wanted: bool)
        ensures
            wanted == self.options.builder_flags.include_debug_symbols,
    {
        self.options.include_debug_symbols()
    }

    pub fn icons(&self) -> (icons: &Vec<String>)
        ensures
            *icons == self.options.icons,
    {
        self.options.icons()
    }

    pub fn identifier(&self) -> (identifier: &str)
        ensures
            identifier@ == self.options.identifier@,
    {
        self.options.identifier()
    }

    /// The name of the profile: `release` or `debug`.
    pub fn profile(&self) -> (profile: String)
        ensures
            profile@ == self.spec_profile(),
    {
        if self.release() {
            owned("release")
        } else {
            owned("debug")
        }
    }

    pub fn version(&self) -> (version: &Version)
        ensures
            *version == self.options.version,
    {
        self.options.version()
    }

    pub fn vmmaker_vm(&self) -> (path: Option<&str>)
        ensures
            opt_str(path) == opt_text(self.options.builder_flags.vmmaker_vm),
    {
        self.options.vmmaker_vm()
    }

    pub fn vmmaker_image(&self) -> (path: Option<&str>)
        ensures
            opt_str(path) == opt_text(self.options.builder_flags.vmmaker_image),
    {
        self.options.vmmaker_image()
    }

    pub fn libraries(&self) -> (libraries: &Vec<LibraryRequest>)
        ensures
            *libraries == self.options.libraries,
    {
        self.options.libraries()
    }

    pub fn features(&self) -> (features: Vec<String>)
        ensures
            views(features@) == self.options.builder_flags.spec_features(),
    {
        self.options.features()
    }

    pub fn app_name(&self) -> (name: &str)
        ensures
            name@ == self.options.app_name@,
    {
        self.options.app_name()
    }

    /// Where the compiler puts what it builds.
    pub fn compilation_location(&self) -> (location: String)
        ensures
            location@ == self.spec_compilation_location(),
    {
        let mut location = owned(self.target_dir().as_str());
        if !self.target().is_current(self.options.host) {
            location = join(location.as_str(), self.target().as_str());
        }
        let profile = self.profile();
        join(location.as_str(), profile.as_str())
    }

    /// Where the bundle is put: the place asked for, or else the default.
    pub fn bundle_location(&self) -> (location: String)
        ensures
            location@ == self.spec_bundle_location(),
    {
        match self.options.bundle_dir() {
            Some(dir) => owned(dir),
            None => self.default_bundle_location(),
        }
    }

    /// The name of `executable` in the bundle.
    pub fn bundled_executable_name(&self, executable: &Executable) -> (name: String)
        ensures
            name@ == executable.spec_bundled_name(self.options),
    {
        executable.bundled_name(&self.options)
    }

    /// The name of `executable` as the compiler produces it.
    pub fn compiled_executable_name(&self, executable: &Executable) -> (name: String)
        ensures
            name@ == executable.spec_compiled_name(self.options),
    {
        executable.compiled_name(&self.options)
    }

    /// The path of the compiled binary of `executable`.
    pub fn compiled_executable_path(&self, executable: &Executable) -> (path: String)
        ensures
            path@ == self.spec_compiled_executable_path(*executable),
    {
        let location = self.compilation_location();
        let name = executable.compiled_name(&self.options);
        join(location.as_str(), name.as_str())
    }

    pub fn default_bundle_location(&self) -> (location: String)
        ensures
            location@ == self.spec_default_bundle_location(),
    {
        let below_target = join(self.target_dir().as_str(), self.target().as_str());
        let profile = self.profile();
        let below_profile = join(below_target.as_str(), profile.as_str());
        join(below_profile.as_str(), "bundle")
    }

    /// Where the sources of the third-party libraries are kept.
    pub fn third_party_libraries_sources_directory(&self) -> (dir: String)
        ensures
            dir@ == self.spec_sources_directory(),
    {
        match &self.options.workspace_directory {
            Some(workspace) => join(workspace.as_str(), "libs"),
            None => join(self.options.current_directory.as_str(), "libs"),
        }
    }

    /// Where the third-party libraries are built: the build directory.
    pub fn third_party_libraries_build_directory(&self) -> (dir: String)
        ensures
            dir@ == self.options.target_dir@,
    {
        owned(self.options.target_dir().as_str())
    }
}

} // verus!

//! The options once every default is filled in: a snapshot that the rest of the
//! build only reads.
use vstd::prelude::*;
use crate::error::Error;
use crate::libraries::third_party::{
    request_for, summaries, LibraryRequest, ThirdPartyLibrary, VersionedThirdPartyLibraries,
};
use crate::options::build_options::{BuilderOptions, Platform, Target};
use crate::options::bundle_options::Executable;
use crate::paths::{join, joined};
use crate::text::{
    clone_opt, clone_strings, concat, decimal, decimal_string, opt_str, opt_text, owned, views,
};

verus! {

/// The directory below the workspace that holds what is built, where none is
/// named.
pub const DEFAULT_BUILD_DIR: &'static str = "target";

/// The name of the application where none is given.
pub const DEFAULT_APP_NAME: &'static str = "VM";

/// A version: three numbers.
#[derive(Copy, Clone, Debug, PartialEq, Eq, Structural)]
pub struct Version {
    pub major: u64,
    pub minor: u64,
    pub patch: u64,
}

/// Three numbers in decimal, with a dot between them.
pub open spec fn dotted(major: u64, minor: u64, patch: u64) -> Seq<char> {
    decimal(major as nat) + "."@ + decimal(minor as nat) + "."@ + decimal(patch as nat)
}

impl Version {
    /// The version as text: `major.minor.patch`.
    pub open spec fn text(self) -> Seq<char> {
        dotted(self.major, self.minor, self.patch)
    }

    pub fn new(major: u64, minor: u64, patch: u64) -> (version: Version)
        ensures
            version == (Version { major, minor, patch }),
    {
        Version { major, minor, patch }
    }

    pub fn major(&self) -> (major: u64)
        ensures
            major == self.major,
    {
        self.major
    }

    pub fn minor(&self) -> (minor: u64)
        ensures
            minor == self.minor,
    {
        self.minor
    }

    pub fn patch(&self) -> (patch: u64)
        ensures
            patch == self.patch,
    {
        self.patch
    }

    /// The version as text: `major.minor.patch`.
    pub fn to_string(&self) -> (text: String)
        ensures
            text@ == self.text(),
    {
        let major = decimal_string(self.major);
        let minor = decimal_string(self.minor);
        let patch = decimal_string(self.patch);
        let head = concat(major.as_str(), ".");
        let head = concat(head.as_str(), minor.as_str());
        let head = concat(head.as_str(), ".");
        concat(head.as_str(), patch.as_str())
    }
}

/// Where and when the builder itself was built.
#[derive(Clone, Debug, PartialEq, Eq)]
pub struct BuilderInfo {
    pub build_timestamp: String,
    pub git_branch: String,
    pub git_commit_timestamp: String,
    pub git_sha: String,
    pub os_version: String,
}

impl BuilderInfo {
    pub fn new(
        build_timestamp: String,
        git_branch: String,
        git_commit_timestamp: String,
        git_sha: String,
        os_version: String,
    ) -> (info: Self)
        ensures
            info.build_timestamp == build_timestamp,
            info.git_branch == git_branch,
            info.git_commit_timestamp == git_commit_timestamp,
            info.git_sha == git_sha,
            info.os_version == os_version,
    {
        Self { build_timestamp, git_branch, git_commit_timestamp, git_sha, os_version }
    }
}

/// Where and when the application is built.
#[derive(Clone, Debug, PartialEq, Eq)]
pub struct AppInfo {
    pub build_timestamp: String,
    pub git_branch: Option<String>,
    pub git_sha: Option<String>,
}

impl AppInfo {
    pub fn new(build_timestamp: String, git_branch: Option<String>, git_sha: Option<String>) -> (info:
        Self)
        ensures
            info.build_timestamp == build_timestamp,
            info.git_branch == git_branch,
            info.git_sha == git_sha,
    {
        Self { build_timestamp, git_branch, git_sha }
    }
}

/// What the options are resolved against: everything that has to be asked of
/// the machine, the toolchain or the files, already asked.
#[derive(Clone, Debug, PartialEq, Eq)]
pub struct Environment {
    /// The target that the build runs on.
    pub host: Target,
    /// The directory of the workspace, where the toolchain found one.
    pub workspace_directory: Option<String>,
    /// The directory that the build was started in.
    pub current_directory: String,
    /// What reading the version of the options gave: the version, where the
    /// text is one; nothing where it is none, or where no text is given.
    pub version: Option<Version>,
    /// The version of a build for which none is given: the first patch
    /// version.
    pub first_version: Version,
    /// What the versions file holds; nothing where no file is named.
    pub libraries_versions: VersionedThirdPartyLibraries,
    pub builder_info: BuilderInfo,
    pub app_info: AppInfo,
}

/// The fully resolved options.
#[derive(Clone, Debug, PartialEq, Eq)]
pub struct ResolvedOptions {
    pub builder_flags: BuilderOptions,
    pub builder_info: BuilderInfo,
    pub app_build_info: AppInfo,
    pub target_dir: String,
    pub target: Target,
    pub host: Target,
    pub workspace_directory: Option<String>,
    pub current_directory: String,
    pub identifier: String,
    pub app_name: String,
    pub executable_name: String,
    pub version: Version,
    pub icons: Vec<String>,
    pub libraries: Vec<LibraryRequest>,
    pub executables: Vec<Executable>,
}

/// The root of the build directory: the one asked for, or else `target` below
/// the workspace, or else `target` alone.
pub open spec fn resolved_target_dir(
    asked: Option<Seq<char>>,
    workspace: Option<Seq<char>>,
) -> Seq<char> {
    match asked {
        Some(dir) => dir,
        None => match workspace {
            Some(workspace) => joined(workspace, DEFAULT_BUILD_DIR@),
            None => DEFAULT_BUILD_DIR@,
        },
    }
}

/// Whether the options cannot be resolved: a version is given, and it is
/// none.
pub open spec fn version_refused(asked: Option<String>, read: Option<Version>) -> bool {
    asked is Some && read is None
}

/// The version of the build: the one given, as it was read, or else the first
/// version.
pub open spec fn resolved_version(
    asked: Option<String>,
    read: Option<Version>,
    first: Version,
) -> Version {
    match (asked, read) {
        (Some(_), Some(version)) => version,
        _ => first,
    }
}

/// `asked`, or else `fallback`.
pub open spec fn text_or(asked: Option<Seq<char>>, fallback: Seq<char>) -> Seq<char> {
    match asked {
        Some(text) => text,
        None => fallback,
    }
}

/// The requests for the libraries asked for, in the order given.
pub open spec fn resolved_libraries(
    asked: Option<Vec<ThirdPartyLibrary>>,
    target: Target,
    versions: Map<ThirdPartyLibrary, Seq<char>>,
) -> Seq<(ThirdPartyLibrary, Option<Seq<char>>, Option<Target>)> {
    match asked {
        Some(libraries) => libraries@.map_values(
            |library: ThirdPartyLibrary| request_for(library, target, versions),
        ),
        None => Seq::empty(),
    }
}

/// The executables asked for; the command-line tool and the application where
/// none is.
pub open spec fn resolved_executables(asked: Option<Vec<Executable>>) -> Seq<Executable> {
    match asked {
        Some(executables) => executables@,
        None => seq![Executable::Cli, Executable::App],
    }
}

impl ResolvedOptions {
    /// Fills in every default. The result is what the user asked for where
    /// something was asked, and otherwise: the host as target; `target` below
    /// the workspace as build directory; `VM` as name; the name as identifier
    /// and as name of the executable; the first version as version; no icons
    /// and no libraries; the command-line tool and the application as
    /// executables. A version that is given and is none is refused, with its
    /// text, before anything else is done; nothing else is refused.
    pub fn new(options: BuilderOptions, environment: Environment) -> (outcome: Result<Self, Error>)
        ensures
            match outcome {
                Ok(resolved) => {
                    &&& !version_refused(options.version, environment.version)
                    &&& resolved.builder_flags == options
                    &&& resolved.builder_info == environment.builder_info
                    &&& resolved.app_build_info == environment.app_info
                    &&& resolved.host == environment.host
                    &&& resolved.target == options.spec_target(environment.host)
                    &&& resolved.target_dir@ == resolved_target_dir(
                        opt_text(options.target_dir),
                        opt_text(environment.workspace_directory),
                    )
                    &&& opt_text(resolved.workspace_directory) == opt_text(
                        environment.workspace_directory,
                    )
                    &&& resolved.current_directory@ == environment.current_directory@
                    &&& resolved.app_name@ == text_or(
                        opt_text(options.app_name),
                        DEFAULT_APP_NAME@,
                    )
                    &&& resolved.identifier@ == text_or(
                        opt_text(options.identifier),
                        resolved.app_name@,
                    )
                    &&& resolved.executable_name@ == text_or(
                        opt_text(options.executable_name),
                        resolved.app_name@,
                    )
                    &&& resolved.version == resolved_version(
                        options.version,
                        environment.version,
                        environment.first_version,
                    )
                    &&& views(resolved.icons@) == match options.icons {
                        Some(icons) => views(icons@),
                        None => Seq::empty(),
                    }
                    &&& summaries(resolved.libraries@) == resolved_libraries(
                        options.libraries,
                        resolved.target,
                        options.spec_libraries_versions(
                            environment.libraries_versions.versions(),
                        ),
                    )
                    &&& resolved.executables@ == resolved_executables(options.executables)
                },
                Err(error) => {
                    &&& version_refused(options.version, environment.version)
                    &&& error matches Error::InvalidVersion { version }
                    &&& version@ == options.version->0@
                },
            },
    {
        let version = match (options.version(), environment.version) {
            (Some(text), None) => {
                return Err(Error::InvalidVersion { version: owned(text) });
            },
            (Some(_), Some(version)) => version,
            (None, _) => environment.first_version,
        };
        let target_dir = match options.target_dir() {
            Some(dir) => owned(dir),
            None => match &environment.workspace_directory {
                Some(workspace) => join(workspace.as_str(), DEFAULT_BUILD_DIR),
                None => owned(DEFAULT_BUILD_DIR),
            },
        };
        let target = options.target(environment.host);
        let app_name = match options.app_name() {
            Some(name) => owned(name),
            None => owned(DEFAULT_APP_NAME),
        };
        let identifier = match options.identifier() {
            Some(identifier) => owned(identifier),
            None => owned(app_name.as_str()),
        };
        let executable_name = match options.executable_name() {
            Some(name) => owned(name),
            None => owned(app_name.as_str()),
        };
        let icons = match options.icons() {
            Some(icons) => clone_strings(icons),
            None => {
                let none: Vec<String> = Vec::new();
                assert(views(none@) =~= Seq::<Seq<char>>::empty());
                none
            },
        };
        let Environment {
            host,
            workspace_directory,
            current_directory,
            version: _,
            first_version: _,
            libraries_versions,
            builder_info,
            app_info,
        } = environment;
        let ghost from_file = libraries_versions.versions();
        let versions = options.libraries_versions(libraries_versions);
        let mut libraries: Vec<LibraryRequest> = Vec::new();
        match options.libraries() {
            Some(asked) => {
                let mut i: usize = 0;
                assert(summaries(libraries@) =~= asked@.subrange(0, 0).map_values(
                    |library: ThirdPartyLibrary| request_for(library, target, versions.versions()),
                ));
                while i < asked.len()
                    invariant
                        i <= asked.len(),
                        summaries(libraries@) == asked@.subrange(0, i as int).map_values(
                            |library: ThirdPartyLibrary|
                                request_for(library, target, versions.versions()),
                        ),
                    decreases asked.len() - i,
                {
                    let ghost before = libraries@;
                    let request = asked[i].as_library(target, &versions);
                    libraries.push(request);
                    proof {
                        assert(summaries(libraries@) =~= summaries(before).push(
                            request_for(asked@[i as int], target, versions.versions()),
                        ));
                        assert(asked@.subrange(0, i + 1).map_values(
                            |library: ThirdPartyLibrary|
                                request_for(library, target, versions.versions()),
                        ) =~= asked@.subrange(0, i as int).map_values(
                            |library: ThirdPartyLibrary|
                                request_for(library, target, versions.versions()),
                        ).push(request_for(asked@[i as int], target, versions.versions())));
                    }
                    i = i + 1;
                }
                assert(asked@.subrange(0, asked.len() as int) =~= asked@);
            },
            None => {
                assert(summaries(libraries@) =~= Seq::empty());
            },
        }
        let executables = match options.executables() {
            Some(asked) => asked.clone(),
            None => {
                let mut both: Vec<Executable> = Vec::new();
                both.push(Executable::Cli);
                both.push(Executable::App);
                assert(both@ =~= seq![Executable::Cli, Executable::App]);
                both
            },
        };
        Ok(Self {
            builder_flags: options,
            builder_info,
            app_build_info: app_info,
            target_dir,
            target,
            host,
            workspace_directory,
            current_directory,
            identifier,
            app_name,
            executable_name,
            version,
            icons,
            libraries,
            executables,
        })
    }

    pub fn target(&self) -> (target: &Target)
        ensures
            *target == self.target,
    {
        &self.target
    }

    pub fn platform(&self) -> (platform: Platform)
        ensures
            platform == self.target.platform_of(),
    {
        self.target.platform()
    }

    pub fn target_dir(&self) -> (dir: &String)
        ensures
            *dir == self.target_dir,
    {
        &self.target_dir
    }

    pub fn identifier(&self) -> (identifier: &str)
        ensures
            identifier@ == self.identifier@,
    {
        self.identifier.as_str()
    }

    pub fn app_name(&self) -> (name: &str)
        ensures
            name@ == self.app_name@,
    {
        self.app_name.as_str()
    }

    pub fn executable_name(&self) -> (name: &str)
        ensures
            name@ == self.executable_name@,
    {
        self.executable_name.as_str()
    }

    /// The extension of an executable that is compiled for the target's
    /// platform.
    pub open spec fn spec_executable_artefact_extension(self) -> Option<Seq<char>> {
        match self.target.platform_of() {
            Platform::Mac => None,
            Platform::Windows => Some("exe"@),
            Platform::Linux => None,
            Platform::Android => Some("so"@),
        }
    }

    pub fn executable_artefact_extension(&self) -> (extension: Option<String>)
        ensures
            opt_text(extension) == self.spec_executable_artefact_extension(),
    {
        match self.target.platform() {
            Platform::Mac => None,
            Platform::Windows => Some(owned("exe")),
            Platform::Linux => None,
            Platform::Android => Some(owned("so")),
        }
    }

    pub fn version(&self) -> (version: &Version)
        ensures
            *version == self.version,
    {
        &self.version
    }

    pub fn verbose(&self) -> (level: i32)
        ensures
            level == self.builder_flags.verbose,
    {
        self.builder_flags.verbose()
    }

    pub fn release(&self) -> (release: bool)
        ensures
            release == self.builder_flags.release,
    {
        self.builder_flags.release()
    }

    pub fn include_debug_symbols(&self) -> (wanted: bool)
        ensures
            wanted == self.builder_flags.include_debug_symbols,
    {
        self.builder_flags.include_debug_symbols()
    }

    pub fn icons(&self) -> (icons: &Vec<String>)
        ensures
            *icons == self.icons,
    {
        &self.icons
    }

    pub fn bundle_dir(&self) -> (dir: Option<&str>)
        ensures
            opt_str(dir) == opt_text(self.builder_flags.bundle_dir),
    {
        self.builder_flags.bundle_dir()
    }

    pub fn vmmaker_vm(&self) -> (path: Option<&str>)
        ensures
            opt_str(path) == opt_text(self.builder_flags.vmmaker_vm),
    {
        self.builder_flags.vmmaker_vm()
    }

    pub fn vmmaker_image(&self) -> (path: Option<&str>)
        ensures
            opt_str(path) == opt_text(self.builder_flags.vmmaker_image),
    {
        self.builder_flags.vmmaker_image()
    }

    pub fn libraries(&self) -> (libraries: &Vec<LibraryRequest>)
        ensures
            *libraries == self.libraries,
    {
        &self.libraries
    }

    pub fn executables(&self) -> (executables: &Vec<Executable>)
        ensures
            *executables == self.executables,
    {
        &self.executables
    }

    pub fn features(&self) -> (features: Vec<String>)
        ensures
            views(features@) == self.builder_flags.spec_features(),
    {
        self.builder_flags.features()
    }

    /// The directory of the workspace, where the toolchain found one.
    pub fn workspace_directory(&self) -> (dir: Option<String>)
        ensures
            opt_text(dir) == opt_text(self.workspace_directory),
    {
        clone_opt(&self.workspace_directory)
    }
}

} // verus!

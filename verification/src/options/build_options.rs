//! Targets, platforms and the options as they come from the command line.
use vstd::prelude::*;
use crate::error::Error;
use crate::libraries::third_party::{ThirdPartyLibrary, VersionedThirdPartyLibraries};
use crate::options::bundle_options::Executable;
use crate::paths::{parent, parent_of};
use crate::tools::CommandLine;
use crate::text::{
    borrow_opt, chars_of, eq_ignore_ascii_case, find_first, is_first_index_of,
    matches_ignoring_ascii_case, opt_str, opt_text, owned, slice_of, string_of, views,
};

verus! {

/// A compilation destination: architecture, operating system and ABI.
#[derive(Copy, Clone, Debug, PartialEq, Eq, Structural)]
pub enum Target {
    X8664appleDarwin,
    AArch64appleDarwin,
    X8664pcWindowsMsvc,
    AArch64pcWindowsMsvc,
    X8664UnknownlinuxGNU,
    AArch64UnknownlinuxGNU,
    AArch64LinuxAndroid,
}

/// The family of operating systems that a target belongs to. It decides the
/// layout of the bundle and the extension of what is compiled.
#[derive(Copy, Clone, Debug, PartialEq, Eq, Structural)]
pub enum Platform {
    Mac,
    Windows,
    Linux,
    Android,
}

impl Platform {
    pub open spec fn unix(self) -> bool {
        self != Platform::Windows
    }

    pub fn is_unix(&self) -> (yes: bool)
        ensures
            yes == self.unix(),
            yes != (*self == Platform::Windows),
    {
        match self {
            Platform::Mac | Platform::Linux | Platform::Android => true,
            Platform::Windows => false,
        }
    }

    pub fn is_windows(&self) -> (yes: bool)
        ensures
            yes == (*self == Platform::Windows),
    {
        *self == Platform::Windows
    }

    pub fn is_android(&self) -> (yes: bool)
        ensures
            yes == (*self == Platform::Android),
    {
        *self == Platform::Android
    }
}

impl Target {
    /// The triple that names the target.
    pub open spec fn name(self) -> Seq<char> {
        match self {
            Target::X8664appleDarwin => "x86_64-apple-darwin"@,
            Target::AArch64appleDarwin => "aarch64-apple-darwin"@,
            Target::X8664pcWindowsMsvc => "x86_64-pc-windows-msvc"@,
            Target::AArch64pcWindowsMsvc => "aarch64-pc-windows-msvc"@,
            Target::X8664UnknownlinuxGNU => "x86_64-unknown-linux-gnu"@,
            Target::AArch64UnknownlinuxGNU => "aarch64-unknown-linux-gnu"@,
            Target::AArch64LinuxAndroid => "aarch64-linux-android"@,
        }
    }

    /// The platform of the target: each target has exactly one.
    pub open spec fn platform_of(self) -> Platform {
        match self {
            Target::X8664appleDarwin | Target::AArch64appleDarwin => Platform::Mac,
            Target::X8664pcWindowsMsvc | Target::AArch64pcWindowsMsvc => Platform::Windows,
            Target::X8664UnknownlinuxGNU | Target::AArch64UnknownlinuxGNU => Platform::Linux,
            Target::AArch64LinuxAndroid => Platform::Android,
        }
    }

    /// The place of the target in the list of all targets.
    pub open spec fn position(self) -> nat {
        match self {
            Target::X8664appleDarwin => 0,
            Target::AArch64appleDarwin => 1,
            Target::X8664pcWindowsMsvc => 2,
            Target::AArch64pcWindowsMsvc => 3,
            Target::X8664UnknownlinuxGNU => 4,
            Target::AArch64UnknownlinuxGNU => 5,
            Target::AArch64LinuxAndroid => 6,
        }
    }

    /// All targets, in the order in which they are declared.
    pub open spec fn every() -> Seq<Target> {
        seq![
            Target::X8664appleDarwin,
            Target::AArch64appleDarwin,
            Target::X8664pcWindowsMsvc,
            Target::AArch64pcWindowsMsvc,
            Target::X8664UnknownlinuxGNU,
            Target::AArch64UnknownlinuxGNU,
            Target::AArch64LinuxAndroid,
        ]
    }

    /// `text` names this target: it matches the target's triple, letters
    /// compared without regard to ASCII case, and the triple of no target
    /// declared before it.
    pub open spec fn is_named_by(self, text: Seq<char>) -> bool {
        &&& matches_ignoring_ascii_case(self.name(), text)
        &&& forall|other: Target|
            other.position() < self.position() ==> !matches_ignoring_ascii_case(
                #[trigger] other.name(),
                text,
            )
    }

    /// `text` names no target.
    pub open spec fn names_none(text: Seq<char>) -> bool {
        forall|target: Target| !matches_ignoring_ascii_case(#[trigger] target.name(), text)
    }

    /// Every target stands in `every()` at its own position.
    pub proof fn lemma_every_is_complete(target: Target)
        ensures
            Self::every().len() == 7,
            target.position() < 7,
            Self::every()[target.position() as int] == target,
    {
    }

    /// No two targets have triples that match: a triple names its own target
    /// and no other.
    pub proof fn lemma_names_differ(first: Target, second: Target)
        requires
            matches_ignoring_ascii_case(first.name(), second.name()),
        ensures
            first == second,
    {
        reveal_strlit("x86_64-apple-darwin");
        reveal_strlit("aarch64-apple-darwin");
        reveal_strlit("x86_64-pc-windows-msvc");
        reveal_strlit("aarch64-pc-windows-msvc");
        reveal_strlit("x86_64-unknown-linux-gnu");
        reveal_strlit("aarch64-unknown-linux-gnu");
        reveal_strlit("aarch64-linux-android");
    }

    /// Reading the triple of a target gives the target back.
    pub proof fn lemma_name_is_read_back(target: Target, read: Target)
        requires
            read.is_named_by(target.name()),
        ensures
            read == target,
            target.is_named_by(target.name()),
    {
        Self::lemma_names_differ(read, target);
        assert forall|other: Target|
            other.position() < target.position() implies !matches_ignoring_ascii_case(
            #[trigger] other.name(),
            target.name(),
        ) by {
            if matches_ignoring_ascii_case(other.name(), target.name()) {
                Self::lemma_names_differ(other, target);
            }
        }
    }

    /// All targets, in the order in which they are declared.
    pub fn value_variants() -> (all: Vec<Target>)
        ensures
            all@ == Self::every(),
    {
        let mut all: Vec<Target> = Vec::new();
        all.push(Target::X8664appleDarwin);
        all.push(Target::AArch64appleDarwin);
        all.push(Target::X8664pcWindowsMsvc);
        all.push(Target::AArch64pcWindowsMsvc);
        all.push(Target::X8664UnknownlinuxGNU);
        all.push(Target::AArch64UnknownlinuxGNU);
        all.push(Target::AArch64LinuxAndroid);
        assert(all@ =~= Self::every());
        all
    }

    pub fn platform(&self) -> (platform: Platform)
        ensures
            platform == self.platform_of(),
    {
        match self {
            Target::X8664appleDarwin => Platform::Mac,
            Target::AArch64appleDarwin => Platform::Mac,
            Target::X8664pcWindowsMsvc => Platform::Windows,
            Target::AArch64pcWindowsMsvc => Platform::Windows,
            Target::X8664UnknownlinuxGNU => Platform::Linux,
            Target::AArch64UnknownlinuxGNU => Platform::Linux,
            Target::AArch64LinuxAndroid => Platform::Android,
        }
    }

    pub fn is_unix(&self) -> (yes: bool)
        ensures
            yes == self.platform_of().unix(),
    {
        self.platform().is_unix()
    }

    pub fn is_windows(&self) -> (yes: bool)
        ensures
            yes == (self.platform_of() == Platform::Windows),
    {
        self.platform().is_windows()
    }

    /// Whether this is the target that the build itself runs on.
    pub fn is_current(&self, host: Target) -> (yes: bool)
        ensures
            yes == (*self == host),
    {
        *self == host
    }

    /// The triple that names the target.
    pub fn as_str(&self) -> (name: &'static str)
        ensures
            name@ == self.name(),
    {
        match self {
            Target::X8664appleDarwin => "x86_64-apple-darwin",
            Target::AArch64appleDarwin => "aarch64-apple-darwin",
            Target::X8664pcWindowsMsvc => "x86_64-pc-windows-msvc",
            Target::AArch64pcWindowsMsvc => "aarch64-pc-windows-msvc",
            Target::X8664UnknownlinuxGNU => "x86_64-unknown-linux-gnu",
            Target::AArch64UnknownlinuxGNU => "aarch64-unknown-linux-gnu",
            Target::AArch64LinuxAndroid => "aarch64-linux-android",
        }
    }

    /// The triple that names the target.
    pub fn to_string(&self) -> (name: String)
        ensures
            name@ == self.name(),
    {
        owned(self.as_str())
    }

    /// The triples of all targets, in declaration order.
    pub fn possible_variants() -> (names: Vec<String>)
        ensures
            views(names@) == Self::every().map_values(|t: Target| t.name()),
    {
        let all = Self::value_variants();
        let mut names: Vec<String> = Vec::new();
        let mut i: usize = 0;
        while i < all.len()
            invariant
                i <= all.len(),
                all@ == Self::every(),
                views(names@) == Self::every().subrange(0, i as int).map_values(
                    |t: Target| t.name(),
                ),
            decreases all.len() - i,
        {
            let ghost before = names@;
            names.push(all[i].to_string());
            proof {
                assert(views(names@) =~= views(before).push(all@[i as int].name()));
                assert(Self::every().subrange(0, i + 1).map_values(|t: Target| t.name())
                    =~= Self::every().subrange(0, i as int).map_values(|t: Target| t.name()).push(
                    all@[i as int].name(),
                ));
            }
            i = i + 1;
        }
        assert(Self::every().subrange(0, all.len() as int) =~= Self::every());
        names
    }

    /// The target that `s` names, letters compared without regard to ASCII
    /// case: the first target, in declaration order, whose triple matches. A
    /// text that matches no triple is refused, with a message that quotes it.
    pub fn from_str(s: &str) -> (parsed: Result<Target, String>)
        ensures
            match parsed {
                Ok(target) => target.is_named_by(s@),
                Err(message) => {
                    &&& Self::names_none(s@)
                    &&& message@ == "Invalid variant: "@ + s@
                },
            },
    {
        let all = Self::value_variants();
        let mut i: usize = 0;
        while i < all.len()
            invariant
                i <= all.len(),
                all@ == Self::every(),
                forall|j: int|
                    0 <= j < i ==> !matches_ignoring_ascii_case(
                        (#[trigger] Self::every()[j]).name(),
                        s@,
                    ),
            decreases all.len() - i,
        {
            let target = all[i];
            if eq_ignore_ascii_case(target.as_str(), s) {
                proof {
                    assert forall|other: Target|
                        other.position() < target.position() implies !matches_ignoring_ascii_case(
                        #[trigger] other.name(),
                        s@,
                    ) by {
                        Self::lemma_every_is_complete(other);
                        Self::lemma_every_is_complete(target);
                        assert(Self::every()[other.position() as int] == other);
                    }
                }
                return Ok(target);
            }
            i = i + 1;
        }
        proof {
            assert forall|target: Target|
                !matches_ignoring_ascii_case(#[trigger] target.name(), s@) by {
                Self::lemma_every_is_complete(target);
                assert(Self::every()[target.position() as int] == target);
            }
        }
        Err(Error::invalid_variant(s).message())
    }
}

/// The options as they come from the command line, before anything is resolved.
#[derive(Clone, Debug, PartialEq, Eq)]
pub struct BuilderOptions {
    /// How much to report: counted occurrences of the flag.
    pub verbose: i32,
    /// Build in release mode.
    pub release: bool,
    /// Build in debug mode.
    pub debug: bool,
    /// Put debug symbols into the bundle.
    pub include_debug_symbols: bool,
    /// The target to compile and bundle for, where it is not the host.
    pub target: Option<Target>,
    /// The root of the build directory.
    pub target_dir: Option<String>,
    pub app_name: Option<String>,
    /// Where the bundle is put.
    pub bundle_dir: Option<String>,
    pub plist_file: Option<String>,
    /// The name of the executable, where it differs from the application's.
    pub executable_name: Option<String>,
    /// The version, as `X.Y.Z` or `vX.Y.Z`.
    pub version: Option<String>,
    /// The identifier in reverse domain notation.
    pub identifier: Option<String>,
    pub author: Option<String>,
    /// Icons of different sizes, or one ready-made icon file.
    pub icons: Option<Vec<String>>,
    /// The third-party libraries to include.
    pub libraries: Option<Vec<ThirdPartyLibrary>>,
    /// A file that holds the versions of the libraries.
    pub libraries_versions: Option<String>,
    /// Versions that replace those of the file, in the order given.
    pub override_library_version: Option<Vec<(ThirdPartyLibrary, String)>>,
    pub vmmaker_vm: Option<String>,
    pub vmmaker_image: Option<String>,
    /// The executables to produce.
    pub executables: Option<Vec<Executable>>,
    /// Features handed to the compiler.
    pub features: Option<Vec<String>>,
}

impl Default for BuilderOptions {
    fn default() -> (options: Self)
        ensures
            options.verbose == 0,
            !options.release,
            !options.debug,
            !options.include_debug_symbols,
            options.target is None,
            options.target_dir is None,
            options.app_name is None,
            options.bundle_dir is None,
            options.plist_file is None,
            options.executable_name is None,
            options.version is None,
            options.identifier is None,
            options.author is None,
            options.icons is None,
            options.libraries is None,
            options.libraries_versions is None,
            options.override_library_version is None,
            options.vmmaker_vm is None,
            options.vmmaker_image is None,
            options.executables is None,
            options.features is None,
    {
        BuilderOptions {
            verbose: 0,
            release: false,
            debug: false,
            include_debug_symbols: false,
            target: None,
            target_dir: None,
            app_name: None,
            bundle_dir: None,
            plist_file: None,
            executable_name: None,
            version: None,
            identifier: None,
            author: None,
            icons: None,
            libraries: None,
            libraries_versions: None,
            override_library_version: None,
            vmmaker_vm: None,
            vmmaker_image: None,
            executables: None,
            features: None,
        }
    }
}

/// `base` with each override put in, one after the other.
pub open spec fn with_overrides(
    base: Map<ThirdPartyLibrary, Seq<char>>,
    overrides: Seq<(ThirdPartyLibrary, String)>,
) -> Map<ThirdPartyLibrary, Seq<char>>
    decreases overrides.len(),
{
    if overrides.len() == 0 {
        base
    } else {
        with_overrides(base, overrides.drop_last()).insert(
            overrides.last().0,
            overrides.last().1@,
        )
    }
}

impl BuilderOptions {
    /// The target asked for; the host where none is.
    pub open spec fn spec_target(self, host: Target) -> Target {
        match self.target {
            Some(target) => target,
            None => host,
        }
    }

    /// The features asked for; none where the option is absent.
    pub open spec fn spec_features(self) -> Seq<Seq<char>> {
        match self.features {
            Some(features) => views(features@),
            None => Seq::empty(),
        }
    }

    /// The versions of the libraries: those of the versions file, with the
    /// overrides of the command line put in.
    pub open spec fn spec_libraries_versions(
        self,
        from_file: Map<ThirdPartyLibrary, Seq<char>>,
    ) -> Map<ThirdPartyLibrary, Seq<char>> {
        match self.override_library_version {
            Some(overrides) => with_overrides(from_file, overrides@),
            None => from_file,
        }
    }

    /// The target to build for: the one asked for, or else the host.
    pub fn target(&self, host: Target) -> (target: Target)
        ensures
            target == self.spec_target(host),
    {
        match self.target {
            Some(target) => target,
            None => host,
        }
    }

    pub fn target_dir(&self) -> (dir: Option<&str>)
        ensures
            opt_str(dir) == opt_text(self.target_dir),
    {
        borrow_opt(&self.target_dir)
    }

    pub fn bundle_dir(&self) -> (dir: Option<&str>)
        ensures
            opt_str(dir) == opt_text(self.bundle_dir),
    {
        borrow_opt(&self.bundle_dir)
    }

    pub fn vmmaker_vm(&self) -> (path: Option<&str>)
        ensures
            opt_str(path) == opt_text(self.vmmaker_vm),
    {
        borrow_opt(&self.vmmaker_vm)
    }

    pub fn vmmaker_image(&self) -> (path: Option<&str>)
        ensures
            opt_str(path) == opt_text(self.vmmaker_image),
    {
        borrow_opt(&self.vmmaker_image)
    }

    /// The command that asks the toolchain where the workspace is.
    pub fn locate_project_command() -> (command: CommandLine)
        ensures
            command.words() == seq![
                "cargo"@,
                "locate-project"@,
                "--workspace"@,
                "--message-format"@,
                "plain"@,
            ],
    {
        let mut command = CommandLine::new("cargo");
        command.arg("locate-project");
        command.arg("--workspace");
        command.arg("--message-format");
        command.arg("plain");
        assert(command.words() =~= seq![
            "cargo"@,
            "locate-project"@,
            "--workspace"@,
            "--message-format"@,
            "plain"@,
        ]);
        command
    }

    /// The directory of the workspace: the directory of the file that the
    /// toolchain located, whose path is `located` as the toolchain printed it.
    pub fn workspace_directory(&self, located: &str) -> (directory: Option<String>)
        ensures
            opt_text(directory) == parent(located@),
    {
        parent_of(located)
    }

    pub fn app_name(&self) -> (name: Option<&str>)
        ensures
            opt_str(name) == opt_text(self.app_name),
    {
        borrow_opt(&self.app_name)
    }

    pub fn identifier(&self) -> (identifier: Option<&str>)
        ensures
            opt_str(identifier) == opt_text(self.identifier),
    {
        borrow_opt(&self.identifier)
    }

    pub fn executable_name(&self) -> (name: Option<&str>)
        ensures
            opt_str(name) == opt_text(self.executable_name),
    {
        borrow_opt(&self.executable_name)
    }

    pub fn version(&self) -> (version: Option<&str>)
        ensures
            opt_str(version) == opt_text(self.version),
    {
        borrow_opt(&self.version)
    }

    pub fn verbose(&self) -> (level: i32)
        ensures
            level == self.verbose,
    {
        self.verbose
    }

    /// Whether to build in release mode: only where that was asked for. Debug
    /// mode is the default.
    pub fn release(&self) -> (release: bool)
        ensures
            release == self.release,
    {
        if self.release {
            true
        } else if self.debug {
            false
        } else {
            false
        }
    }

    pub fn include_debug_symbols(&self) -> (wanted: bool)
        ensures
            wanted == self.include_debug_symbols,
    {
        self.include_debug_symbols
    }

    pub fn icons(&self) -> (icons: Option<&Vec<String>>)
        ensures
            icons is Some <==> self.icons is Some,
            icons matches Some(list) ==> *list == self.icons->0,
    {
        self.icons.as_ref()
    }

    pub fn libraries(&self) -> (libraries: Option<&Vec<ThirdPartyLibrary>>)
        ensures
            libraries is Some <==> self.libraries is Some,
            libraries matches Some(list) ==> *list == self.libraries->0,
    {
        self.libraries.as_ref()
    }

    pub fn executables(&self) -> (executables: Option<&Vec<Executable>>)
        ensures
            executables is Some <==> self.executables is Some,
            executables matches Some(list) ==> *list == self.executables->0,
    {
        self.executables.as_ref()
    }

    /// The features to compile with; none where the option is absent.
    pub fn features(&self) -> (features: Vec<String>)
        ensures
            views(features@) == self.spec_features(),
    {
        match &self.features {
            Some(features) => crate::text::clone_strings(features),
            None => {
                let none: Vec<String> = Vec::new();
                assert(views(none@) =~= Seq::<Seq<char>>::empty());
                none
            },
        }
    }

    /// The versions of the libraries: `from_file`, which is what the versions
    /// file holds (nothing where no file is named), with each override of the
    /// command line put in, in the order given.
    pub fn libraries_versions(&self, from_file: VersionedThirdPartyLibraries) -> (versions:
        VersionedThirdPartyLibraries)
        ensures
            versions.versions() == self.spec_libraries_versions(from_file.versions()),
    {
        let mut versions = from_file;
        match &self.override_library_version {
            Some(overrides) => {
                let mut i: usize = 0;
                assert(overrides@.subrange(0, 0) =~= Seq::empty());
                while i < overrides.len()
                    invariant
                        i <= overrides.len(),
                        versions.versions() == with_overrides(
                            from_file.versions(),
                            overrides@.subrange(0, i as int),
                        ),
                    decreases overrides.len() - i,
                {
                    let library = overrides[i].0;
                    versions.set_version_of(library, overrides[i].1.as_str());
                    proof {
                        let next = overrides@.subrange(0, i + 1);
                        assert(next.drop_last() =~= overrides@.subrange(0, i as int));
                        assert(next.last() == overrides@[i as int]);
                    }
                    i = i + 1;
                }
                assert(overrides@.subrange(0, overrides.len() as int) =~= overrides@);
            },
            None => {},
        }
        versions
    }
}

/// One override of a library's version, as `LIBRARY=version`: the key is what
/// stands before the first `=`, the version what follows it. The key has to
/// name a library.
pub fn parse_key_val(s: &str) -> (parsed: Result<(ThirdPartyLibrary, String), Error>)
    ensures
        match parsed {
            Ok((library, version)) => exists|at: int|
                {
                    &&& #[trigger] is_first_index_of(s@, '=', at)
                    &&& library.is_named_by(s@.subrange(0, at))
                    &&& version@ == s@.subrange(at + 1, s@.len() as int)
                },
            Err(Error::InvalidKeyValue { input }) => !s@.contains('=') && input@ == s@,
            Err(Error::InvalidVariant { input }) => exists|at: int|
                {
                    &&& #[trigger] is_first_index_of(s@, '=', at)
                    &&& ThirdPartyLibrary::names_none(s@.subrange(0, at))
                    &&& input@ == s@.subrange(0, at)
                },
            Err(_) => false,
        },
{
    let chars = chars_of(s);
    match find_first(&chars, '=') {
        None => Err(Error::InvalidKeyValue { input: owned(s) }),
        Some(at) => {
            let key = string_of(&slice_of(&chars, 0, at));
            let version = string_of(&slice_of(&chars, at + 1, chars.len()));
            match ThirdPartyLibrary::from_str(key.as_str()) {
                Ok(library) => {
                    assert(is_first_index_of(s@, '=', at as int));
                    Ok((library, version))
                },
                Err(error) => {
                    assert(is_first_index_of(s@, '=', at as int));
                    Err(error)
                },
            }
        },
    }
}

} // verus!

//! The recipe of the cairo library: where its sources come from, what it needs,
//! how its build is configured, and how its makefiles are patched for Windows.
use vstd::prelude::*;
use crate::error::Error;
use crate::libraries::graph::{
    extended, holds, is_chain, is_plan, lemma_search_begins, lemma_search_ends,
    lemma_search_extends, search_holds, well_linked, BuildStep, LibraryLocation, TarArchive,
};
use crate::options::build_options::Platform;
use crate::options::bundle_options::BundleOptions;
use crate::paths::{file_name, file_name_of, join, joined, parent, parent_of};
use crate::steps::{
    copy_file, create_directories, no_steps, plan, push_step, remove_file, run_in, set_variable,
    write_file, Step, StepView,
};
use crate::text::{
    clone_strings, concat, concat3, contains_text, opt_str, owned, replace_all, replaced, views,
};
use crate::tools::CommandLine;

verus! {

/// The directory that the archive of the sources unpacks to.
pub const SOURCES: &'static str = "cairo-1.17.4";

/// Where the archive of the sources is fetched from.
pub const ARCHIVE: &'static str = "https://cairographics.org/snapshots/cairo-1.17.4.tar.xz";

/// The cairo library, with the libraries that it is built upon.
#[derive(Clone, Debug, PartialEq, Eq)]
pub struct CairoLibrary {
    pub location: LibraryLocation,
    /// The libraries that have to be built before, by name.
    pub dependencies: Vec<String>,
    pub pixman: String,
    pub zlib: String,
    pub png: String,
    pub freetype: String,
}

/// A makefile of the sources that is patched before cairo is built on Windows.
#[derive(Copy, Clone, Debug, PartialEq, Eq, Structural)]
pub enum Makefile {
    /// The makefile that all others read.
    Common,
    /// The makefile that writes the header of the features.
    FeaturesHeader,
    /// The makefile that says which features are built.
    Features,
    /// The makefile of the sources.
    Sources,
}

/// The whole of a build of cairo, in the order in which it is done.
#[derive(Clone, Debug, PartialEq, Eq)]
pub struct CairoBuild {
    /// First, the libraries: those that cairo depends on, and cairo after
    /// them. Cairo is library 0, and what it depends on is 1 and up, in the
    /// order of its dependencies.
    pub order: Vec<BuildStep>,
    /// When the turn of cairo has come: the makefiles to patch, in this
    /// order, each with its path. There are none off Windows.
    pub patches: Vec<(Makefile, String)>,
    /// Then the steps that configure and compile cairo itself.
    pub steps: Vec<Step>,
}

/// The graph of a library that depends on `count` libraries, which depend on
/// nothing: the library is 0, and what it depends on is 1 to `count`.
pub open spec fn star_graph(count: nat) -> Seq<Seq<usize>> {
    Seq::new(
        count + 1,
        |i: int|
            if i == 0 {
                Seq::new(count, |k: int| (k + 1) as usize)
            } else {
                Seq::empty()
            },
    )
}

/// The path of each makefile that is patched, below the sources.
pub open spec fn makefile_path(options: BundleOptions, makefile: Makefile) -> Seq<char> {
    match makefile {
        Makefile::Common => joined(
            joined(cairo_sources(options), "build"@),
            "Makefile.win32.common"@,
        ),
        Makefile::FeaturesHeader => joined(
            joined(cairo_sources(options), "build"@),
            "Makefile.win32.features-h"@,
        ),
        Makefile::Features => joined(
            joined(cairo_sources(options), "build"@),
            "Makefile.win32.features"@,
        ),
        Makefile::Sources => joined(joined(cairo_sources(options), "src"@), "Makefile.win32"@),
    }
}

/// The makefiles that are patched before cairo is built, in the order in which
/// they are patched: four on Windows, none elsewhere.
pub open spec fn makefiles_to_patch(options: BundleOptions) -> Seq<Makefile> {
    if options.options.target.platform_of() == Platform::Windows {
        seq![Makefile::Common, Makefile::FeaturesHeader, Makefile::Features, Makefile::Sources]
    } else {
        Seq::empty()
    }
}

/// The steps that build cairo itself, by platform.
pub open spec fn own_steps(
    options: BundleOptions,
    library: CairoLibrary,
    inherited_paths: Option<Seq<char>>,
    inherited_flags: Option<Seq<char>>,
) -> Seq<StepView> {
    if options.options.target.platform_of() == Platform::Windows {
        windows_steps(options, library)
    } else {
        unix_steps(options, views(library.dependencies@), inherited_paths, inherited_flags)
    }
}

/// The tools and directories that have to be there before a library is built.
#[derive(Clone, Debug, PartialEq, Eq)]
pub struct Requirements {
    pub tools: Vec<String>,
    pub directories: Vec<String>,
}

/// Where a library named `name` is installed, on every platform but Windows.
pub open spec fn install_prefix(options: BundleOptions, name: Seq<char>) -> Seq<char> {
    joined(options.options.target_dir@, name)
}

/// Where the sources of cairo are unpacked.
pub open spec fn cairo_sources(options: BundleOptions) -> Seq<char> {
    joined(options.spec_sources_directory(), SOURCES@)
}

/// Where cairo is built and installed: among its sources on Windows, below
/// the build directory everywhere else.
pub open spec fn cairo_prefix(options: BundleOptions) -> Seq<char> {
    if options.options.target.platform_of() == Platform::Windows {
        cairo_sources(options)
    } else {
        install_prefix(options, "cairo"@)
    }
}

/// One text for each of `items`, made of `before`, the item and `after`; the
/// texts are joined with `between`.
pub open spec fn wrapped(
    items: Seq<Seq<char>>,
    before: Seq<char>,
    after: Seq<char>,
    between: Seq<char>,
) -> Seq<char>
    decreases items.len(),
{
    if items.len() == 0 {
        Seq::empty()
    } else if items.len() == 1 {
        before + items[0] + after
    } else {
        wrapped(items.drop_last(), before, after, between) + between + (before + items.last()
            + after)
    }
}

/// The directories in which the dependencies describe themselves to the
/// configuration, in the order of the dependencies.
pub open spec fn pkg_config_directories(options: BundleOptions, dependencies: Seq<Seq<char>>) -> Seq<
    Seq<char>,
> {
    dependencies.map_values(
        |name: Seq<char>| joined(joined(install_prefix(options, name), "lib"@), "pkgconfig"@),
    )
}

/// The directories of the headers of the dependencies, in their order.
pub open spec fn include_directories(options: BundleOptions, dependencies: Seq<Seq<char>>) -> Seq<
    Seq<char>,
> {
    dependencies.map_values(|name: Seq<char>| joined(install_prefix(options, name), "include"@))
}

/// The search path of the configuration: the directories of the dependencies
/// first, in their order, then that of the sources of pixman, then what the
/// environment held before.
pub open spec fn pkg_config_path(
    options: BundleOptions,
    dependencies: Seq<Seq<char>>,
    inherited: Option<Seq<char>>,
) -> Seq<char> {
    let own = wrapped(
        pkg_config_directories(options, dependencies).push("../pixman"@),
        Seq::empty(),
        Seq::empty(),
        ":"@,
    );
    match inherited {
        Some(paths) => own + ":"@ + paths,
        None => own,
    }
}

/// The flags of the preprocessor: what the environment held before, and the
/// directories of the headers of the dependencies behind it.
pub open spec fn cpp_flags(
    options: BundleOptions,
    dependencies: Seq<Seq<char>>,
    inherited: Option<Seq<char>>,
) -> Seq<char> {
    let flags = wrapped(include_directories(options, dependencies), "-I"@, Seq::empty(), " "@);
    match inherited {
        Some(before) => before + " "@ + flags,
        None => " "@ + flags,
    }
}

/// The steps that build cairo on a platform of the Unix family.
pub open spec fn unix_steps(
    options: BundleOptions,
    dependencies: Seq<Seq<char>>,
    inherited_paths: Option<Seq<char>>,
    inherited_flags: Option<Seq<char>>,
) -> Seq<StepView> {
    let prefix = cairo_prefix(options);
    seq![
        StepView::CreateDirectories { path: prefix },
        StepView::SetVariable {
            name: "PKG_CONFIG_PATH"@,
            value: pkg_config_path(options, dependencies, inherited_paths),
        },
        StepView::SetVariable {
            name: "CPPFLAGS"@,
            value: cpp_flags(options, dependencies, inherited_flags),
        },
        StepView::SetVariable { name: "LIBS"@, value: "-lbz2"@ },
        StepView::RunIn {
            directory: prefix,
            words: seq![
                joined(cairo_sources(options), "configure"@),
                "--prefix="@ + prefix,
                "--exec-prefix="@ + prefix,
                "--libdir="@ + joined(prefix, "lib"@),
            ],
            failure: "Could not configure cairo"@,
        },
        StepView::RunIn {
            directory: prefix,
            words: seq!["make"@, "install"@],
            failure: "Could not compile cairo"@,
        },
    ]
}

/// The step that builds cairo on Windows, once its makefiles are patched.
pub open spec fn windows_steps(options: BundleOptions, library: CairoLibrary) -> Seq<StepView> {
    seq![
        StepView::RunIn {
            directory: cairo_sources(options),
            words: seq![
                "make"@,
                "cairo"@,
                "-f"@,
                joined(cairo_sources(options), "Makefile.win32"@),
                "CFG=release"@,
                "PIXMAN_PATH="@ + install_prefix(options, library.pixman@),
                "ZLIB_PATH="@ + install_prefix(options, library.zlib@),
                "LIBPNG_PATH="@ + install_prefix(options, library.png@),
            ],
            failure: "Could not configure cairo"@,
        },
    ]
}

/// The file that marks `path` as patched, and the file that keeps what it held
/// before: beside it, under its name with `.fixed` and with `.bak` behind it.
pub open spec fn fixed_file(path: Seq<char>) -> Seq<char> {
    joined(parent(path)->0, file_name(path)->0 + ".fixed"@)
}

pub open spec fn backup_file(path: Seq<char>) -> Seq<char> {
    joined(parent(path)->0, file_name(path)->0 + ".bak"@)
}

/// The steps before a file is patched: a file that was patched before is put
/// back as it was, and a file that was not is kept.
pub open spec fn restore_steps(path: Seq<char>, patched_before: bool) -> Seq<StepView> {
    if patched_before {
        seq![
            StepView::RemoveFile { path: fixed_file(path) },
            StepView::CopyFile { from: backup_file(path), to: path },
        ]
    } else {
        seq![StepView::CopyFile { from: path, to: backup_file(path) }]
    }
}

/// The steps that put the patched contents in place and mark the file.
pub open spec fn write_steps(path: Seq<char>, contents: Seq<char>) -> Seq<StepView> {
    seq![
        StepView::WriteFile { path, contents },
        StepView::CopyFile { from: path, to: fixed_file(path) },
    ]
}

/// The flags that the common makefile is given for each directory of headers.
pub open spec fn include_lines(directories: Seq<Seq<char>>) -> Seq<char> {
    wrapped(directories, "DEFAULT_CFLAGS += -I\""@, "\""@, "\n"@)
}

/// The flags that the common makefile is given for each directory of
/// libraries.
pub open spec fn link_lines(directories: Seq<Seq<char>>) -> Seq<char> {
    wrapped(directories, "DEFAULT_LDFLAGS += -LIBPATH:\""@, "\""@, "\n"@)
}

/// The line of the common makefile behind which the directories of headers
/// are put.
pub open spec fn include_anchor() -> Seq<char> {
    "DEFAULT_CFLAGS += -I. -I$(top_srcdir) -I$(top_srcdir)/src"@
}

/// The line of the common makefile behind which the directories of libraries
/// are put.
pub open spec fn link_anchor() -> Seq<char> {
    "DEFAULT_LDFLAGS = -nologo $(CFG_LDFLAGS)"@
}

/// The common makefile as the build on Windows needs it: the runtime is linked
/// statically, zlib and libpng are taken from where they are installed, the
/// shell commands go through `coreutils`, the directories of headers and of
/// libraries are added, and freetype is linked.
pub open spec fn common_makefile(
    contents: Seq<char>,
    include_directories: Seq<Seq<char>>,
    link_directories: Seq<Seq<char>>,
) -> Seq<char> {
    let a = replaced(contents, "-MD"@, "-MT"@);
    let b = replaced(
        a,
        "CAIRO_LIBS += $(ZLIB_PATH)/zdll.lib"@,
        "CAIRO_LIBS += $(ZLIB_PATH)/lib/zlibstatic.lib"@,
    );
    let c = replaced(b, "ZLIB_CFLAGS += -I$(ZLIB_PATH)"@, "ZLIB_CFLAGS += -I$(ZLIB_PATH)/include"@);
    let d = replaced(
        c,
        "CAIRO_LIBS +=  $(LIBPNG_PATH)/libpng.lib"@,
        "CAIRO_LIBS +=  $(LIBPNG_PATH)/lib/libpng16_static.lib"@,
    );
    let e = replaced(
        d,
        "LIBPNG_CFLAGS += -I$(LIBPNG_PATH)/"@,
        "LIBPNG_CFLAGS += -I$(LIBPNG_PATH)/include"@,
    );
    let f = replaced(e, "@mkdir"@, "@coreutils mkdir"@);
    let g = replaced(f, "`dirname $<`"@, "\"$(shell coreutils dirname $<)\""@);
    let h = replaced(
        g,
        include_anchor(),
        include_anchor() + "\n"@ + include_lines(include_directories),
    );
    let i = replaced(h, link_anchor(), link_anchor() + "\n"@ + link_lines(link_directories));
    replaced(
        i,
        "CAIRO_LIBS =  gdi32.lib msimg32.lib user32.lib"@,
        "CAIRO_LIBS =  gdi32.lib msimg32.lib user32.lib freetype.lib"@,
    )
}

/// The texts of `items`, each between `before` and `after`, joined with
/// `between`.
pub fn wrap_each(items: &Vec<String>, before: &str, after: &str, between: &str) -> (text: String)
    ensures
        text@ == wrapped(views(items@), before@, after@, between@),
{
    let mut text = String::new();
    let mut i: usize = 0;
    assert(views(items@.subrange(0, 0)) =~= Seq::<Seq<char>>::empty());
    while i < items.len()
        invariant
            i <= items.len(),
            text@ == wrapped(views(items@.subrange(0, i as int)), before@, after@, between@),
        decreases items.len() - i,
    {
        proof {
            let next = views(items@.subrange(0, i + 1));
            assert(next.drop_last() =~= views(items@.subrange(0, i as int)));
            assert(next.last() == items@[i as int]@);
            assert(next[0] == items@[0]@);
        }
        let item = concat3(before, items[i].as_str(), after);
        if i == 0 {
            text = item;
        } else {
            text = concat3(text.as_str(), between, item.as_str());
        }
        i = i + 1;
    }
    assert(items@.subrange(0, items.len() as int) =~= items@);
    text
}

/// `items` with `last` behind them.
fn with_one_more(items: &Vec<String>, last: String) -> (all: Vec<String>)
    ensures
        views(all@) == views(items@).push(last@),
{
    let mut all = clone_strings(items);
    let ghost before = all@;
    all.push(last);
    assert(views(all@) =~= views(before).push(last@));
    all
}

impl CairoLibrary {
    /// The recipe: the sources are an archive; pixman, freetype and libpng
    /// are built before, in this order.
    pub fn new() -> (library: Self)
        ensures
            library.location matches LibraryLocation::Tar { url, archive, sources } && url@
                == ARCHIVE@ && archive == TarArchive::Xz && sources@ == SOURCES@,
            views(library.dependencies@) == seq!["pixman"@, "freetype"@, "png"@],
            library.pixman@ == "pixman"@,
            library.zlib@ == "zlib"@,
            library.png@ == "png"@,
            library.freetype@ == "freetype"@,
    {
        let mut dependencies: Vec<String> = Vec::new();
        dependencies.push(owned("pixman"));
        dependencies.push(owned("freetype"));
        dependencies.push(owned("png"));
        assert(views(dependencies@) =~= seq!["pixman"@, "freetype"@, "png"@]);
        Self {
            location: LibraryLocation::Tar {
                url: owned(ARCHIVE),
                archive: TarArchive::Xz,
                sources: owned(SOURCES),
            },
            dependencies,
            pixman: owned("pixman"),
            zlib: owned("zlib"),
            png: owned("png"),
            freetype: owned("freetype"),
        }
    }

    pub fn name(&self) -> (name: &'static str)
        ensures
            name@ == "cairo"@,
    {
        "cairo"
    }

    pub fn location(&self) -> (location: &LibraryLocation)
        ensures
            *location == self.location,
    {
        &self.location
    }

    /// Where the libraries that cairo is built upon are installed, in their
    /// order.
    pub fn native_library_dependency_prefixes(&self, options: &BundleOptions) -> (prefixes: Vec<
        String,
    >)
        ensures
            views(prefixes@) == views(self.dependencies@).map_values(
                |name: Seq<char>| install_prefix(*options, name),
            ),
    {
        let mut prefixes: Vec<String> = Vec::new();
        let mut i: usize = 0;
        assert(views(prefixes@) =~= views(self.dependencies@.subrange(0, 0)).map_values(
            |name: Seq<char>| install_prefix(*options, name),
        ));
        while i < self.dependencies.len()
            invariant
                i <= self.dependencies.len(),
                views(prefixes@) == views(self.dependencies@.subrange(0, i as int)).map_values(
                    |name: Seq<char>| install_prefix(*options, name),
                ),
            decreases self.dependencies.len() - i,
        {
            let ghost before = prefixes@;
            let prefix = Self::dependency_prefix(options, self.dependencies[i].as_str());
            prefixes.push(prefix);
            proof {
                assert(views(prefixes@) =~= views(before).push(prefix@));
                assert(views(self.dependencies@.subrange(0, i + 1)).map_values(
                    |name: Seq<char>| install_prefix(*options, name),
                ) =~= views(self.dependencies@.subrange(0, i as int)).map_values(
                    |name: Seq<char>| install_prefix(*options, name),
                ).push(prefix@));
            }
            i = i + 1;
        }
        assert(self.dependencies@.subrange(0, self.dependencies.len() as int)
            =~= self.dependencies@);
        prefixes
    }

    pub fn has_dependencies(&self) -> (yes: bool)
        ensures
            yes == (self.dependencies@.len() > 0),
    {
        self.dependencies.len() > 0
    }

    /// Where the sources are unpacked.
    pub fn source_directory(&self, options: &BundleOptions) -> (directory: String)
        ensures
            directory@ == cairo_sources(*options),
    {
        join(options.third_party_libraries_sources_directory().as_str(), SOURCES)
    }

    /// Where a library named `name` is installed.
    pub fn dependency_prefix(options: &BundleOptions, name: &str) -> (prefix: String)
        ensures
            prefix@ == install_prefix(*options, name@),
    {
        join(options.target_dir().as_str(), name)
    }

    /// Where cairo is built and installed.
    pub fn native_library_prefix(&self, options: &BundleOptions) -> (prefix: String)
        ensures
            prefix@ == cairo_prefix(*options),
    {
        if options.target().is_windows() {
            self.source_directory(options)
        } else {
            Self::dependency_prefix(options, "cairo")
        }
    }

    /// The directories in which the compiled library is found.
    pub fn compiled_library_directories(&self, options: &BundleOptions) -> (directories: Vec<
        String,
    >)
        ensures
            views(directories@) == if options.options.target.platform_of() == Platform::Windows {
                seq![joined(joined(cairo_prefix(*options), "src"@), options.spec_profile())]
            } else {
                seq![joined(cairo_prefix(*options), "lib"@)]
            },
    {
        let prefix = self.native_library_prefix(options);
        let mut directories: Vec<String> = Vec::new();
        if options.target().is_unix() {
            directories.push(join(prefix.as_str(), "lib"));
            assert(views(directories@) =~= seq![joined(cairo_prefix(*options), "lib"@)]);
        } else {
            let below = join(prefix.as_str(), "src");
            directories.push(join(below.as_str(), options.profile().as_str()));
            assert(views(directories@) =~= seq![
                joined(joined(cairo_prefix(*options), "src"@), options.spec_profile()),
            ]);
        }
        directories
    }

    /// What has to be there before cairo is built: `make` everywhere; on
    /// Windows also `coreutils`, and the directories of the libraries and of
    /// the headers of the compiler, in this order.
    pub fn ensure_requirements(
        &self,
        options: &BundleOptions,
        msvc_lib_directories: &Vec<String>,
        msvc_include_directories: &Vec<String>,
    ) -> (required: Requirements)
        ensures
            views(required.tools@) == if options.options.target.platform_of() == Platform::Windows {
                seq!["make"@, "coreutils"@]
            } else {
                seq!["make"@]
            },
            views(required.directories@) == if options.options.target.platform_of()
                == Platform::Windows {
                views(msvc_lib_directories@) + views(msvc_include_directories@)
            } else {
                Seq::empty()
            },
    {
        let mut tools: Vec<String> = Vec::new();
        tools.push(owned("make"));
        let mut directories: Vec<String> = Vec::new();
        if options.target().is_windows() {
            tools.push(owned("coreutils"));
            assert(views(tools@) =~= seq!["make"@, "coreutils"@]);
            let mut libs = clone_strings(msvc_lib_directories);
            let mut headers = clone_strings(msvc_include_directories);
            let ghost first = libs@;
            let ghost second = headers@;
            directories.append(&mut libs);
            directories.append(&mut headers);
            assert(directories@ =~= first + second);
            assert(views(directories@) =~= views(first) + views(second));
        } else {
            assert(views(tools@) =~= seq!["make"@]);
            assert(views(directories@) =~= Seq::<Seq<char>>::empty());
        }
        Requirements { tools, directories }
    }

    fn pkg_config_dirs(&self, options: &BundleOptions) -> (directories: Vec<String>)
        ensures
            views(directories@) == pkg_config_directories(*options, views(self.dependencies@)),
    {
        let mut directories: Vec<String> = Vec::new();
        let mut i: usize = 0;
        assert(views(directories@) =~= pkg_config_directories(
            *options,
            views(self.dependencies@.subrange(0, 0)),
        ));
        while i < self.dependencies.len()
            invariant
                i <= self.dependencies.len(),
                views(directories@) == pkg_config_directories(
                    *options,
                    views(self.dependencies@.subrange(0, i as int)),
                ),
            decreases self.dependencies.len() - i,
        {
            let prefix = Self::dependency_prefix(options, self.dependencies[i].as_str());
            let lib = join(prefix.as_str(), "lib");
            let ghost before = directories@;
            let directory = join(lib.as_str(), "pkgconfig");
            directories.push(directory);
            proof {
                assert(views(directories@) =~= views(before).push(directory@));
                assert(pkg_config_directories(
                    *options,
                    views(self.dependencies@.subrange(0, i + 1)),
                ) =~= pkg_config_directories(
                    *options,
                    views(self.dependencies@.subrange(0, i as int)),
                ).push(directory@));
            }
            i = i + 1;
        }
        assert(self.dependencies@.subrange(0, self.dependencies.len() as int)
            =~= self.dependencies@);
        directories
    }

    fn include_dirs(&self, options: &BundleOptions) -> (directories: Vec<String>)
        ensures
            views(directories@) == include_directories(*options, views(self.dependencies@)),
    {
        let mut directories: Vec<String> = Vec::new();
        let mut i: usize = 0;
        assert(views(directories@) =~= include_directories(
            *options,
            views(self.dependencies@.subrange(0, 0)),
        ));
        while i < self.dependencies.len()
            invariant
                i <= self.dependencies.len(),
                views(directories@) == include_directories(
                    *options,
                    views(self.dependencies@.subrange(0, i as int)),
                ),
            decreases self.dependencies.len() - i,
        {
            let prefix = Self::dependency_prefix(options, self.dependencies[i].as_str());
            let ghost before = directories@;
            let directory = join(prefix.as_str(), "include");
            directories.push(directory);
            proof {
                assert(views(directories@) =~= views(before).push(directory@));
                assert(include_directories(
                    *options,
                    views(self.dependencies@.subrange(0, i + 1)),
                ) =~= include_directories(
                    *options,
                    views(self.dependencies@.subrange(0, i as int)),
                ).push(directory@));
            }
            i = i + 1;
        }
        assert(self.dependencies@.subrange(0, self.dependencies.len() as int)
            =~= self.dependencies@);
        directories
    }

    /// The search path of the configuration.
    pub fn pkg_config_path(&self, options: &BundleOptions, inherited: Option<&str>) -> (path: String)
        ensures
            path@ == pkg_config_path(*options, views(self.dependencies@), opt_str(inherited)),
    {
        let directories = with_one_more(&self.pkg_config_dirs(options), owned("../pixman"));
        let own = wrap_each(&directories, "", "", ":");
        proof {
            reveal_strlit("");
            assert(""@ =~= Seq::<char>::empty());
        }
        match inherited {
            Some(paths) => concat3(own.as_str(), ":", paths),
            None => own,
        }
    }

    /// The flags of the preprocessor.
    pub fn include_headers_flags(&self, options: &BundleOptions, inherited: Option<&str>) -> (flags:
        String)
        ensures
            flags@ == cpp_flags(*options, views(self.dependencies@), opt_str(inherited)),
    {
        let own = wrap_each(&self.include_dirs(options), "-I", "", " ");
        proof {
            reveal_strlit("");
            assert(""@ =~= Seq::<char>::empty());
        }
        match inherited {
            Some(before) => concat3(before, " ", own.as_str()),
            None => concat(" ", own.as_str()),
        }
    }

    /// The steps that build cairo on a platform of the Unix family: the
    /// directory of the build is made sure of; the environment of the
    /// configuration is put together, the contributions of the dependencies
    /// in the order of the dependencies; the sources are configured, and
    /// built. `inherited_paths` and `inherited_flags` are what the
    /// environment holds for the search path and for the flags.
    pub fn compile_unix(
        &self,
        options: &BundleOptions,
        inherited_paths: Option<&str>,
        inherited_flags: Option<&str>,
    ) -> (steps: Vec<Step>)
        ensures
            plan(steps@) == unix_steps(
                *options,
                views(self.dependencies@),
                opt_str(inherited_paths),
                opt_str(inherited_flags),
            ),
    {
        let prefix = self.native_library_prefix(options);
        let mut steps = no_steps();
        push_step(&mut steps, create_directories(prefix.as_str()));
        push_step(
            &mut steps,
            set_variable("PKG_CONFIG_PATH", self.pkg_config_path(options, inherited_paths).as_str()),
        );
        push_step(
            &mut steps,
            set_variable("CPPFLAGS", self.include_headers_flags(options, inherited_flags).as_str()),
        );
        push_step(&mut steps, set_variable("LIBS", "-lbz2"));
        let configure = join(self.source_directory(options).as_str(), "configure");
        let mut command = CommandLine::new(configure.as_str());
        command.arg(concat("--prefix=", prefix.as_str()).as_str());
        command.arg(concat("--exec-prefix=", prefix.as_str()).as_str());
        command.arg(concat("--libdir=", join(prefix.as_str(), "lib").as_str()).as_str());
        assert(command.words() =~= seq![
            joined(cairo_sources(*options), "configure"@),
            "--prefix="@ + cairo_prefix(*options),
            "--exec-prefix="@ + cairo_prefix(*options),
            "--libdir="@ + joined(cairo_prefix(*options), "lib"@),
        ]);
        push_step(&mut steps, run_in(prefix.as_str(), command, "Could not configure cairo"));
        let mut make = CommandLine::new("make");
        make.arg("install");
        assert(make.words() =~= seq!["make"@, "install"@]);
        push_step(&mut steps, run_in(prefix.as_str(), make, "Could not compile cairo"));
        assert(plan(steps@) =~= unix_steps(
            *options,
            views(self.dependencies@),
            opt_str(inherited_paths),
            opt_str(inherited_flags),
        ));
        steps
    }

    /// The step that builds cairo on Windows, from makefiles that are patched.
    pub fn compile_windows(&self, options: &BundleOptions) -> (steps: Vec<Step>)
        ensures
            plan(steps@) == windows_steps(*options, *self),
    {
        let sources = self.source_directory(options);
        let mut command = CommandLine::new("make");
        command.arg("cairo");
        command.arg("-f");
        command.arg(join(sources.as_str(), "Makefile.win32").as_str());
        command.arg("CFG=release");
        command.arg(
            concat(
                "PIXMAN_PATH=",
                Self::dependency_prefix(options, self.pixman.as_str()).as_str(),
            ).as_str(),
        );
        command.arg(
            concat("ZLIB_PATH=", Self::dependency_prefix(options, self.zlib.as_str()).as_str()).as_str(),
        );
        command.arg(
            concat(
                "LIBPNG_PATH=",
                Self::dependency_prefix(options, self.png.as_str()).as_str(),
            ).as_str(),
        );
        assert(command.words() =~= seq![
            "make"@,
            "cairo"@,
            "-f"@,
            joined(cairo_sources(*options), "Makefile.win32"@),
            "CFG=release"@,
            "PIXMAN_PATH="@ + install_prefix(*options, self.pixman@),
            "ZLIB_PATH="@ + install_prefix(*options, self.zlib@),
            "LIBPNG_PATH="@ + install_prefix(*options, self.png@),
        ]);
        let mut steps = no_steps();
        push_step(&mut steps, run_in(sources.as_str(), command, "Could not configure cairo"));
        assert(plan(steps@) =~= windows_steps(*options, *self));
        steps
    }

    /// The steps that build cairo itself, once what it depends on is built
    /// and, on Windows, its makefiles are patched (`build` gives the whole in
    /// its order): those of Windows for a Windows target, those of the Unix
    /// family for every other.
    pub fn force_compile(
        &self,
        options: &BundleOptions,
        inherited_paths: Option<&str>,
        inherited_flags: Option<&str>,
    ) -> (steps: Vec<Step>)
        ensures
            plan(steps@) == own_steps(
                *options,
                *self,
                opt_str(inherited_paths),
                opt_str(inherited_flags),
            ),
    {
        if options.target().is_windows() {
            self.compile_windows(options)
        } else {
            self.compile_unix(options, inherited_paths, inherited_flags)
        }
    }

    /// The order in which cairo and the libraries that it depends on are
    /// built: every library that it depends on before cairo, each with its
    /// sources made sure of and compiled unless the cache holds it. `cached`
    /// holds the libraries of the cache, cairo as 0 and what it depends on as
    /// 1 and up.
    pub fn build_order(&self, cached: &Vec<usize>) -> (order: Vec<BuildStep>)
        requires
            self.dependencies@.len() < usize::MAX,
        ensures
            is_plan(star_graph(self.dependencies@.len()), seq![0usize], cached@, order@),
    {
        let count = self.dependencies.len();
        let ghost graph = star_graph(count as nat);
        let ghost requested = seq![0usize];
        let ghost mut visited = Seq::new((count + 1) as nat, |i: int| false);
        let mut order: Vec<BuildStep> = Vec::new();
        proof {
            lemma_search_begins(graph, requested, cached@, visited);
            assert(order@ =~= Seq::<BuildStep>::empty());
            assert(well_linked(graph)) by {
                assert forall|i: int, k: int|
                    0 <= i < graph.len() && 0 <= k < graph[i].len() implies (
                #[trigger] graph[i][k]) < graph.len() by {
                    assert(graph[i][k] == (k + 1) as usize);
                }
            }
        }
        let mut library: usize = 1;
        while library <= count
            invariant
                1 <= library <= count + 1,
                count < usize::MAX,
                graph == star_graph(count as nat),
                requested == seq![0usize],
                well_linked(graph),
                visited.len() == count + 1,
                forall|j: int| 1 <= j < library ==> visited[j],
                forall|j: int| library <= j <= count ==> !visited[j],
                !visited[0],
                search_holds(graph, requested, cached@, order@, visited),
            decreases count + 1 - library,
        {
            let ghost before = order@;
            proof {
                let chain = seq![0usize, library];
                assert(is_chain(graph, chain)) by {
                    assert(graph[0][library - 1] == library);
                    assert forall|k: int| 0 <= k < chain.len() - 1 implies graph[(
                    #[trigger] chain[k]) as int].contains(chain[k + 1]) by {
                        assert(graph[0][library - 1] == chain[1]);
                    }
                }
                assert(requested.contains(chain[0])) by {
                    assert(requested[0] == chain[0]);
                }
                lemma_search_extends(graph, requested, cached@, before, visited, library, chain);
                visited = visited.update(library as int, true);
            }
            order.push(BuildStep::EnsureSources { library });
            if !holds(cached, library) {
                order.push(BuildStep::Compile { library });
            }
            assert(order@ == extended(before, library, cached@));
            library = library + 1;
        }
        let ghost before = order@;
        proof {
            let chain = seq![0usize];
            assert(is_chain(graph, chain));
            assert(requested.contains(chain[0])) by {
                assert(requested[0] == chain[0]);
            }
            assert forall|k: int| 0 <= k < graph[0].len() implies visited[(#[trigger] graph[0][k])
                as int] by {
                assert(graph[0][k] == (k + 1) as usize);
            }
            lemma_search_extends(graph, requested, cached@, before, visited, 0usize, chain);
            visited = visited.update(0, true);
        }
        order.push(BuildStep::EnsureSources { library: 0 });
        if !holds(cached, 0) {
            order.push(BuildStep::Compile { library: 0 });
        }
        proof {
            assert(order@ == extended(before, 0usize, cached@));
            lemma_search_ends(graph, requested, cached@, order@, visited);
        }
        order
    }

    /// The path of a makefile that is patched.
    pub fn makefile(&self, options: &BundleOptions, makefile: Makefile) -> (path: String)
        ensures
            path@ == makefile_path(*options, makefile),
    {
        let sources = self.source_directory(options);
        match makefile {
            Makefile::Common => join(
                join(sources.as_str(), "build").as_str(),
                "Makefile.win32.common",
            ),
            Makefile::FeaturesHeader => join(
                join(sources.as_str(), "build").as_str(),
                "Makefile.win32.features-h",
            ),
            Makefile::Features => join(
                join(sources.as_str(), "build").as_str(),
                "Makefile.win32.features",
            ),
            Makefile::Sources => join(join(sources.as_str(), "src").as_str(), "Makefile.win32"),
        }
    }

    /// The whole of a build of cairo: the libraries that it depends on are
    /// built first, each before cairo; then, on Windows, the makefiles are
    /// patched in their order; then cairo itself is configured and compiled.
    /// Where a step of what comes first fails, nothing of what comes after is
    /// begun.
    pub fn build(
        &self,
        options: &BundleOptions,
        cached: &Vec<usize>,
        inherited_paths: Option<&str>,
        inherited_flags: Option<&str>,
    ) -> (whole: CairoBuild)
        requires
            self.dependencies@.len() < usize::MAX,
        ensures
            is_plan(star_graph(self.dependencies@.len()), seq![0usize], cached@, whole.order@),
            whole.patches@.len() == makefiles_to_patch(*options).len(),
            forall|i: int|
                0 <= i < whole.patches@.len() ==> (#[trigger] whole.patches@[i]).0
                    == makefiles_to_patch(*options)[i] && whole.patches@[i].1@ == makefile_path(
                    *options,
                    makefiles_to_patch(*options)[i],
                ),
            plan(whole.steps@) == own_steps(
                *options,
                *self,
                opt_str(inherited_paths),
                opt_str(inherited_flags),
            ),
    {
        let mut patches: Vec<(Makefile, String)> = Vec::new();
        if options.target().is_windows() {
            patches.push((Makefile::Common, self.makefile(options, Makefile::Common)));
            patches.push(
                (Makefile::FeaturesHeader, self.makefile(options, Makefile::FeaturesHeader)),
            );
            patches.push((Makefile::Features, self.makefile(options, Makefile::Features)));
            patches.push((Makefile::Sources, self.makefile(options, Makefile::Sources)));
        }
        CairoBuild {
            order: self.build_order(cached),
            patches,
            steps: self.force_compile(options, inherited_paths, inherited_flags),
        }
    }

    /// The contents of a makefile, patched.
    pub fn patch(
        &self,
        options: &BundleOptions,
        makefile: Makefile,
        contents: &str,
        include_directories: &Vec<String>,
        link_directories: &Vec<String>,
    ) -> (patched: String)
        ensures
            patched@ == match makefile {
                Makefile::Common => common_makefile(
                    contents@,
                    views(include_directories@).push(
                        joined(
                            joined(install_prefix(*options, self.freetype@), "include"@),
                            "freetype2"@,
                        ),
                    ),
                    views(link_directories@).push(
                        joined(install_prefix(*options, self.freetype@), "lib"@),
                    ),
                ),
                Makefile::FeaturesHeader => replaced(contents@, "@echo"@, "@coreutils echo"@),
                Makefile::Features => replaced(
                    contents@,
                    "CAIRO_HAS_FT_FONT=0"@,
                    "CAIRO_HAS_FT_FONT=1"@,
                ),
                Makefile::Sources => replaced(
                    contents@,
                    "@for x in $(enabled_cairo_headers); do echo \"\tsrc/$$x\"; done"@,
                    ""@,
                ),
            },
    {
        match makefile {
            Makefile::Common => self.patch_windows_common_makefile(
                options,
                contents,
                include_directories,
                link_directories,
            ),
            Makefile::FeaturesHeader => Self::patch_windows_features_header(contents),
            Makefile::Features => Self::patch_windows_features_makefile(contents),
            Makefile::Sources => Self::patch_windows_makefile(contents),
        }
    }

    /// The steps before the file `path` is patched. `patched_before` says
    /// whether the file that marks it as patched is there. A path that names
    /// no file is refused.
    pub fn patch_file_with(path: &str, patched_before: bool) -> (steps: Result<Vec<Step>, Error>)
        ensures
            match steps {
                Ok(steps) => file_name(path@) is Some && plan(steps@) == restore_steps(
                    path@,
                    patched_before,
                ),
                Err(error) => {
                    &&& file_name(path@) is None
                    &&& error matches Error::NoFileName { path: refused }
                    &&& refused@ == path@
                },
            },
    {
        let (fixed, backup) = match Self::companions(path) {
            Some(pair) => pair,
            None => {
                return Err(Error::NoFileName { path: owned(path) });
            },
        };
        let mut steps = no_steps();
        if patched_before {
            push_step(&mut steps, remove_file(fixed.as_str()));
            push_step(&mut steps, copy_file(backup.as_str(), path));
        } else {
            push_step(&mut steps, copy_file(path, backup.as_str()));
        }
        assert(plan(steps@) =~= restore_steps(path@, patched_before));
        Ok(steps)
    }

    /// The steps that put the patched `contents` of the file `path` in place.
    pub fn write_patched(path: &str, contents: &str) -> (steps: Result<Vec<Step>, Error>)
        ensures
            match steps {
                Ok(steps) => file_name(path@) is Some && plan(steps@) == write_steps(
                    path@,
                    contents@,
                ),
                Err(error) => file_name(path@) is None && error is NoFileName,
            },
    {
        let (fixed, _backup) = match Self::companions(path) {
            Some(pair) => pair,
            None => {
                return Err(Error::NoFileName { path: owned(path) });
            },
        };
        let mut steps = no_steps();
        push_step(&mut steps, write_file(path, contents));
        push_step(&mut steps, copy_file(path, fixed.as_str()));
        assert(plan(steps@) =~= write_steps(path@, contents@));
        Ok(steps)
    }

    fn companions(path: &str) -> (pair: Option<(String, String)>)
        ensures
            match pair {
                Some((fixed, backup)) => file_name(path@) is Some && fixed@ == fixed_file(path@)
                    && backup@ == backup_file(path@),
                None => file_name(path@) is None,
            },
    {
        match (file_name_of(path), parent_of(path)) {
            (Some(name), Some(directory)) => Some(
                (
                    join(directory.as_str(), concat(name.as_str(), ".fixed").as_str()),
                    join(directory.as_str(), concat(name.as_str(), ".bak").as_str()),
                ),
            ),
            _ => None,
        }
    }

    /// The common makefile, patched for the build on Windows.
    /// `include_directories` and `link_directories` are the directories of the
    /// headers and of the libraries of the compiler; the directories of
    /// freetype are put behind them.
    pub fn patch_windows_common_makefile(
        &self,
        options: &BundleOptions,
        contents: &str,
        include_directories: &Vec<String>,
        link_directories: &Vec<String>,
    ) -> (patched: String)
        ensures
            patched@ == common_makefile(
                contents@,
                views(include_directories@).push(
                    joined(
                        joined(install_prefix(*options, self.freetype@), "include"@),
                        "freetype2"@,
                    ),
                ),
                views(link_directories@).push(
                    joined(install_prefix(*options, self.freetype@), "lib"@),
                ),
            ),
    {
        let freetype = Self::dependency_prefix(options, self.freetype.as_str());
        let headers = join(join(freetype.as_str(), "include").as_str(), "freetype2");
        let includes = with_one_more(include_directories, headers);
        let links = with_one_more(link_directories, join(freetype.as_str(), "lib"));
        let contents = replace_all(contents, "-MD", "-MT");
        let contents = replace_all(
            contents.as_str(),
            "CAIRO_LIBS += $(ZLIB_PATH)/zdll.lib",
            "CAIRO_LIBS += $(ZLIB_PATH)/lib/zlibstatic.lib",
        );
        let contents = replace_all(
            contents.as_str(),
            "ZLIB_CFLAGS += -I$(ZLIB_PATH)",
            "ZLIB_CFLAGS += -I$(ZLIB_PATH)/include",
        );
        let contents = replace_all(
            contents.as_str(),
            "CAIRO_LIBS +=  $(LIBPNG_PATH)/libpng.lib",
            "CAIRO_LIBS +=  $(LIBPNG_PATH)/lib/libpng16_static.lib",
        );
        let contents = replace_all(
            contents.as_str(),
            "LIBPNG_CFLAGS += -I$(LIBPNG_PATH)/",
            "LIBPNG_CFLAGS += -I$(LIBPNG_PATH)/include",
        );
        let contents = replace_all(contents.as_str(), "@mkdir", "@coreutils mkdir");
        let contents = replace_all(
            contents.as_str(),
            "`dirname $<`",
            "\"$(shell coreutils dirname $<)\"",
        );
        let include_anchor = "DEFAULT_CFLAGS += -I. -I$(top_srcdir) -I$(top_srcdir)/src";
        let include_flags = wrap_each(&includes, "DEFAULT_CFLAGS += -I\"", "\"", "\n");
        let contents = replace_all(
            contents.as_str(),
            include_anchor,
            concat3(include_anchor, "\n", include_flags.as_str()).as_str(),
        );
        let link_anchor = "DEFAULT_LDFLAGS = -nologo $(CFG_LDFLAGS)";
        let link_flags = wrap_each(&links, "DEFAULT_LDFLAGS += -LIBPATH:\"", "\"", "\n");
        let contents = replace_all(
            contents.as_str(),
            link_anchor,
            concat3(link_anchor, "\n", link_flags.as_str()).as_str(),
        );
        replace_all(
            contents.as_str(),
            "CAIRO_LIBS =  gdi32.lib msimg32.lib user32.lib",
            "CAIRO_LIBS =  gdi32.lib msimg32.lib user32.lib freetype.lib",
        )
    }

    /// The makefile of the header of the features, patched: the shell command
    /// goes through `coreutils`.
    pub fn patch_windows_features_header(contents: &str) -> (patched: String)
        ensures
            patched@ == replaced(contents@, "@echo"@, "@coreutils echo"@),
    {
        replace_all(contents, "@echo", "@coreutils echo")
    }

    /// The makefile of the features, patched: fonts of freetype are switched
    /// on.
    pub fn patch_windows_features_makefile(contents: &str) -> (patched: String)
        ensures
            patched@ == replaced(contents@, "CAIRO_HAS_FT_FONT=0"@, "CAIRO_HAS_FT_FONT=1"@),
    {
        replace_all(contents, "CAIRO_HAS_FT_FONT=0", "CAIRO_HAS_FT_FONT=1")
    }

    /// The makefile of the sources, patched: the loop over the headers, which
    /// only reports them, is taken out.
    pub fn patch_windows_makefile(contents: &str) -> (patched: String)
        ensures
            patched@ == replaced(
                contents@,
                "@for x in $(enabled_cairo_headers); do echo \"\tsrc/$$x\"; done"@,
                ""@,
            ),
    {
        replace_all(
            contents,
            "@for x in $(enabled_cairo_headers); do echo \"\tsrc/$$x\"; done",
            "",
        )
    }
}

/// The first of `required` that is not among `present`.
pub open spec fn first_missing(required: Seq<Seq<char>>, present: Seq<Seq<char>>) -> Option<
    Seq<char>,
>
    decreases required.len(),
{
    if required.len() == 0 {
        None
    } else if !present.contains(required[0]) {
        Some(required[0])
    } else {
        first_missing(required.drop_first(), present)
    }
}

/// Checks, before anything is compiled, that everything that is required is
/// present: the first requirement that is not is reported.
pub fn check_requirements(required: &Vec<String>, present: &Vec<String>) -> (outcome: Result<
    (),
    Error,
>)
    ensures
        match outcome {
            Ok(_) => first_missing(views(required@), views(present@)) is None,
            Err(error) => {
                &&& error matches Error::RequirementNotSatisfied { requirement }
                &&& first_missing(views(required@), views(present@)) == Some(requirement@)
            },
        },
{
    let mut i: usize = 0;
    assert(views(required@).subrange(0, required.len() as int) =~= views(required@));
    while i < required.len()
        invariant
            i <= required.len(),
            first_missing(views(required@), views(present@)) == first_missing(
                views(required@).subrange(i as int, required.len() as int),
                views(present@),
            ),
        decreases required.len() - i,
    {
        let ghost rest = views(required@).subrange(i as int, required.len() as int);
        assert(rest[0] == required@[i as int]@);
        assert(rest.drop_first() =~= views(required@).subrange(i + 1, required.len() as int));
        if !contains_text(present, required[i].as_str()) {
            return Err(
                Error::RequirementNotSatisfied { requirement: owned(required[i].as_str()) },
            );
        }
        i = i + 1;
    }
    Ok(())
}

} // verus!

use app_bundler::libraries::cairo_library::{
    check_requirements, wrap_each, CairoLibrary, Makefile,
};
use app_bundler::libraries::test_library;
use app_bundler::libraries::{BuildStep, Library, LibraryLocation, LibraryRegistry, TarArchive};
use app_bundler::options::build_options::BuilderOptions;
use app_bundler::options::resolved_options::Environment;
use app_bundler::tools::CommandLine;
use app_bundler::{
    AppInfo, BuilderInfo, BundleOptions, Error, ResolvedOptions, Step, Target, Version,
    VersionedThirdPartyLibraries,
};

fn library(name: &str, dependencies: &[usize]) -> Library {
    Library {
        name: name.to_string(),
        location: LibraryLocation::Path { path: name.to_string() },
        dependencies: dependencies.to_vec(),
    }
}

fn sources(library: usize) -> BuildStep {
    BuildStep::EnsureSources { library }
}

fn compile(library: usize) -> BuildStep {
    BuildStep::Compile { library }
}

/// cairo (0) needs pixman (1), freetype (2) and png (3); freetype and png need zlib (4).
fn cairo_registry() -> LibraryRegistry {
    LibraryRegistry::new(vec![
        library("cairo", &[1, 2, 3]),
        library("pixman", &[]),
        library("freetype", &[4, 3]),
        library("png", &[4]),
        library("zlib", &[]),
    ])
    .unwrap()
}

fn position(plan: &[BuildStep], step: BuildStep) -> usize {
    plan.iter().position(|s| *s == step).unwrap()
}

#[test]
fn dependencies_are_built_first_and_depth_first() {
    let plan = cairo_registry().compile(0, &Vec::new()).unwrap();
    assert_eq!(
        plan,
        vec![
            sources(1),
            compile(1),
            sources(4),
            compile(4),
            sources(3),
            compile(3),
            sources(2),
            compile(2),
            sources(0),
            compile(0),
        ]
    );
}

#[test]
fn no_library_is_compiled_before_what_it_depends_on() {
    let registry = cairo_registry();
    let plan = registry.compile_all(&vec![2, 0, 3], &vec![3]).unwrap();
    for (index, dependencies) in [(0, vec![1, 2, 3, 4]), (2, vec![4, 3]), (3, vec![4])].iter() {
        for dependency in dependencies.iter() {
            assert!(position(&plan, sources(*dependency)) < position(&plan, sources(*index)));
        }
    }
    for index in 0..5 {
        assert_eq!(plan.iter().filter(|s| **s == sources(index)).count(), 1);
    }
}

#[test]
fn what_the_cache_holds_is_not_compiled_again() {
    let registry = cairo_registry();
    let plan = registry.compile_all(&vec![0], &vec![4, 1]).unwrap();
    assert_eq!(
        plan,
        vec![
            sources(1),
            sources(4),
            sources(3),
            compile(3),
            sources(2),
            compile(2),
            sources(0),
            compile(0),
        ]
    );
}

#[test]
fn building_twice_compiles_once() {
    let registry = cairo_registry();
    let first = registry.compile(0, &Vec::new()).unwrap();
    let mut cached = Vec::new();
    for step in first.iter() {
        if let BuildStep::Compile { library } = step {
            assert!(!cached.contains(library));
            cached.push(*library);
        }
    }
    assert_eq!(cached.len(), 5);
    let second = registry.compile(0, &cached).unwrap();
    assert_eq!(second, vec![sources(1), sources(4), sources(3), sources(2), sources(0)]);
}

#[test]
fn only_what_is_needed_is_built() {
    let registry = cairo_registry();
    assert_eq!(registry.compile(3, &Vec::new()).unwrap(), vec![
        sources(4),
        compile(4),
        sources(3),
        compile(3)
    ]);
    assert_eq!(registry.compile_all(&Vec::new(), &Vec::new()).unwrap(), Vec::new());
    assert_eq!(
        registry.compile_all(&vec![1, 1, 4], &Vec::new()).unwrap(),
        vec![sources(1), compile(1), sources(4), compile(4)]
    );
}

#[test]
fn dependencies_that_never_end_cannot_be_compiled() {
    let circle =
        LibraryRegistry::new(vec![library("a", &[1]), library("b", &[2]), library("c", &[0])])
            .unwrap();
    assert!(matches!(circle.compile(0, &Vec::new()), Err(Error::CouldNotCompile { .. })));
    assert!(matches!(circle.compile(2, &vec![0, 1, 2]), Err(Error::CouldNotCompile { .. })));
    let own = LibraryRegistry::new(vec![library("free", &[]), library("self", &[1])]).unwrap();
    assert!(matches!(own.compile(1, &Vec::new()), Err(Error::CouldNotCompile { .. })));
    assert_eq!(own.compile(0, &Vec::new()).unwrap(), vec![sources(0), compile(0)]);
    let error = own.compile(1, &Vec::new()).unwrap_err();
    assert_eq!(error.message(), "Could not compile self");
}

#[test]
fn a_long_chain_without_circle_is_compiled() {
    let n = 40;
    let mut libraries = Vec::new();
    for i in 0..n {
        let dependencies: Vec<usize> = if i + 1 < n { vec![i + 1] } else { Vec::new() };
        libraries.push(library(&format!("l{}", i), &dependencies));
    }
    let registry = LibraryRegistry::new(libraries).unwrap();
    let plan = registry.compile(0, &Vec::new()).unwrap();
    assert_eq!(plan.len(), 2 * n);
    assert_eq!(plan[0], sources(n - 1));
    assert_eq!(plan[2 * n - 1], compile(0));
}

#[test]
fn a_request_for_no_library_cannot_be_compiled() {
    let registry = cairo_registry();
    assert!(matches!(registry.compile(5, &Vec::new()), Err(Error::CouldNotCompile { .. })));
    assert!(matches!(
        registry.compile_all(&vec![0, 17], &Vec::new()),
        Err(Error::CouldNotCompile { .. })
    ));
}

#[test]
fn a_registry_holds_every_dependency() {
    let broken = LibraryRegistry::new(vec![library("a", &[]), library("b", &[0, 2])]);
    assert!(matches!(broken, Err(Error::CouldNotCompile { library }) if library == "b"));
    let registry = cairo_registry();
    assert_eq!(registry.len(), 5);
    assert_eq!(registry.index_of("png"), Some(3));
    assert_eq!(registry.index_of("jpeg"), None);
    assert_eq!(*registry.get(2).unwrap(), library("freetype", &[4, 3]));
    assert_eq!(
        registry.get(1).unwrap().location,
        LibraryLocation::Path { path: "pixman".to_string() }
    );
    assert!(registry.get(5).is_none());
}

#[test]
fn the_test_library_is_a_directory_of_sources() {
    let library = test_library();
    assert_eq!(library.name, "TestLibrary");
    assert_eq!(
        library.location,
        LibraryLocation::Path { path: "vm-client-test-library".to_string() }
    );
    assert!(library.dependencies.is_empty());
}

fn bundle(target: Target) -> BundleOptions {
    let options = BuilderOptions {
        target: Some(target),
        target_dir: Some("target".to_string()),
        ..BuilderOptions::default()
    };
    let environment = Environment {
        host: Target::X8664UnknownlinuxGNU,
        workspace_directory: Some("/work".to_string()),
        current_directory: "/work".to_string(),
        version: None,
        first_version: Version::new(1, 0, 0),
        libraries_versions: VersionedThirdPartyLibraries::new(),
        builder_info: BuilderInfo::new(
            "t".to_string(),
            "b".to_string(),
            "c".to_string(),
            "s".to_string(),
            "o".to_string(),
        ),
        app_info: AppInfo::new("now".to_string(), None, None),
    };
    BundleOptions::new(ResolvedOptions::new(options, environment).unwrap())
}

fn run_in(directory: &str, words: &[&str], failure: &str) -> Step {
    Step::RunIn {
        directory: directory.to_string(),
        command: CommandLine {
            program: words[0].to_string(),
            args: words[1..].iter().map(|w| w.to_string()).collect(),
        },
        failure: failure.to_string(),
    }
}

fn variable(name: &str, value: &str) -> Step {
    Step::SetVariable { name: name.to_string(), value: value.to_string() }
}

#[test]
fn cairo_comes_from_an_archive_and_needs_three_libraries() {
    let cairo = CairoLibrary::new();
    assert_eq!(cairo.name(), "cairo");
    assert!(cairo.has_dependencies());
    assert_eq!(cairo.dependencies, vec!["pixman", "freetype", "png"]);
    assert_eq!(
        cairo.location,
        LibraryLocation::Tar {
            url: "https://cairographics.org/snapshots/cairo-1.17.4.tar.xz".to_string(),
            archive: TarArchive::Xz,
            sources: "cairo-1.17.4".to_string(),
        }
    );
}

#[test]
fn cairo_is_configured_with_what_its_dependencies_contribute() {
    let cairo = CairoLibrary::new();
    let options = bundle(Target::X8664UnknownlinuxGNU);
    assert_eq!(cairo.native_library_prefix(&options), "target/cairo");
    assert_eq!(cairo.source_directory(&options), "/work/libs/cairo-1.17.4");
    assert_eq!(cairo.compiled_library_directories(&options), vec!["target/cairo/lib"]);
    let own_paths =
        "target/pixman/lib/pkgconfig:target/freetype/lib/pkgconfig:target/png/lib/pkgconfig:../pixman";
    let own_flags = "-Itarget/pixman/include -Itarget/freetype/include -Itarget/png/include";
    assert_eq!(
        cairo.compile_unix(&options, Some("/usr/lib/pkgconfig:/opt"), Some("-DX")),
        vec![
            Step::CreateDirectories { path: "target/cairo".to_string() },
            variable("PKG_CONFIG_PATH", &format!("{}:/usr/lib/pkgconfig:/opt", own_paths)),
            variable("CPPFLAGS", &format!("-DX {}", own_flags)),
            variable("LIBS", "-lbz2"),
            run_in(
                "target/cairo",
                &[
                    "/work/libs/cairo-1.17.4/configure",
                    "--prefix=target/cairo",
                    "--exec-prefix=target/cairo",
                    "--libdir=target/cairo/lib",
                ],
                "Could not configure cairo"
            ),
            run_in("target/cairo", &["make", "install"], "Could not compile cairo"),
        ]
    );
    let plain = cairo.force_compile(&options, None, None);
    assert_eq!(plain[1], variable("PKG_CONFIG_PATH", own_paths));
    assert_eq!(plain[2], variable("CPPFLAGS", &format!(" {}", own_flags)));
}

#[test]
fn cairo_is_built_among_its_sources_on_windows() {
    let cairo = CairoLibrary::new();
    let options = bundle(Target::X8664pcWindowsMsvc);
    assert_eq!(cairo.native_library_prefix(&options), "/work/libs/cairo-1.17.4");
    assert_eq!(
        cairo.compiled_library_directories(&options),
        vec!["/work/libs/cairo-1.17.4/src/debug"]
    );
    let steps = vec![run_in(
        "/work/libs/cairo-1.17.4",
        &[
            "make",
            "cairo",
            "-f",
            "/work/libs/cairo-1.17.4/Makefile.win32",
            "CFG=release",
            "PIXMAN_PATH=target/pixman",
            "ZLIB_PATH=target/zlib",
            "LIBPNG_PATH=target/png",
        ],
        "Could not configure cairo",
    )];
    assert_eq!(cairo.compile_windows(&options), steps);
    assert_eq!(cairo.force_compile(&options, None, None), steps);
}

#[test]
fn requirements_depend_on_the_platform() {
    let cairo = CairoLibrary::new();
    let libs = vec!["C:/msvc/lib".to_string()];
    let headers = vec!["C:/msvc/include".to_string(), "C:/sdk/include".to_string()];
    let unix = cairo.ensure_requirements(&bundle(Target::AArch64appleDarwin), &libs, &headers);
    assert_eq!(unix.tools, vec!["make"]);
    assert!(unix.directories.is_empty());
    let windows = cairo.ensure_requirements(&bundle(Target::X8664pcWindowsMsvc), &libs, &headers);
    assert_eq!(windows.tools, vec!["make", "coreutils"]);
    assert_eq!(windows.directories, vec!["C:/msvc/lib", "C:/msvc/include", "C:/sdk/include"]);
}

#[test]
fn the_first_missing_requirement_is_reported() {
    let required = vec!["make".to_string(), "coreutils".to_string(), "editbin".to_string()];
    let all = vec!["editbin".to_string(), "make".to_string(), "coreutils".to_string()];
    assert_eq!(check_requirements(&required, &all), Ok(()));
    assert_eq!(check_requirements(&Vec::new(), &Vec::new()), Ok(()));
    let error = check_requirements(&required, &vec!["make".to_string()]).unwrap_err();
    assert_eq!(error, Error::RequirementNotSatisfied { requirement: "coreutils".to_string() });
    assert_eq!(error.message(), "Requirement not satisfied: coreutils");
}

#[test]
fn a_file_is_kept_before_it_is_patched_and_put_back_before_it_is_patched_again() {
    assert_eq!(
        CairoLibrary::patch_file_with("build/Makefile.win32.common", false),
        Ok(vec![Step::CopyFile {
            from: "build/Makefile.win32.common".to_string(),
            to: "build/Makefile.win32.common.bak".to_string(),
        }])
    );
    assert_eq!(
        CairoLibrary::patch_file_with("build/Makefile.win32.common", true),
        Ok(vec![
            Step::RemoveFile { path: "build/Makefile.win32.common.fixed".to_string() },
            Step::CopyFile {
                from: "build/Makefile.win32.common.bak".to_string(),
                to: "build/Makefile.win32.common".to_string(),
            },
        ])
    );
    assert_eq!(
        CairoLibrary::write_patched("Makefile", "all:\n"),
        Ok(vec![
            Step::WriteFile { path: "Makefile".to_string(), contents: "all:\n".to_string() },
            Step::CopyFile { from: "Makefile".to_string(), to: "Makefile.fixed".to_string() },
        ])
    );
    assert_eq!(
        CairoLibrary::patch_file_with("build/..", false),
        Err(Error::NoFileName { path: "build/..".to_string() })
    );
    assert!(matches!(CairoLibrary::write_patched("/", ""), Err(Error::NoFileName { .. })));
}

#[test]
fn the_makefiles_are_patched_for_windows() {
    assert_eq!(
        CairoLibrary::patch_windows_features_header("\t@echo a\n\t@echo b\n"),
        "\t@coreutils echo a\n\t@coreutils echo b\n"
    );
    assert_eq!(
        CairoLibrary::patch_windows_features_makefile("CAIRO_HAS_FT_FONT=0\nCAIRO_HAS_PNG=1\n"),
        "CAIRO_HAS_FT_FONT=1\nCAIRO_HAS_PNG=1\n"
    );
    assert_eq!(
        CairoLibrary::patch_windows_makefile(
            "a\n\t@for x in $(enabled_cairo_headers); do echo \"\tsrc/$$x\"; done\nb\n"
        ),
        "a\n\t\nb\n"
    );
}

#[test]
fn the_common_makefile_gets_the_directories_of_the_compiler_and_of_freetype() {
    let cairo = CairoLibrary::new();
    let options = bundle(Target::X8664pcWindowsMsvc);
    let contents = "CFLAGS = -MD -MDd\n\
        CAIRO_LIBS =  gdi32.lib msimg32.lib user32.lib\n\
        CAIRO_LIBS += $(ZLIB_PATH)/zdll.lib\n\
        ZLIB_CFLAGS += -I$(ZLIB_PATH)\n\
        CAIRO_LIBS +=  $(LIBPNG_PATH)/libpng.lib\n\
        LIBPNG_CFLAGS += -I$(LIBPNG_PATH)/\n\
        DEFAULT_LDFLAGS = -nologo $(CFG_LDFLAGS)\n\
        DEFAULT_CFLAGS += -I. -I$(top_srcdir) -I$(top_srcdir)/src\n\
        \t@mkdir -p `dirname $<`\n";
    let expected = "CFLAGS = -MT -MTd\n\
        CAIRO_LIBS =  gdi32.lib msimg32.lib user32.lib freetype.lib\n\
        CAIRO_LIBS += $(ZLIB_PATH)/lib/zlibstatic.lib\n\
        ZLIB_CFLAGS += -I$(ZLIB_PATH)/include\n\
        CAIRO_LIBS +=  $(LIBPNG_PATH)/lib/libpng16_static.lib\n\
        LIBPNG_CFLAGS += -I$(LIBPNG_PATH)/include\n\
        DEFAULT_LDFLAGS = -nologo $(CFG_LDFLAGS)\n\
        DEFAULT_LDFLAGS += -LIBPATH:\"C:/msvc/lib\"\n\
        DEFAULT_LDFLAGS += -LIBPATH:\"target/freetype/lib\"\n\
        DEFAULT_CFLAGS += -I. -I$(top_srcdir) -I$(top_srcdir)/src\n\
        DEFAULT_CFLAGS += -I\"C:/msvc/include\"\n\
        DEFAULT_CFLAGS += -I\"target/freetype/include/freetype2\"\n\
        \t@coreutils mkdir -p \"$(shell coreutils dirname $<)\"\n";
    assert_eq!(
        cairo.patch_windows_common_makefile(
            &options,
            contents,
            &vec!["C:/msvc/include".to_string()],
            &vec!["C:/msvc/lib".to_string()],
        ),
        expected
    );
}

#[test]
fn texts_are_wrapped_and_joined() {
    let items = vec!["a".to_string(), "b".to_string(), "c".to_string()];
    assert_eq!(wrap_each(&items, "<", ">", ", "), "<a>, <b>, <c>");
    assert_eq!(wrap_each(&items[..1].to_vec(), "-I", "", " "), "-Ia");
    assert_eq!(wrap_each(&Vec::new(), "<", ">", ", "), "");
}

#[test]
fn cairo_is_built_after_what_it_depends_on() {
    let cairo = CairoLibrary::new();
    assert_eq!(
        cairo.build_order(&Vec::new()),
        vec![
            sources(1),
            compile(1),
            sources(2),
            compile(2),
            sources(3),
            compile(3),
            sources(0),
            compile(0),
        ]
    );
    assert_eq!(
        cairo.build_order(&vec![2, 0]),
        vec![sources(1), compile(1), sources(2), sources(3), compile(3), sources(0)]
    );
}

#[test]
fn the_whole_build_of_cairo_has_its_order() {
    let cairo = CairoLibrary::new();
    let windows = bundle(Target::X8664pcWindowsMsvc);
    let whole = cairo.build(&windows, &vec![1, 2, 3], None, None);
    assert_eq!(whole.order, vec![sources(1), sources(2), sources(3), sources(0), compile(0)]);
    assert_eq!(
        whole.patches,
        vec![
            (Makefile::Common, "/work/libs/cairo-1.17.4/build/Makefile.win32.common".to_string()),
            (
                Makefile::FeaturesHeader,
                "/work/libs/cairo-1.17.4/build/Makefile.win32.features-h".to_string()
            ),
            (
                Makefile::Features,
                "/work/libs/cairo-1.17.4/build/Makefile.win32.features".to_string()
            ),
            (Makefile::Sources, "/work/libs/cairo-1.17.4/src/Makefile.win32".to_string()),
        ]
    );
    assert_eq!(whole.steps, cairo.compile_windows(&windows));

    let linux = bundle(Target::X8664UnknownlinuxGNU);
    let whole = cairo.build(&linux, &Vec::new(), Some("/opt"), None);
    assert!(whole.patches.is_empty());
    assert_eq!(whole.steps, cairo.compile_unix(&linux, Some("/opt"), None));
    assert_eq!(whole.order.last(), Some(&compile(0)));
}

#[test]
fn a_makefile_is_patched_by_its_kind() {
    let cairo = CairoLibrary::new();
    let options = bundle(Target::X8664pcWindowsMsvc);
    let none = Vec::new();
    assert_eq!(
        cairo.patch(&options, Makefile::FeaturesHeader, "@echo x", &none, &none),
        "@coreutils echo x"
    );
    assert_eq!(
        cairo.patch(&options, Makefile::Features, "CAIRO_HAS_FT_FONT=0", &none, &none),
        "CAIRO_HAS_FT_FONT=1"
    );
    assert_eq!(
        cairo.patch(&options, Makefile::Common, "cl -MD", &none, &none),
        cairo.patch_windows_common_makefile(&options, "cl -MD", &none, &none)
    );
    assert_eq!(cairo.patch(&options, Makefile::Common, "cl -MD", &none, &none), "cl -MT");
    assert_eq!(cairo.patch(&options, Makefile::Sources, "all:", &none, &none), "all:");
}

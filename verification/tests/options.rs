use app_bundler::options::build_options::BuilderOptions;
use app_bundler::options::resolved_options::Environment;
use app_bundler::{
    parse_key_val, AppInfo, BuilderInfo, BundleOptions, Error, Executable, ExecutableOptions,
    LibraryRequest, Platform, ResolvedOptions, Target, ThirdPartyLibrary, Version,
    VersionedThirdPartyLibraries,
};

fn surroundings(host: Target) -> Environment {
    Environment {
        host,
        workspace_directory: Some("/work".to_string()),
        current_directory: "/work/here".to_string(),
        version: None,
        first_version: Version::new(1, 2, 3),
        libraries_versions: VersionedThirdPartyLibraries::new(),
        builder_info: BuilderInfo::new(
            "2024-01-01".to_string(),
            "main".to_string(),
            "2023-12-31".to_string(),
            "abc".to_string(),
            "linux".to_string(),
        ),
        app_info: AppInfo::new("now".to_string(), Some("main".to_string()), None),
    }
}

fn resolved_for(target: Target) -> BundleOptions {
    let options = BuilderOptions {
        app_name: Some("Sample".to_string()),
        identifier: Some("com.example.sample".to_string()),
        target: Some(target),
        target_dir: Some("target".to_string()),
        ..BuilderOptions::default()
    };
    BundleOptions::new(
        ResolvedOptions::new(options, surroundings(Target::X8664UnknownlinuxGNU)).unwrap(),
    )
}

#[test]
fn every_target_has_one_platform() {
    assert_eq!(Target::X8664appleDarwin.platform(), Platform::Mac);
    assert_eq!(Target::AArch64appleDarwin.platform(), Platform::Mac);
    assert_eq!(Target::X8664pcWindowsMsvc.platform(), Platform::Windows);
    assert_eq!(Target::AArch64pcWindowsMsvc.platform(), Platform::Windows);
    assert_eq!(Target::X8664UnknownlinuxGNU.platform(), Platform::Linux);
    assert_eq!(Target::AArch64UnknownlinuxGNU.platform(), Platform::Linux);
    assert_eq!(Target::AArch64LinuxAndroid.platform(), Platform::Android);
}

#[test]
fn windows_is_the_one_platform_that_is_not_unix() {
    for target in Target::value_variants() {
        assert_eq!(target.is_unix(), !target.is_windows());
        assert_eq!(target.is_windows(), target.platform() == Platform::Windows);
        assert_eq!(target.platform().is_unix(), target.is_unix());
    }
    assert!(Platform::Android.is_android());
    assert!(Platform::Android.is_unix());
    assert!(!Platform::Linux.is_android());
    assert!(Platform::Windows.is_windows());
    assert!(!Platform::Windows.is_unix());
}

#[test]
fn a_target_is_current_when_it_is_the_host() {
    assert!(Target::X8664UnknownlinuxGNU.is_current(Target::X8664UnknownlinuxGNU));
    assert!(!Target::X8664UnknownlinuxGNU.is_current(Target::AArch64UnknownlinuxGNU));
}

#[test]
fn possible_variants_are_the_triples_in_order() {
    assert_eq!(
        Target::possible_variants(),
        vec![
            "x86_64-apple-darwin",
            "aarch64-apple-darwin",
            "x86_64-pc-windows-msvc",
            "aarch64-pc-windows-msvc",
            "x86_64-unknown-linux-gnu",
            "aarch64-unknown-linux-gnu",
            "aarch64-linux-android",
        ]
    );
}

#[test]
fn the_triple_of_a_target_is_read_back() {
    for target in Target::value_variants() {
        assert_eq!(Target::from_str(&target.to_string()), Ok(target));
        assert_eq!(Target::from_str(&target.to_string().to_uppercase()), Ok(target));
    }
}

#[test]
fn an_unknown_triple_is_refused_with_its_text() {
    assert_eq!(
        Target::from_str("riscv64-unknown-none"),
        Err("Invalid variant: riscv64-unknown-none".to_string())
    );
    assert_eq!(Target::from_str(""), Err("Invalid variant: ".to_string()));
    assert_eq!(
        Target::from_str("x86_64-apple-darwin "),
        Err("Invalid variant: x86_64-apple-darwin ".to_string())
    );
}

#[test]
fn the_name_of_a_library_is_read_back() {
    let all = ThirdPartyLibrary::value_variants();
    assert_eq!(all.len(), 18);
    for (index, library) in all.iter().enumerate() {
        assert_eq!(library.index(), index as u64);
        assert_eq!(ThirdPartyLibrary::from_str(&library.to_string()), Ok(*library));
        assert_eq!(ThirdPartyLibrary::from_str(&library.to_string().to_uppercase()), Ok(*library));
    }
    assert_eq!(ThirdPartyLibrary::TestLibrary.to_string(), "test-library");
    assert_eq!(ThirdPartyLibrary::WebView.to_string(), "webview");
    assert_eq!(ThirdPartyLibrary::Winit30.to_string(), "winit30");
}

#[test]
fn an_unknown_library_is_refused() {
    let error = ThirdPartyLibrary::from_str("zlib").unwrap_err();
    assert_eq!(error, Error::InvalidVariant { input: "zlib".to_string() });
    assert_eq!(error.message(), "Invalid variant: zlib");
}

#[test]
fn a_key_and_a_value_are_split_at_the_first_equals_sign() {
    assert_eq!(parse_key_val("skia=1.2.3"), Ok((ThirdPartyLibrary::Skia, "1.2.3".to_string())));
    assert_eq!(parse_key_val("GIT=a=b"), Ok((ThirdPartyLibrary::Git, "a=b".to_string())));
    assert_eq!(parse_key_val("ssl="), Ok((ThirdPartyLibrary::Ssl, "".to_string())));
}

#[test]
fn a_pair_without_equals_sign_is_refused() {
    let error = parse_key_val("skia").unwrap_err();
    assert_eq!(error, Error::InvalidKeyValue { input: "skia".to_string() });
    assert_eq!(error.message(), "invalid KEY=value: no `=` found in `skia`");
}

#[test]
fn a_pair_with_an_unknown_key_is_refused() {
    assert_eq!(
        parse_key_val("zlib=1.0"),
        Err(Error::InvalidVariant { input: "zlib".to_string() })
    );
    assert_eq!(parse_key_val("=1.0"), Err(Error::InvalidVariant { input: "".to_string() }));
}

#[test]
fn versions_are_kept_by_library() {
    let mut versions = VersionedThirdPartyLibraries::new();
    assert_eq!(versions.get_version_of(ThirdPartyLibrary::Skia), None);
    assert!(!versions.has_version_of(ThirdPartyLibrary::Skia));
    versions.set_version_of(ThirdPartyLibrary::Skia, "v1");
    versions.set_version_of(ThirdPartyLibrary::Git, "v2");
    assert_eq!(versions.get_version_of(ThirdPartyLibrary::Skia), Some("v1"));
    assert_eq!(versions.version_of(ThirdPartyLibrary::Git), "v2");
    versions.set_version_of(ThirdPartyLibrary::Skia, "v3");
    assert_eq!(versions.version_of(ThirdPartyLibrary::Skia), "v3");
    assert_eq!(versions.get_version_of(ThirdPartyLibrary::Cairo), None);
}

#[test]
fn overrides_replace_the_versions_of_the_file_in_order() {
    let mut from_file = VersionedThirdPartyLibraries::new();
    from_file.set_version_of(ThirdPartyLibrary::Skia, "file");
    from_file.set_version_of(ThirdPartyLibrary::Git, "file");
    let options = BuilderOptions {
        override_library_version: Some(vec![
            (ThirdPartyLibrary::Skia, "first".to_string()),
            (ThirdPartyLibrary::Cairo, "only".to_string()),
            (ThirdPartyLibrary::Skia, "second".to_string()),
        ]),
        ..BuilderOptions::default()
    };
    let versions = options.libraries_versions(from_file.clone());
    assert_eq!(versions.get_version_of(ThirdPartyLibrary::Skia), Some("second"));
    assert_eq!(versions.get_version_of(ThirdPartyLibrary::Cairo), Some("only"));
    assert_eq!(versions.get_version_of(ThirdPartyLibrary::Git), Some("file"));
    let untouched = BuilderOptions::default().libraries_versions(from_file);
    assert_eq!(untouched.get_version_of(ThirdPartyLibrary::Skia), Some("file"));
}

#[test]
fn a_library_is_asked_with_its_version() {
    let mut versions = VersionedThirdPartyLibraries::new();
    versions.set_version_of(ThirdPartyLibrary::Skia, "v1");
    versions.set_version_of(ThirdPartyLibrary::TestLibrary, "v9");
    let target = Target::X8664appleDarwin;
    assert_eq!(
        ThirdPartyLibrary::Skia.as_library(target, &versions),
        LibraryRequest {
            library: ThirdPartyLibrary::Skia,
            version: Some("v1".to_string()),
            target: Some(target),
        }
    );
    assert_eq!(
        ThirdPartyLibrary::Git.as_library(target, &versions),
        LibraryRequest { library: ThirdPartyLibrary::Git, version: None, target: None }
    );
    assert_eq!(
        ThirdPartyLibrary::TestLibrary.as_library(target, &versions),
        LibraryRequest { library: ThirdPartyLibrary::TestLibrary, version: None, target: None }
    );
}

#[test]
fn builder_options_default_to_nothing() {
    let options = BuilderOptions::default();
    assert_eq!(options.verbose(), 0);
    assert!(!options.release());
    assert!(!options.include_debug_symbols());
    assert_eq!(options.target(Target::AArch64appleDarwin), Target::AArch64appleDarwin);
    assert_eq!(options.target_dir(), None);
    assert_eq!(options.bundle_dir(), None);
    assert_eq!(options.vmmaker_vm(), None);
    assert_eq!(options.vmmaker_image(), None);
    assert_eq!(options.app_name(), None);
    assert_eq!(options.identifier(), None);
    assert_eq!(options.executable_name(), None);
    assert_eq!(options.version(), None);
    assert_eq!(options.icons(), None);
    assert_eq!(options.libraries(), None);
    assert_eq!(options.executables(), None);
    assert!(options.features().is_empty());
}

#[test]
fn release_is_only_what_was_asked_for() {
    let release = BuilderOptions { release: true, ..BuilderOptions::default() };
    let debug = BuilderOptions { debug: true, ..BuilderOptions::default() };
    assert!(release.release());
    assert!(!debug.release());
    let features =
        BuilderOptions { features: Some(vec!["a".to_string()]), ..BuilderOptions::default() };
    assert_eq!(features.features(), vec!["a".to_string()]);
}

#[test]
fn the_workspace_is_the_directory_of_the_located_file() {
    let options = BuilderOptions::default();
    assert_eq!(options.workspace_directory("/work/Cargo.toml\n"), Some("/work".to_string()));
    assert_eq!(options.workspace_directory(""), None);
    assert_eq!(
        BuilderOptions::locate_project_command().args,
        vec!["locate-project", "--workspace", "--message-format", "plain"]
    );
    assert_eq!(BuilderOptions::locate_project_command().program, "cargo");
}

#[test]
fn resolving_fills_in_the_defaults() {
    let resolved =
        ResolvedOptions::new(BuilderOptions::default(), surroundings(Target::AArch64appleDarwin))
            .unwrap();
    assert_eq!(*resolved.target(), Target::AArch64appleDarwin);
    assert_eq!(resolved.platform(), Platform::Mac);
    assert_eq!(resolved.target_dir(), "/work/target");
    assert_eq!(resolved.app_name(), "VM");
    assert_eq!(resolved.identifier(), "VM");
    assert_eq!(resolved.executable_name(), "VM");
    assert_eq!(*resolved.version(), Version::new(1, 2, 3));
    assert!(resolved.icons().is_empty());
    assert!(resolved.libraries().is_empty());
    assert_eq!(*resolved.executables(), vec![Executable::Cli, Executable::App]);
    assert_eq!(resolved.workspace_directory(), Some("/work".to_string()));
    assert_eq!(resolved.bundle_dir(), None);
    assert!(!resolved.release());
    assert_eq!(resolved.verbose(), 0);
}

#[test]
fn resolving_without_workspace_builds_in_target() {
    let mut environment = surroundings(Target::AArch64appleDarwin);
    environment.workspace_directory = None;
    let resolved = ResolvedOptions::new(BuilderOptions::default(), environment).unwrap();
    assert_eq!(resolved.target_dir(), "target");
}

#[test]
fn resolving_keeps_what_was_asked_for() {
    let mut environment = surroundings(Target::AArch64appleDarwin);
    environment.libraries_versions.set_version_of(ThirdPartyLibrary::Git, "file");
    environment.libraries_versions.set_version_of(ThirdPartyLibrary::Skia, "file");
    let options = BuilderOptions {
        app_name: Some("Sample".to_string()),
        executable_name: Some("sample".to_string()),
        target: Some(Target::X8664pcWindowsMsvc),
        target_dir: Some("out".to_string()),
        icons: Some(vec!["a.ico".to_string(), "b.icns".to_string()]),
        libraries: Some(vec![ThirdPartyLibrary::Skia, ThirdPartyLibrary::Git]),
        override_library_version: Some(vec![(ThirdPartyLibrary::Skia, "mine".to_string())]),
        executables: Some(vec![Executable::App]),
        ..BuilderOptions::default()
    };
    let resolved = ResolvedOptions::new(options, environment).unwrap();
    assert_eq!(*resolved.target(), Target::X8664pcWindowsMsvc);
    assert_eq!(resolved.target_dir(), "out");
    assert_eq!(resolved.app_name(), "Sample");
    assert_eq!(resolved.identifier(), "Sample");
    assert_eq!(resolved.executable_name(), "sample");
    assert_eq!(*resolved.icons(), vec!["a.ico".to_string(), "b.icns".to_string()]);
    assert_eq!(*resolved.executables(), vec![Executable::App]);
    assert_eq!(
        *resolved.libraries(),
        vec![
            LibraryRequest {
                library: ThirdPartyLibrary::Skia,
                version: Some("mine".to_string()),
                target: Some(Target::X8664pcWindowsMsvc),
            },
            LibraryRequest {
                library: ThirdPartyLibrary::Git,
                version: Some("file".to_string()),
                target: None,
            },
        ]
    );
}

#[test]
fn executables_are_named_by_kind_and_platform() {
    assert_eq!(Executable::App.cargo_package_name(), "vm-client-desktop");
    assert_eq!(Executable::Cli.cargo_package_name(), "vm-client-desktop-cli");
    assert_eq!(Executable::Android.cargo_package_name(), "vm-client-android");
    assert_eq!(Executable::App.cargo_bin_name(), "vm_client");
    assert_eq!(Executable::Cli.cargo_bin_name(), "vm_client-cli");
    assert_eq!(Executable::Android.cargo_bin_name(), "libvm_client_android");

    let windows = resolved_for(Target::X8664pcWindowsMsvc);
    assert_eq!(windows.compiled_executable_name(&Executable::App), "vm_client.exe");
    assert_eq!(windows.compiled_executable_name(&Executable::Cli), "vm_client-cli.exe");
    assert_eq!(windows.bundled_executable_name(&Executable::App), "Sample.exe");
    assert_eq!(windows.bundled_executable_name(&Executable::Cli), "Sample-cli.exe");

    let mac = resolved_for(Target::AArch64appleDarwin);
    assert_eq!(mac.compiled_executable_name(&Executable::Cli), "vm_client-cli");
    assert_eq!(mac.bundled_executable_name(&Executable::App), "Sample");
    assert_eq!(mac.bundled_executable_name(&Executable::Cli), "Sample-cli");
    assert_eq!(mac.options.executable_artefact_extension(), None);

    let android = resolved_for(Target::AArch64LinuxAndroid);
    assert_eq!(
        android.compiled_executable_name(&Executable::Android),
        "libvm_client_android.so"
    );
    assert_eq!(android.bundled_executable_name(&Executable::Android), "libSample.so");
    assert_eq!(android.options.executable_artefact_extension(), Some("so".to_string()));
}

#[test]
fn the_build_command_depends_on_the_kind() {
    let app = Executable::App.cargo_build_command();
    assert_eq!(app.program, "cargo");
    assert_eq!(app.args, vec!["build", "--package", "vm-client-desktop"]);
    let android = Executable::Android.cargo_build_command();
    assert_eq!(android.args, vec!["apk", "--", "build", "--package", "vm-client-android"]);
}

#[test]
fn locations_follow_target_and_profile() {
    let cross = resolved_for(Target::X8664pcWindowsMsvc);
    assert_eq!(cross.profile(), "debug");
    assert_eq!(cross.compilation_location(), "target/x86_64-pc-windows-msvc/debug");
    assert_eq!(cross.default_bundle_location(), "target/x86_64-pc-windows-msvc/debug/bundle");
    assert_eq!(cross.bundle_location(), "target/x86_64-pc-windows-msvc/debug/bundle");
    assert_eq!(
        cross.compiled_executable_path(&Executable::App),
        "target/x86_64-pc-windows-msvc/debug/vm_client.exe"
    );
    assert_eq!(cross.third_party_libraries_sources_directory(), "/work/libs");
    assert_eq!(cross.third_party_libraries_build_directory(), "target");

    let native = resolved_for(Target::X8664UnknownlinuxGNU);
    assert_eq!(native.compilation_location(), "target/debug");
    assert_eq!(native.default_bundle_location(), "target/x86_64-unknown-linux-gnu/debug/bundle");
}

#[test]
fn a_release_and_a_bundle_directory_change_the_locations() {
    let options = BuilderOptions {
        release: true,
        bundle_dir: Some("/out".to_string()),
        ..BuilderOptions::default()
    };
    let mut environment = surroundings(Target::X8664UnknownlinuxGNU);
    environment.workspace_directory = None;
    let bundle = BundleOptions::new(ResolvedOptions::new(options, environment).unwrap());
    assert_eq!(bundle.profile(), "release");
    assert_eq!(bundle.compilation_location(), "target/release");
    assert_eq!(bundle.bundle_location(), "/out");
    assert_eq!(bundle.third_party_libraries_sources_directory(), "/work/here/libs");
}

#[test]
fn executable_options_read_the_bundle_options() {
    let bundle = resolved_for(Target::X8664pcWindowsMsvc);
    let options = ExecutableOptions::new(&bundle, Executable::Cli);
    assert_eq!(options.app_name(), "Sample");
    assert_eq!(*options.executable(), Executable::Cli);
    assert_eq!(options.executable_name(), "Sample-cli.exe");
    assert_eq!(options.compiled_executable_name(), "vm_client-cli.exe");
    assert_eq!(options.cargo_package_name(), "vm-client-desktop-cli");
    assert_eq!(options.identifier(), "com.example.sample");
    assert_eq!(options.version().to_string(), "1.2.3");
    assert_eq!(*options.target(), Target::X8664pcWindowsMsvc);
    assert_eq!(options.target_dir(), "target");
    assert!(!options.release());
    assert_eq!(options.verbose(), 0);
    assert!(options.icons().is_empty());
    assert!(options.features().is_empty());
    assert_eq!(options.vmmaker_vm(), None);
    assert_eq!(options.vmmaker_image(), None);
    assert_eq!(options.cargo_build_command().args[2], "vm-client-desktop-cli");
}

#[test]
fn a_version_is_three_numbers_with_dots() {
    assert_eq!(Version::new(1, 2, 3).to_string(), "1.2.3");
    assert_eq!(Version::new(0, 0, 1).to_string(), "0.0.1");
    assert_eq!(Version::new(10, 200, 3000).to_string(), "10.200.3000");
    let version = Version::new(4, 5, 6);
    assert_eq!((version.major(), version.minor(), version.patch()), (4, 5, 6));
}

#[test]
fn a_version_that_is_given_is_taken_as_it_was_read() {
    let options = BuilderOptions { version: Some("v4.5.6".to_string()), ..BuilderOptions::default() };
    let mut environment = surroundings(Target::AArch64appleDarwin);
    environment.version = Some(Version::new(4, 5, 6));
    let resolved = ResolvedOptions::new(options, environment).unwrap();
    assert_eq!(*resolved.version(), Version::new(4, 5, 6));
}

#[test]
fn a_build_without_version_gets_the_first_version() {
    let mut environment = surroundings(Target::AArch64appleDarwin);
    environment.first_version = Version::new(0, 0, 1);
    environment.version = Some(Version::new(9, 9, 9));
    let resolved = ResolvedOptions::new(BuilderOptions::default(), environment).unwrap();
    assert_eq!(*resolved.version(), Version::new(0, 0, 1));
}

#[test]
fn a_version_that_is_none_is_refused_with_its_text() {
    let options = BuilderOptions {
        version: Some("one.two".to_string()),
        app_name: Some("Sample".to_string()),
        ..BuilderOptions::default()
    };
    let error = ResolvedOptions::new(options, surroundings(Target::AArch64appleDarwin)).unwrap_err();
    assert_eq!(error, Error::InvalidVersion { version: "one.two".to_string() });
    assert_eq!(error.message(), "Could not parse version one.two");
}

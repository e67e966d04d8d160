use app_bundler::bundlers::android::{AndroidPackage, AndroidTarget, Sdk};
use app_bundler::bundlers::mac::{Edit, LoadCommand, LoadCommandKind, ObjectFile};
use app_bundler::bundlers::{
    compile_binary, compile_command, compile_library, compile_third_party_libraries,
    compiled_artifact, compiled_libraries, compiled_libraries_in, compiled_library_file_name,
    ensure_compiled_libraries_directory, find_icon, new_library_compilation_context,
    prepare_library_compilation,
};
use app_bundler::options::build_options::BuilderOptions;
use app_bundler::options::resolved_options::Environment;
use app_bundler::rpath::Options;
use app_bundler::tools::CommandLine;
use app_bundler::{
    AndroidBundler, AppInfo, BuilderInfo, BundleOptions, Bundler, Error, Executable,
    ExecutableOptions, Inventory, LinuxBundler, MacBundler, Platform, ResolvedOptions, Step, Target,
    Version, VersionedThirdPartyLibraries, WindowsBundler,
};

fn environment(version: Version) -> Environment {
    Environment {
        host: Target::X8664UnknownlinuxGNU,
        workspace_directory: Some("/work".to_string()),
        current_directory: "/work/here".to_string(),
        version: None,
        first_version: version,
        libraries_versions: VersionedThirdPartyLibraries::new(),
        builder_info: BuilderInfo::new(
            "t".to_string(),
            "b".to_string(),
            "c".to_string(),
            "s".to_string(),
            "o".to_string(),
        ),
        app_info: AppInfo::new("now".to_string(), None, None),
    }
}

fn options_for(target: Target) -> BuilderOptions {
    BuilderOptions {
        app_name: Some("Sample".to_string()),
        identifier: Some("com.example.sample".to_string()),
        target: Some(target),
        target_dir: Some("target".to_string()),
        bundle_dir: Some("bundle".to_string()),
        ..BuilderOptions::default()
    }
}

fn bundle_of(options: BuilderOptions) -> BundleOptions {
    BundleOptions::new(ResolvedOptions::new(options, environment(Version::new(1, 2, 3))).unwrap())
}

fn sample(target: Target) -> BundleOptions {
    bundle_of(options_for(target))
}

fn inventory(entries: &[&str], icons: &[&str]) -> Inventory {
    Inventory {
        entries: entries.iter().map(|e| e.to_string()).collect(),
        icons: icons.iter().map(|e| e.to_string()).collect(),
    }
}

fn run(words: &[&str], failure: &str) -> Step {
    Step::Run {
        command: CommandLine {
            program: words[0].to_string(),
            args: words[1..].iter().map(|w| w.to_string()).collect(),
        },
        failure: failure.to_string(),
    }
}

fn copy_file(from: &str, to: &str) -> Step {
    Step::CopyFile { from: from.to_string(), to: to.to_string() }
}

fn copy_into(from: &str, directory: &str) -> Step {
    Step::CopyInto { from: from.to_string(), directory: directory.to_string() }
}

fn set(name: &str, value: &str) -> Step {
    Step::SetVariable { name: name.to_string(), value: value.to_string() }
}

fn command(kind: LoadCommandKind, name: &str) -> LoadCommand {
    LoadCommand { kind, name: name.to_string() }
}

#[test]
fn libraries_are_named_by_platform() {
    assert_eq!(compiled_library_file_name("zlib", Platform::Mac), "libzlib.dylib");
    assert_eq!(compiled_library_file_name("zlib", Platform::Windows), "zlib.dll");
    assert_eq!(compiled_library_file_name("zlib", Platform::Linux), "libzlib.so");
    assert_eq!(compiled_library_file_name("zlib", Platform::Android), "libzlib.so");
}

#[test]
fn compiled_libraries_are_the_entries_with_the_extension_of_the_platform() {
    let entries: Vec<String> = ["libz.dylib", "z.dll", "libz.so", "libz.dylib.dSYM", "dylib", "x"]
        .iter()
        .map(|e| e.to_string())
        .collect();
    assert_eq!(
        compiled_libraries_in("d", &entries, &sample(Target::AArch64appleDarwin)),
        vec!["d/libz.dylib"]
    );
    assert_eq!(
        compiled_libraries_in("d", &entries, &sample(Target::X8664pcWindowsMsvc)),
        vec!["d/z.dll"]
    );
    assert_eq!(
        compiled_libraries_in("d", &entries, &sample(Target::X8664UnknownlinuxGNU)),
        vec!["d/libz.so"]
    );
    assert_eq!(
        compiled_libraries_in("d", &entries, &sample(Target::AArch64LinuxAndroid)),
        vec!["d/libz.so"]
    );
    let bundle = sample(Target::X8664pcWindowsMsvc);
    assert_eq!(
        compiled_libraries(&bundle, &inventory(&["b.dll", "a.dll", "a.pdb"], &[])),
        vec![
            "target/x86_64-pc-windows-msvc/debug/b.dll",
            "target/x86_64-pc-windows-msvc/debug/a.dll"
        ]
    );
}

#[test]
fn the_first_icon_that_is_there_is_taken() {
    let icons: Vec<String> =
        ["a.icns", "b.ico", "c.icns", "d.ico"].iter().map(|e| e.to_string()).collect();
    let present = inventory(&[], &["c.icns", "d.ico", "b.ico"]);
    assert_eq!(find_icon(&icons, &present, "icns"), Some("c.icns".to_string()));
    assert_eq!(find_icon(&icons, &present, "ico"), Some("b.ico".to_string()));
    assert_eq!(find_icon(&icons, &present, "png"), None);
    assert_eq!(find_icon(&icons, &inventory(&[], &[]), "ico"), None);
}

#[test]
fn a_native_debug_build_is_compiled_with_the_plain_command() {
    let mut options = options_for(Target::X8664UnknownlinuxGNU);
    options.bundle_dir = None;
    let bundle = bundle_of(options);
    let executable = ExecutableOptions::new(&bundle, Executable::App);
    assert_eq!(
        compile_binary(&executable),
        vec![
            set("CARGO_TARGET_DIR", "target"),
            set("VM_CLIENT_VERSION", "1.2.3"),
            run(
                &["cargo", "build", "--package", "vm-client-desktop"],
                "Failed to compile a vm-client"
            ),
        ]
    );
}

#[test]
fn a_cross_release_build_is_compiled_with_every_option() {
    let mut options = options_for(Target::AArch64LinuxAndroid);
    options.release = true;
    options.verbose = 1;
    options.vmmaker_vm = Some("/vm".to_string());
    options.vmmaker_image = Some("/image".to_string());
    options.features = Some(vec!["a".to_string(), "b".to_string()]);
    let bundle = bundle_of(options);
    let executable = ExecutableOptions::new(&bundle, Executable::Android);
    assert_eq!(
        compile_binary(&executable),
        vec![
            set("CARGO_TARGET_DIR", "target"),
            set("CARGO_TARGET", "aarch64-linux-android"),
            set("VM_CLIENT_VMMAKER", "/vm"),
            set("VM_CLIENT_VMMAKER_IMAGE", "/image"),
            set("VM_CLIENT_VERSION", "1.2.3"),
            run(
                &[
                    "cargo",
                    "apk",
                    "--",
                    "build",
                    "--package",
                    "vm-client-android",
                    "--target",
                    "aarch64-linux-android",
                    "-v",
                    "--release",
                    "--features",
                    "a",
                    "b",
                ],
                "Failed to compile a vm-client"
            ),
        ]
    );
}

#[test]
fn every_level_of_reporting_above_one_is_the_highest() {
    for (level, flag) in [(0, None), (1, Some("-v")), (2, Some("-vv")), (7, Some("-vv")), (-1, Some("-vv"))]
        .iter()
    {
        let mut options = options_for(Target::X8664UnknownlinuxGNU);
        options.verbose = *level;
        let bundle = bundle_of(options);
        let command = compile_command(&ExecutableOptions::new(&bundle, Executable::Cli));
        let mut expected = vec!["build", "--package", "vm-client-desktop-cli"];
        if let Some(flag) = flag {
            expected.push(flag);
        }
        assert_eq!(command.args, expected);
    }
}

#[test]
fn a_windows_bundle_holds_executables_and_libraries_in_one_directory() {
    let mut options = options_for(Target::X8664pcWindowsMsvc);
    options.executables = Some(vec![Executable::App]);
    let bundle = bundle_of(options);
    let bundler = WindowsBundler::new();
    let compiled = "target/x86_64-pc-windows-msvc/debug";
    let steps = bundler.bundle(&bundle, &inventory(&["zlib.dll", "zlib.pdb"], &[])).unwrap();
    assert_eq!(
        steps,
        vec![
            Step::RemoveDirectory { path: "bundle/Sample".to_string() },
            Step::CreateDirectories { path: "bundle/Sample".to_string() },
            Step::CreateDirectory { path: "bundle/Sample/bin".to_string() },
            copy_file(&format!("{}/vm_client.exe", compiled), "bundle/Sample/bin/Sample.exe"),
            copy_file(&format!("{}/vm_client.pdb", compiled), "bundle/Sample/bin/Sample.pdb"),
            copy_into(&format!("{}/zlib.dll", compiled), "bundle/Sample/bin"),
            Step::CopyIntoIfPresent {
                from: format!("{}/zlib.pdb", compiled),
                directory: "bundle/Sample/bin".to_string(),
            },
        ]
    );
    assert!(!steps.iter().any(|step| matches!(step, Step::RewriteSearchPaths { .. })));
    assert_eq!(bundler.bundled_executable_directory(&bundle), "bundle/Sample/bin");
    assert_eq!(bundler.bundled_resources_directory(&bundle), "bundle/Sample/share");
    assert_eq!(bundler.platform(), Platform::Windows);
}

#[test]
fn a_windows_release_bundle_holds_no_debug_symbols() {
    let mut options = options_for(Target::X8664pcWindowsMsvc);
    options.release = true;
    let bundle = bundle_of(options);
    let compiled = "target/x86_64-pc-windows-msvc/release";
    assert_eq!(
        WindowsBundler::new().bundle(&bundle, &inventory(&["zlib.dll"], &[])).unwrap(),
        vec![
            Step::RemoveDirectory { path: "bundle/Sample".to_string() },
            Step::CreateDirectories { path: "bundle/Sample".to_string() },
            Step::CreateDirectory { path: "bundle/Sample/bin".to_string() },
            copy_file(
                &format!("{}/vm_client-cli.exe", compiled),
                "bundle/Sample/bin/Sample-cli.exe"
            ),
            copy_file(&format!("{}/vm_client.exe", compiled), "bundle/Sample/bin/Sample.exe"),
            copy_into(&format!("{}/zlib.dll", compiled), "bundle/Sample/bin"),
        ]
    );
}

#[test]
fn debug_symbols_of_windows_have_underscores_for_hyphens() {
    assert_eq!(WindowsBundler::debug_symbol_file("bin/my_app-cli.exe"), "bin/my_app_cli.pdb");
    assert_eq!(WindowsBundler::debug_symbol_file("zlib.dll"), "zlib.pdb");
    assert_eq!(WindowsBundler::debug_symbol_file("a-b/c-d.e-f.dll"), "a-b/c_d.e_f.pdb");
    assert_eq!(WindowsBundler::debug_symbol_file("plain"), "plain.pdb");
}

#[test]
fn the_stack_of_a_windows_executable_is_enlarged_after_compilation() {
    let bundle = sample(Target::X8664pcWindowsMsvc);
    let bundler = WindowsBundler::new();
    let executable = ExecutableOptions::new(&bundle, Executable::App);
    let binary = "target/x86_64-pc-windows-msvc/debug/vm_client.exe";
    assert_eq!(
        bundler.post_compile(&bundle, &Executable::App, &executable),
        vec![
            Step::RemoveDirectory { path: "/work/here/temp".to_string() },
            run(
                &["editbin.exe", "/STACK:16000000", binary],
                &format!("Failed to set /STACK of {}", binary)
            ),
        ]
    );
    assert_eq!(
        bundler.set_stack_size("a.exe", 1024),
        run(&["editbin.exe", "/STACK:1024", "a.exe"], "Failed to set /STACK of a.exe")
    );
    assert_eq!(bundler.temporary_directory(&bundle), "/work/here/temp");
}

#[test]
fn the_resources_of_a_windows_executable_are_rendered_before_compilation() {
    let mut options = options_for(Target::X8664pcWindowsMsvc);
    options.icons = Some(vec!["icons/app.png".to_string(), "icons/app.ico".to_string()]);
    let bundle = bundle_of(options);
    let bundler = WindowsBundler::new();
    let executable = ExecutableOptions::new(&bundle, Executable::App);
    let present = inventory(&[], &["icons/app.ico", "icons/app.png"]);
    assert_eq!(bundler.create_ico(&executable, &present), Some("icons/app.ico".to_string()));
    assert_eq!(bundler.create_ico(&executable, &inventory(&[], &[])), None);

    let steps = bundler.pre_compile(&executable, Some("C:\\icons\\app.ico")).unwrap();
    assert_eq!(steps.len(), 4);
    assert_eq!(steps[0], Step::CreateDirectories { path: "/work/here/temp".to_string() });
    assert_eq!(steps[3], set("VM_CLIENT_EMBED_RESOURCES", "/work/here/temp/Sample.exe.rc"));
    match &steps[1] {
        Step::WriteFile { path, contents } => {
            assert_eq!(path, "/work/here/temp/Sample.exe.rc");
            assert!(contents.starts_with("#include \"windows.h\"\n"));
            assert!(contents.contains("1 RT_MANIFEST \"Sample.exe.manifest\"\n"));
            assert!(contents.contains("100 ICON \"C:\\\\icons\\\\app.ico\"\n"));
            assert!(contents.contains("FILEVERSION     1,2,3,0\n"));
            assert!(contents.contains("VALUE \"ProductName\", \"Sample\\0\"\n"));
            assert!(contents.contains("VALUE \"CompanyName\", \"\\0\"\n"));
            assert!(contents.contains("VALUE \"FileVersion\", \"1.2.3\\0\"\n"));
        }
        other => panic!("{:?}", other),
    }
    match &steps[2] {
        Step::WriteFile { path, contents } => {
            assert_eq!(path, "/work/here/temp/Sample.exe.manifest");
            assert!(contents.contains("name=\"com.example.sample\"\n"));
            assert!(contents.contains("<dpiAwareness"));
        }
        other => panic!("{:?}", other),
    }
}

#[test]
fn a_windows_executable_without_icon_embeds_none() {
    let bundle = sample(Target::X8664pcWindowsMsvc);
    let executable = ExecutableOptions::new(&bundle, Executable::Cli);
    let steps = WindowsBundler::new().pre_compile(&executable, None).unwrap();
    match &steps[1] {
        Step::WriteFile { path, contents } => {
            assert_eq!(path, "/work/here/temp/Sample-cli.exe.rc");
            assert!(contents.contains("1 RT_MANIFEST \"Sample-cli.exe.manifest\"\n\n\nVS_VERSION_INFO"));
            assert!(!contents.contains("ICON"));
        }
        other => panic!("{:?}", other),
    }
}

#[test]
fn a_mac_bundle_is_an_application_directory() {
    let mut options = options_for(Target::AArch64appleDarwin);
    options.executables = Some(vec![Executable::App]);
    let bundle = bundle_of(options);
    let bundler = MacBundler::new();
    let compiled = "target/aarch64-apple-darwin/debug";
    let steps = bundler.bundle(&bundle, &inventory(&["libzlib.dylib", "notes.txt"], &[])).unwrap();
    assert_eq!(steps.len(), 11);
    assert_eq!(
        steps[..10].to_vec(),
        vec![
            Step::RemoveDirectory { path: "bundle/Sample.app".to_string() },
            Step::CreateDirectories { path: "bundle/Sample.app".to_string() },
            Step::CreateDirectory { path: "bundle/Sample.app/Contents".to_string() },
            Step::CreateDirectory { path: "bundle/Sample.app/Contents/Resources".to_string() },
            Step::CreateDirectory { path: "bundle/Sample.app/Contents/MacOS".to_string() },
            Step::CreateDirectory { path: "bundle/Sample.app/Contents/MacOS/Plugins".to_string() },
            copy_file(&format!("{}/vm_client", compiled), "bundle/Sample.app/Contents/MacOS/Sample"),
            Step::RewriteSearchPaths {
                binary: "bundle/Sample.app/Contents/MacOS/Sample".to_string(),
                subdirectory: "Plugins".to_string(),
            },
            copy_into(
                &format!("{}/libzlib.dylib", compiled),
                "bundle/Sample.app/Contents/MacOS/Plugins"
            ),
            Step::RewriteSearchPaths {
                binary: "bundle/Sample.app/Contents/MacOS/Plugins/libzlib.dylib".to_string(),
                subdirectory: "Plugins".to_string(),
            },
        ]
    );
    match &steps[10] {
        Step::WriteFile { path, contents } => {
            assert_eq!(path, "bundle/Sample.app/Contents/Resources/Info.plist");
            assert!(contents.starts_with("<?xml version=\"1.0\" encoding=\"UTF-8\"?>\n"));
            assert!(contents
                .contains("<key>CFBundleIdentifier</key>\n  <string>com.example.sample</string>\n"));
            assert!(contents.contains("<key>CFBundleName</key>\n  <string>Sample</string>\n"));
            assert!(contents.contains("<key>CFBundleDisplayName</key>\n  <string>Sample</string>\n"));
            assert!(contents.contains("<key>CFBundleExecutable</key>\n  <string>Sample</string>\n"));
            assert!(contents
                .contains("<key>CFBundleShortVersionString</key>\n  <string>1.2.3</string>\n"));
            assert!(contents.contains("<key>CFBundleVersion</key>\n  <string>1.2.3</string>\n"));
            assert!(contents.contains("<key>CFBundleIconFile</key>\n  <string></string>\n"));
            assert!(contents.contains("\t<key>WANTS_INTERACTIVE_SESSION</key>\n"));
            assert!(contents.ends_with("</plist>\n"));
        }
        other => panic!("{:?}", other),
    }
    assert_eq!(bundler.bundled_executable_directory(&bundle), "bundle/Sample.app/Contents/MacOS");
    assert_eq!(
        bundler.bundled_resources_directory(&bundle),
        "bundle/Sample.app/Contents/Resources"
    );
    assert_eq!(bundler.platform(), Platform::Mac);
    let executable = ExecutableOptions::new(&bundle, Executable::App);
    assert_eq!(bundler.pre_compile(&executable, None), Ok(Vec::new()));
    assert_eq!(bundler.post_compile(&bundle, &Executable::App, &executable), Vec::new());
}

#[test]
fn a_mac_bundle_takes_icon_and_debug_symbols_where_asked() {
    let mut options = options_for(Target::X8664appleDarwin);
    options.executables = Some(Vec::new());
    options.include_debug_symbols = true;
    options.app_name = Some("My<App>".to_string());
    options.icons = Some(vec!["art/logo.png".to_string(), "art/logo.icns".to_string()]);
    let bundle = bundle_of(options);
    let bundler = MacBundler::new();
    let present = inventory(&["liba.dylib"], &["art/logo.icns"]);
    assert_eq!(bundler.create_icns(&bundle, &present), Some("art/logo.icns".to_string()));
    let plugins = "bundle/My<App>.app/Contents/MacOS/Plugins";
    let steps = bundler.bundle(&bundle, &present).unwrap();
    assert_eq!(
        steps[6..10].to_vec(),
        vec![
            copy_into("target/x86_64-apple-darwin/debug/liba.dylib", plugins),
            Step::CopyIntoIfPresent {
                from: "target/x86_64-apple-darwin/debug/liba.dylib.dSYM".to_string(),
                directory: plugins.to_string(),
            },
            Step::RewriteSearchPaths {
                binary: format!("{}/liba.dylib", plugins),
                subdirectory: "Plugins".to_string(),
            },
            copy_file("art/logo.icns", "bundle/My<App>.app/Contents/Resources/My<App>.icns"),
        ]
    );
    match &steps[10] {
        Step::WriteFile { contents, .. } => {
            assert!(contents.contains("<string>My&lt;App&gt;.icns</string>"));
            assert!(contents.contains("<key>CFBundleName</key>\n  <string>My&lt;App&gt;</string>"));
        }
        other => panic!("{:?}", other),
    }
}

#[test]
fn debug_symbols_of_mac_stand_beside_the_binary() {
    assert_eq!(
        MacBundler::debug_symbol_file("lib/libz.dylib"),
        Some("lib/libz.dylib.dSYM".to_string())
    );
    assert_eq!(MacBundler::debug_symbol_file("Sample"), Some("Sample.dSYM".to_string()));
    assert_eq!(MacBundler::debug_symbol_file("/"), None);
}

#[test]
fn the_search_paths_of_an_executable_are_rewritten() {
    let file = ObjectFile::MachFile {
        commands: vec![
            command(LoadCommandKind::Other, ""),
            command(LoadCommandKind::LoadDylib, "/usr/lib/libSystem.B.dylib"),
            command(LoadCommandKind::LoadDylib, "build/libzlib.dylib"),
            command(LoadCommandKind::LoadWeakDylib, "@rpath/libweak.dylib"),
            command(LoadCommandKind::Rpath, "somewhere"),
        ],
    };
    let binary = "bundle/Sample.app/Contents/MacOS/Sample";
    assert_eq!(
        MacBundler::set_rpath(&file, binary),
        Ok(vec![
            run(
                &["install_name_tool", "-add_rpath", "@executable_path/Plugins", binary],
                &format!("Failed to add rpath to {}", binary)
            ),
            run(
                &[
                    "install_name_tool",
                    "-change",
                    "build/libzlib.dylib",
                    "@executable_path/Plugins/libzlib.dylib",
                    binary
                ],
                &format!(
                    "Failed to change build/libzlib.dylib to @executable_path/Plugins/libzlib.dylib in {}",
                    binary
                )
            ),
            run(
                &[
                    "install_name_tool",
                    "-change",
                    "@rpath/libweak.dylib",
                    "@executable_path/Plugins/libweak.dylib",
                    binary
                ],
                &format!(
                    "Failed to change @rpath/libweak.dylib to @executable_path/Plugins/libweak.dylib in {}",
                    binary
                )
            ),
        ])
    );
}

#[test]
fn the_identity_of_a_library_is_rewritten() {
    let file = ObjectFile::MachFile {
        commands: vec![command(LoadCommandKind::IdDylib, "libzlib.dylib")],
    };
    assert_eq!(
        MacBundler::search_path_edits(&file, "Plugins"),
        Ok(vec![
            Edit::AddSearchPath { path: "@executable_path/Plugins".to_string() },
            Edit::SetIdentity { name: "@executable_path/Plugins/libzlib.dylib".to_string() },
        ])
    );
    let binary = "Plugins/libzlib.dylib";
    assert_eq!(
        MacBundler::set_rpath_to(&file, binary, "Plugins").unwrap()[1],
        run(
            &["install_name_tool", "-id", "@executable_path/Plugins/libzlib.dylib", binary],
            "Failed to change id to @executable_path/Plugins/libzlib.dylib of Plugins/libzlib.dylib"
        )
    );
}

#[test]
fn rewriting_a_rewritten_binary_asks_for_what_is_there() {
    let file = ObjectFile::MachFile {
        commands: vec![
            command(LoadCommandKind::IdDylib, "@executable_path/Plugins/liba.dylib"),
            command(LoadCommandKind::ReexportDylib, "@executable_path/Plugins/libb.dylib"),
            command(LoadCommandKind::LoadDylib, "/usr/lib/libc.dylib"),
            command(LoadCommandKind::Rpath, "@executable_path/Plugins"),
        ],
    };
    assert_eq!(
        MacBundler::search_path_edits(&file, "Plugins"),
        Ok(vec![
            Edit::AddSearchPath { path: "@executable_path/Plugins".to_string() },
            Edit::SetIdentity { name: "@executable_path/Plugins/liba.dylib".to_string() },
            Edit::ChangeLibrary {
                from: "@executable_path/Plugins/libb.dylib".to_string(),
                to: "@executable_path/Plugins/libb.dylib".to_string(),
            },
        ])
    );
}

#[test]
fn a_library_without_file_name_cannot_be_rewritten() {
    let file = ObjectFile::MachFile {
        commands: vec![
            command(LoadCommandKind::LoadDylib, "ok/liba.dylib"),
            command(LoadCommandKind::LazyLoadDylib, "up/.."),
            command(LoadCommandKind::LoadUpwardDylib, ""),
        ],
    };
    assert_eq!(
        MacBundler::search_path_edits(&file, "Plugins"),
        Err(Error::NoFileName { path: "up/..".to_string() })
    );
    assert_eq!(
        MacBundler::set_rpath_to(&file, "binary", "Plugins"),
        Err(Error::NoFileName { path: "up/..".to_string() })
    );
}

#[test]
fn only_single_binaries_are_rewritten() {
    for file in [ObjectFile::FatFile, ObjectFile::ArFile, ObjectFile::SymDef].iter() {
        assert_eq!(MacBundler::set_rpath_to(file, "binary", "Plugins"), Ok(Vec::new()));
    }
    let empty = ObjectFile::MachFile { commands: Vec::new() };
    assert_eq!(MacBundler::set_rpath_to(&empty, "binary", "Plugins").unwrap().len(), 1);
}

#[test]
fn the_tool_rewrites_for_the_directory_it_is_given() {
    let file = ObjectFile::MachFile {
        commands: vec![command(LoadCommandKind::LoadDylib, "liba.dylib")],
    };
    let beside = Options { lib: "bin/tool".to_string(), path: None };
    assert_eq!(
        beside.steps(&file).unwrap()[1],
        run(
            &["install_name_tool", "-change", "liba.dylib", "@executable_path//liba.dylib", "bin/tool"],
            "Failed to change liba.dylib to @executable_path//liba.dylib in bin/tool"
        )
    );
    let below = Options { lib: "bin/tool".to_string(), path: Some("lib".to_string()) };
    assert_eq!(
        below.steps(&file).unwrap()[0],
        run(
            &["install_name_tool", "-add_rpath", "@executable_path/lib", "bin/tool"],
            "Failed to add rpath to bin/tool"
        )
    );
}

#[test]
fn a_linux_bundle_holds_executables_and_libraries_in_one_directory() {
    let bundle = sample(Target::X8664UnknownlinuxGNU);
    let bundler = LinuxBundler::new();
    assert_eq!(
        bundler.bundle(&bundle, &inventory(&["libzlib.so", "zlib.dll"], &[])).unwrap(),
        vec![
            Step::RemoveDirectory { path: "bundle/Sample".to_string() },
            Step::CreateDirectories { path: "bundle/Sample".to_string() },
            Step::CreateDirectory { path: "bundle/Sample/bin".to_string() },
            copy_file("target/debug/vm_client-cli", "bundle/Sample/bin/Sample-cli"),
            copy_file("target/debug/vm_client", "bundle/Sample/bin/Sample"),
            copy_into("target/debug/libzlib.so", "bundle/Sample/bin"),
        ]
    );
    assert_eq!(bundler.bundled_executable_directory(&bundle), "bundle/Sample/bin");
    assert_eq!(bundler.bundled_resources_directory(&bundle), "bundle/Sample/share");
    assert_eq!(bundler.platform(), Platform::Linux);
}

fn android_package(options: BuilderOptions, version: Version, entries: &[&str]) -> Result<AndroidPackage, Error> {
    let bundle = BundleOptions::new(ResolvedOptions::new(options, environment(version)).unwrap());
    AndroidBundler::new().package(&bundle, &inventory(entries, &[]))
}

#[test]
fn an_android_package_carries_what_was_given() {
    let mut options = options_for(Target::AArch64LinuxAndroid);
    options.icons = Some(vec!["res-icons".to_string()]);
    let package = android_package(options, Version::new(1, 2, 3), &["libvm.so", "x.txt"]).unwrap();
    assert_eq!(package.build_dir, "bundle");
    assert_eq!(package.apk_name, "Sample");
    assert_eq!(package.resources, "bundle/res");
    assert!(package.disable_aapt_compression);
    assert_eq!(package.target, AndroidTarget::Arm64V8a);
    assert_eq!(package.libraries, vec!["target/aarch64-linux-android/debug/libvm.so"]);
    assert_eq!(package.library_search_path, "target/aarch64-linux-android/debug");
    let manifest = package.manifest;
    assert_eq!(manifest.package, "com.example.sample");
    assert_eq!(manifest.version_name, Some("1.2.3".to_string()));
    assert_eq!(manifest.version_code, Some(16843267));
    assert_eq!(
        manifest.sdk,
        Sdk {
            min_sdk_version: Some(30),
            target_sdk_version: Some(30),
            max_sdk_version: Some(33)
        }
    );
    let permissions: Vec<&str> = manifest.uses_permission.iter().map(|p| p.name.as_str()).collect();
    assert_eq!(
        permissions,
        vec!["android.permission.INTERNET", "android.permission.ACCESS_NETWORK_STATE"]
    );
    assert!(manifest.uses_permission.iter().all(|p| p.max_sdk_version.is_none()));
    let application = manifest.application;
    assert_eq!(application.label, "Sample");
    assert_eq!(application.debuggable, Some(true));
    assert!(!application.has_code);
    assert_eq!(application.icon, Some("@mipmap/ic_launcher".to_string()));
    assert_eq!(
        application.theme,
        Some("@android:style/Theme.DeviceDefault.NoActionBar.Fullscreen".to_string())
    );
    assert!(application.meta_data.is_empty());
    let activity = application.activity;
    assert_eq!(activity.name, "android.app.NativeActivity");
    assert_eq!(activity.label, Some("Sample".to_string()));
    assert_eq!(
        activity.config_changes,
        Some("orientation|keyboardHidden|screenSize".to_string())
    );
    assert_eq!(activity.meta_data.len(), 1);
    assert_eq!(activity.meta_data[0].name, "android.app.lib_name");
    assert_eq!(activity.meta_data[0].value, "vm_client_android");
    assert_eq!(activity.intent_filter.len(), 1);
    assert_eq!(activity.intent_filter[0].actions, vec!["android.intent.action.MAIN"]);
    assert_eq!(activity.intent_filter[0].categories, vec!["android.intent.category.LAUNCHER"]);
    assert_eq!(activity.launch_mode, None);
    assert_eq!(activity.orientation, None);
    assert_eq!(activity.exported, None);
    assert_eq!(activity.resizeable_activity, None);
}

#[test]
fn an_android_release_without_icons_is_compressed_and_has_no_icon() {
    let mut options = options_for(Target::AArch64LinuxAndroid);
    options.release = true;
    let package = android_package(options, Version::new(0, 0, 0), &[]).unwrap();
    assert!(!package.disable_aapt_compression);
    assert_eq!(package.manifest.application.icon, None);
    assert_eq!(package.manifest.version_code, Some(1 << 24));
    assert!(package.libraries.is_empty());
}

#[test]
fn the_code_of_a_version_packs_its_numbers_into_bytes() {
    assert_eq!(AndroidBundler::version_code(&Version::new(1, 2, 3)), Ok(16843267));
    assert_eq!(
        AndroidBundler::version_code(&Version::new(255, 255, 255)),
        Ok((1 << 24) | (255 << 16) | (255 << 8) | 255)
    );
    assert_eq!(AndroidBundler::version_code(&Version::new(0, 1, 0)), Ok((1 << 24) | (1 << 8)));
}

#[test]
fn a_version_that_does_not_fit_has_no_code() {
    assert_eq!(
        AndroidBundler::version_code(&Version::new(256, 0, 0)),
        Err(Error::InvalidVersionCode { version: "256.0.0".to_string() })
    );
    assert_eq!(
        AndroidBundler::version_code(&Version::new(0, 0, 1000)),
        Err(Error::InvalidVersionCode { version: "0.0.1000".to_string() })
    );
    let options = options_for(Target::AArch64LinuxAndroid);
    assert_eq!(
        android_package(options, Version::new(1, 300, 0), &[]),
        Err(Error::InvalidVersionCode { version: "1.300.0".to_string() })
    );
}

#[test]
fn only_an_android_target_gets_a_package() {
    assert_eq!(AndroidBundler::android_target(&Target::AArch64LinuxAndroid), Ok(AndroidTarget::Arm64V8a));
    let error = android_package(options_for(Target::X8664UnknownlinuxGNU), Version::new(999, 0, 0), &[])
        .unwrap_err();
    assert_eq!(
        error,
        Error::UnsupportedAndroidTarget { target: "x86_64-unknown-linux-gnu".to_string() }
    );
    assert_eq!(error.message(), "Unsupported android target: x86_64-unknown-linux-gnu");
    let bundle = sample(Target::X8664UnknownlinuxGNU);
    assert_eq!(AndroidBundler::new().bundle(&bundle, &inventory(&[], &[])), Err(error));
}

#[test]
fn an_android_bundle_renews_the_resources_and_builds_the_package() {
    let mut options = options_for(Target::AArch64LinuxAndroid);
    options.icons = Some(vec!["icons/a".to_string(), "icons/b".to_string()]);
    let bundle = bundle_of(options);
    let bundler = AndroidBundler::new();
    assert_eq!(
        bundler.bundle(&bundle, &inventory(&[], &[])).unwrap(),
        vec![
            Step::RemoveDirectory { path: "bundle/res".to_string() },
            Step::CreateDirectories { path: "bundle/res".to_string() },
            Step::CopyContents { from: "icons/a".to_string(), directory: "bundle/res".to_string() },
            Step::CopyContents { from: "icons/b".to_string(), directory: "bundle/res".to_string() },
            Step::BuildPackage,
        ]
    );
    assert_eq!(bundler.bundled_executable_directory(&bundle), "bundle/Sample/lib");
    assert_eq!(bundler.bundled_resources_directory(&bundle), "bundle/Sample/assets");
    assert_eq!(bundler.platform(), Platform::Android);
}

#[test]
fn the_steps_of_an_android_bundle_come_with_the_package_they_build() {
    let mut options = options_for(Target::AArch64LinuxAndroid);
    options.icons = Some(vec!["icons/a".to_string()]);
    let bundle = bundle_of(options);
    let bundler = AndroidBundler::new();
    let present = inventory(&["libvm.so"], &[]);
    let (steps, package) = bundler.bundle_package(&bundle, &present).unwrap();
    assert_eq!(Ok(steps.clone()), bundler.bundle(&bundle, &present));
    assert_eq!(steps.last(), Some(&Step::BuildPackage));
    assert_eq!(Ok(package.clone()), bundler.package(&bundle, &present));
    assert_eq!(package.resources, "bundle/res");
    assert_eq!(package.manifest.package, "com.example.sample");
    assert_eq!(package.libraries, vec!["target/aarch64-linux-android/debug/libvm.so"]);
    let other = sample(Target::X8664UnknownlinuxGNU);
    assert!(matches!(
        bundler.bundle_package(&other, &present),
        Err(Error::UnsupportedAndroidTarget { .. })
    ));
}

#[test]
fn search_paths_are_rewritten_on_a_mac_host_only() {
    assert!(MacBundler::rewrites_search_paths(Platform::Mac));
    assert!(!MacBundler::rewrites_search_paths(Platform::Linux));
    assert!(!MacBundler::rewrites_search_paths(Platform::Windows));
    assert!(!MacBundler::rewrites_search_paths(Platform::Android));
}

#[test]
fn the_tool_reports_the_path_that_it_cannot_rewrite() {
    let file = ObjectFile::MachFile {
        commands: vec![command(LoadCommandKind::LoadDylib, "..")],
    };
    let options = Options { lib: "bin/tool".to_string(), path: None };
    assert_eq!(options.steps(&file), Err(Error::NoFileName { path: "..".to_string() }));
}

#[test]
fn a_library_is_compiled_in_its_own_directories() {
    let bundle = sample(Target::X8664pcWindowsMsvc);
    let context = new_library_compilation_context("zlib", &bundle);
    assert_eq!(context.sources_directory, "/work/libs/zlib");
    assert_eq!(context.build_directory, "target/zlib");
    assert_eq!(context.target, Target::X8664pcWindowsMsvc);
    assert!(context.debug);
    assert_eq!(
        prepare_library_compilation(&context),
        vec![
            Step::CreateDirectories { path: "/work/libs/zlib".to_string() },
            Step::CreateDirectories { path: "target/zlib".to_string() },
        ]
    );
    assert_eq!(
        compile_library("zlib", "target/zlib/build/zlib.dll", &bundle),
        copy_file("target/zlib/build/zlib.dll", "target/x86_64-pc-windows-msvc/debug/zlib.dll")
    );
    assert_eq!(
        ensure_compiled_libraries_directory(&bundle),
        Step::CreateDirectories { path: "target/x86_64-pc-windows-msvc/debug".to_string() }
    );
    let artifact = compiled_artifact("zlib", &bundle);
    assert_eq!(artifact.path, "target/x86_64-pc-windows-msvc/debug/zlib.dll");
    assert_eq!(artifact.name, "zlib");
    assert_eq!(artifact.target, Target::X8664pcWindowsMsvc);
}

#[test]
fn compiled_libraries_are_delivered_in_order() {
    let bundle = sample(Target::AArch64appleDarwin);
    let compiled = vec![
        ("git2".to_string(), "target/git2/libgit2.dylib".to_string()),
        ("ssl".to_string(), "target/ssl/libssl.dylib".to_string()),
    ];
    assert_eq!(
        compile_third_party_libraries(&compiled, &bundle),
        vec![
            Step::CreateDirectories { path: "target/aarch64-apple-darwin/debug".to_string() },
            copy_file("target/git2/libgit2.dylib", "target/aarch64-apple-darwin/debug/libgit2.dylib"),
            copy_file("target/ssl/libssl.dylib", "target/aarch64-apple-darwin/debug/libssl.dylib"),
        ]
    );
}

use app_bundler::options::build_options::BuilderOptions;
use app_bundler::options::resolved_options::Environment;
use app_bundler::pipeline::{
    action_after, advance, build, bundle, bundler, compile, compile_executables,
    export_build_info, icon_to_embed, post_process, prepare, required_tools, Action, Command,
    PlatformBundler, Stage,
};
use app_bundler::{
    AppInfo, BuilderInfo, BundleOptions, Bundler, Executable, Inventory, MacBundler, Platform,
    ResolvedOptions, Step, Target, Version, VersionedThirdPartyLibraries, WindowsBundler,
};

fn resolved(target: Target) -> ResolvedOptions {
    let options = BuilderOptions {
        app_name: Some("Sample".to_string()),
        target: Some(target),
        target_dir: Some("target".to_string()),
        bundle_dir: Some("bundle".to_string()),
        ..BuilderOptions::default()
    };
    let environment = Environment {
        host: Target::X8664UnknownlinuxGNU,
        workspace_directory: None,
        current_directory: "/here".to_string(),
        version: None,
        first_version: Version::new(1, 2, 3),
        libraries_versions: VersionedThirdPartyLibraries::new(),
        builder_info: BuilderInfo::new(
            "t".to_string(),
            "b".to_string(),
            "c".to_string(),
            "s".to_string(),
            "o".to_string(),
        ),
        app_info: AppInfo::new("now".to_string(), None, None),
    };
    ResolvedOptions::new(options, environment).unwrap()
}

fn run_to_end(command: Command, outcomes: &[bool]) -> (Stage, Vec<Action>) {
    let mut stage = Stage::Resolved;
    let mut actions = Vec::new();
    let mut outcomes = outcomes.iter();
    while let Some(action) = action_after(command, stage) {
        actions.push(action);
        stage = advance(command, stage, *outcomes.next().unwrap_or(&true));
    }
    (stage, actions)
}

#[test]
fn a_build_goes_through_every_stage_in_order() {
    assert_eq!(
        run_to_end(Command::Build, &[]),
        (
            Stage::MetadataExported,
            vec![
                Action::CheckRequirements,
                Action::CompileExecutables,
                Action::CompileLibraries,
                Action::PostProcess,
                Action::Bundle,
                Action::ExportMetadata,
            ]
        )
    );
    assert_eq!(build(Command::Build), Some(Action::CheckRequirements));
    assert_eq!(advance(Command::Build, Stage::PostProcessed, true), Stage::Bundled);
    assert_eq!(Action::PostProcess.stage(), Stage::PostProcessed);
}

#[test]
fn a_compilation_leaves_out_the_bundle() {
    assert_eq!(
        run_to_end(Command::Compile, &[]),
        (
            Stage::MetadataExported,
            vec![
                Action::CheckRequirements,
                Action::CompileExecutables,
                Action::CompileLibraries,
                Action::PostProcess,
                Action::ExportMetadata,
            ]
        )
    );
    assert_eq!(compile(), Some(Action::CheckRequirements));
}

#[test]
fn a_bundling_only_bundles() {
    assert_eq!(run_to_end(Command::Bundle, &[]), (Stage::Bundled, vec![Action::Bundle]));
    assert_eq!(bundle(), Some(Action::Bundle));
}

#[test]
fn a_failure_ends_the_build() {
    assert_eq!(
        run_to_end(Command::Build, &[true, true, false]),
        (
            Stage::Failed,
            vec![Action::CheckRequirements, Action::CompileExecutables, Action::CompileLibraries]
        )
    );
    assert_eq!(run_to_end(Command::Bundle, &[false]), (Stage::Failed, vec![Action::Bundle]));
    assert_eq!(action_after(Command::Build, Stage::Failed), None);
    assert_eq!(advance(Command::Build, Stage::Failed, true), Stage::Failed);
    assert_eq!(advance(Command::Build, Stage::MetadataExported, true), Stage::MetadataExported);
}

#[test]
fn the_bundler_is_that_of_the_platform() {
    assert!(matches!(bundler(&resolved(Target::AArch64appleDarwin)), PlatformBundler::Mac(_)));
    assert!(matches!(bundler(&resolved(Target::X8664pcWindowsMsvc)), PlatformBundler::Windows(_)));
    assert!(matches!(bundler(&resolved(Target::X8664UnknownlinuxGNU)), PlatformBundler::Linux(_)));
    assert!(matches!(bundler(&resolved(Target::AArch64LinuxAndroid)), PlatformBundler::Android(_)));
    for target in Target::value_variants() {
        let (bundler, options) = prepare(resolved(target));
        assert_eq!(bundler.platform(), target.platform());
        assert_eq!(options.platform(), target.platform());
    }
}

#[test]
fn the_bundler_of_a_platform_does_what_its_bundler_does() {
    let options = BundleOptions::new(resolved(Target::X8664pcWindowsMsvc));
    let inventory = Inventory { entries: vec!["a.dll".to_string()], icons: Vec::new() };
    let any = PlatformBundler::Windows(WindowsBundler::new());
    assert_eq!(any.bundle(&options, &inventory), WindowsBundler::new().bundle(&options, &inventory));
    assert_eq!(
        any.bundled_executable_directory(&options),
        WindowsBundler::new().bundled_executable_directory(&options)
    );
    assert_eq!(any.bundled_resources_directory(&options), "bundle/Sample/share");
    let mac = BundleOptions::new(resolved(Target::AArch64appleDarwin));
    assert_eq!(
        PlatformBundler::Mac(MacBundler::new()).bundle(&mac, &inventory),
        MacBundler::new().bundle(&mac, &inventory)
    );
    assert_eq!(any.platform(), Platform::Windows);
}

#[test]
fn every_executable_is_prepared_and_compiled() {
    let options = BundleOptions::new(resolved(Target::X8664UnknownlinuxGNU));
    let linux = bundler(&options.options);
    let steps = compile_executables(&linux, &options, None).unwrap();
    assert_eq!(steps.len(), 6);
    let commands: Vec<&Step> = steps.iter().filter(|s| matches!(s, Step::Run { .. })).collect();
    assert_eq!(commands.len(), 2);
    match (commands[0], commands[1]) {
        (Step::Run { command: first, .. }, Step::Run { command: second, .. }) => {
            assert_eq!(first.args[2], Executable::Cli.cargo_package_name());
            assert_eq!(second.args[2], Executable::App.cargo_package_name());
        }
        _ => unreachable!(),
    }
    assert_eq!(post_process(&linux, &options), Vec::new());

    let windows_options = BundleOptions::new(resolved(Target::X8664pcWindowsMsvc));
    let windows = bundler(&windows_options.options);
    let steps = compile_executables(&windows, &windows_options, None).unwrap();
    assert_eq!(steps.len(), 2 * (4 + 4));
    assert!(matches!(steps[0], Step::CreateDirectories { .. }));
    assert!(matches!(steps[7], Step::Run { .. }));
    let after = post_process(&windows, &windows_options);
    assert_eq!(after.len(), 4);
    assert!(matches!(after[1], Step::Run { .. }));
    assert!(matches!(after[3], Step::Run { .. }));
}

#[test]
fn the_description_of_a_build_is_written_once() {
    let options = BundleOptions::new(resolved(Target::X8664UnknownlinuxGNU));
    let linux = bundler(&options.options);
    let directories = Step::CreateDirectories { path: "bundle/Sample/share".to_string() };
    let variable = Step::SetVariable {
        name: "APP_BUILD_INFO".to_string(),
        value: "target/debug/build-info.json".to_string(),
    };
    let write = Step::WriteFile {
        path: "target/debug/build-info.json".to_string(),
        contents: "{\"a\": 1}".to_string(),
    };
    assert_eq!(
        export_build_info(&linux, &options, "{\"a\": 1}", None),
        vec![directories.clone(), write.clone(), variable.clone()]
    );
    assert_eq!(
        export_build_info(&linux, &options, "{\"a\": 1}", Some("{\"a\": 2}")),
        vec![directories.clone(), write, variable.clone()]
    );
    assert_eq!(
        export_build_info(&linux, &options, "{\"a\": 1}", Some("{\"a\": 1}")),
        vec![directories, variable]
    );
}

#[test]
fn the_tools_of_a_build_depend_on_target_and_host() {
    let tools = |target| required_tools(&BundleOptions::new(resolved(target)));
    assert_eq!(tools(Target::X8664UnknownlinuxGNU), vec!["cargo"]);
    assert_eq!(tools(Target::AArch64LinuxAndroid), vec!["cargo"]);
    assert_eq!(
        tools(Target::X8664pcWindowsMsvc),
        vec!["cargo", "rc.exe", "mt.exe", "editbin.exe"]
    );
    assert_eq!(tools(Target::AArch64appleDarwin), vec!["cargo"]);
    let mut on_mac = resolved(Target::AArch64appleDarwin);
    on_mac.host = Target::X8664appleDarwin;
    assert_eq!(
        required_tools(&BundleOptions::new(on_mac)),
        vec!["cargo", "install_name_tool"]
    );
}

#[test]
fn only_a_windows_executable_embeds_an_icon() {
    let present = Inventory {
        entries: Vec::new(),
        icons: vec!["a.ico".to_string(), "b.icns".to_string()],
    };
    let with_icons = |target| {
        let mut options = resolved(target);
        options.icons = vec!["b.icns".to_string(), "a.ico".to_string()];
        BundleOptions::new(options)
    };
    assert_eq!(
        icon_to_embed(&with_icons(Target::X8664pcWindowsMsvc), &present),
        Some("a.ico".to_string())
    );
    assert_eq!(icon_to_embed(&with_icons(Target::AArch64appleDarwin), &present), None);
    assert_eq!(icon_to_embed(&with_icons(Target::X8664UnknownlinuxGNU), &present), None);
    let absent = Inventory { entries: Vec::new(), icons: Vec::new() };
    assert_eq!(icon_to_embed(&with_icons(Target::X8664pcWindowsMsvc), &absent), None);
}

use app_bundler::steps::{
    append_steps, copy_contents, copy_file, copy_into, copy_into_if_present,
    create_directories, create_directory, no_steps, push_step, remove_directory, remove_file,
    rewrite_search_paths, run, run_in, set_variable, write_file,
};
use app_bundler::templates::{
    bind, document, render, Template, TemplateValue, INFO_PLIST, MANIFEST, RESOURCE,
};
use app_bundler::tools::CommandLine;
use app_bundler::{Error, Step};

#[test]
fn a_rendering_that_failed_is_reported_with_the_name_of_the_document() {
    assert_eq!(document(Template::Manifest, Some("text".to_string())), Ok("text".to_string()));
    let error = document(Template::InfoPlist, None).unwrap_err();
    assert_eq!(error, Error::Template { name: "Info.plist".to_string() });
    assert_eq!(error.message(), "Could not render Info.plist");
    assert_eq!(
        document(Template::Resource, None),
        Err(Error::Template { name: "resource script".to_string() })
    );
}

#[test]
fn the_templates_are_those_of_the_documents() {
    assert_eq!(Template::InfoPlist.as_str(), INFO_PLIST);
    assert_eq!(Template::Manifest.as_str(), MANIFEST);
    assert_eq!(Template::Resource.as_str(), RESOURCE);
    assert!(INFO_PLIST.contains("<string>{{bundle_identifier}}</string>"));
    assert!(INFO_PLIST.contains("\t<string>true</string>\n\t</dict>\n"));
    assert!(MANIFEST.contains("name=\"{{bundle_identifier}}\""));
    assert!(RESOURCE.starts_with("#include \"windows.h\"\n\n1 RT_MANIFEST"));
    assert!(RESOURCE.contains("{{{bundle_icon}}}"));
    assert!(RESOURCE.contains("VALUE \"CompanyName\", \"{{bundle_author}}\\0\"\n"));
    assert!(RESOURCE.ends_with("END\n"));
    assert_eq!(Template::Manifest.title(), "manifest");
}

#[test]
fn a_manifest_is_rendered_with_its_value_escaped() {
    let mut values = Vec::new();
    bind(&mut values, "bundle_identifier", "com.example.a&b");
    let rendered = render(Template::Manifest, &values).unwrap();
    assert!(rendered.contains("name=\"com.example.a&amp;b\"\n"));
    assert_eq!(rendered.len(), MANIFEST.len() - "{{bundle_identifier}}".len() + "com.example.a&amp;b".len());
}

#[test]
fn a_later_value_replaces_an_earlier_one_of_the_same_name() {
    let values = vec![
        TemplateValue::new("bundle_identifier", "first"),
        TemplateValue::new("bundle_identifier", "second"),
    ];
    let rendered = render(Template::Manifest, &values).unwrap();
    assert!(rendered.contains("name=\"second\"\n"));
    assert!(!rendered.contains("first"));
}

#[test]
fn a_value_that_is_not_given_renders_as_nothing() {
    let rendered = render(Template::InfoPlist, &Vec::new()).unwrap();
    assert!(rendered.contains("<key>CFBundleName</key>\n  <string></string>\n"));
    assert!(!rendered.contains("{{"));
}

#[test]
fn a_command_line_collects_its_arguments_in_order() {
    let mut command = CommandLine::new("make");
    command.arg("install");
    command.args(&vec!["-j".to_string(), "4".to_string()]);
    command.args(&Vec::new());
    assert_eq!(command.program, "make");
    assert_eq!(command.args, vec!["install", "-j", "4"]);
}

#[test]
fn steps_hold_what_they_were_made_of() {
    let mut steps = no_steps();
    push_step(&mut steps, remove_directory("a"));
    push_step(&mut steps, create_directories("b"));
    append_steps(
        &mut steps,
        vec![
            create_directory("c"),
            copy_file("d", "e"),
            copy_into("h", "i"),
            copy_into_if_present("j", "k"),
            copy_contents("l", "m"),
            write_file("n", "o"),
            set_variable("p", "q"),
            remove_file("r"),
            run(CommandLine::new("s"), "t"),
            run_in("u", CommandLine::new("v"), "w"),
            rewrite_search_paths("x", "y"),
        ],
    );
    let text = |s: &str| s.to_string();
    assert_eq!(
        steps,
        vec![
            Step::RemoveDirectory { path: text("a") },
            Step::CreateDirectories { path: text("b") },
            Step::CreateDirectory { path: text("c") },
            Step::CopyFile { from: text("d"), to: text("e") },
            Step::CopyInto { from: text("h"), directory: text("i") },
            Step::CopyIntoIfPresent { from: text("j"), directory: text("k") },
            Step::CopyContents { from: text("l"), directory: text("m") },
            Step::WriteFile { path: text("n"), contents: text("o") },
            Step::SetVariable { name: text("p"), value: text("q") },
            Step::RemoveFile { path: text("r") },
            Step::Run {
                command: CommandLine { program: text("s"), args: Vec::new() },
                failure: text("t")
            },
            Step::RunIn {
                directory: text("u"),
                command: CommandLine { program: text("v"), args: Vec::new() },
                failure: text("w")
            },
            Step::RewriteSearchPaths { binary: text("x"), subdirectory: text("y") },
        ]
    );
}

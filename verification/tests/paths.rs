use app_bundler::paths::{
    extension_of, file_name_of, has_extension, join, parent_of, replace_extension,
    replace_file_name,
};
use std::path::{Path, PathBuf};

fn std_join(base: &str, name: &str) -> String {
    PathBuf::from(base).join(name).to_str().unwrap().to_string()
}

fn std_file_name(path: &str) -> Option<String> {
    Path::new(path).file_name().map(|n| n.to_str().unwrap().to_string())
}

fn std_extension(path: &str) -> Option<String> {
    Path::new(path).extension().map(|n| n.to_str().unwrap().to_string())
}

const SAMPLES: [&str; 24] = [
    "", "/", "a", "a/", "a/b", "/a/b.txt", "a//b", "a/.", "a/./", ".", "./", "..", "a/..", "./a",
    "a/b.tar.gz", ".hidden", "a/.hidden", "name.", "a.b/c", "/usr/lib/libz.dylib",
    "@executable_path/Plugins/libz.dylib", "@rpath/libfoo.1.dylib", "//", "a/../b",
];

#[test]
fn join_agrees_with_the_standard_library() {
    let names = ["", "b", "b/c", "/abs", "x.y", "."];
    for base in SAMPLES.iter() {
        for name in names.iter() {
            assert_eq!(join(base, name), std_join(base, name), "{:?} {:?}", base, name);
        }
    }
}

#[test]
fn join_puts_one_separator_between() {
    assert_eq!(join("target", "debug"), "target/debug");
    assert_eq!(join("target/", "debug"), "target/debug");
    assert_eq!(join("", "debug"), "debug");
    assert_eq!(join("target", "/abs"), "/abs");
}

#[test]
fn file_name_agrees_with_the_standard_library() {
    for path in SAMPLES.iter() {
        assert_eq!(file_name_of(path), std_file_name(path), "{:?}", path);
    }
}

#[test]
fn file_name_skips_trailing_separators_and_dots() {
    assert_eq!(file_name_of("a/b/"), Some("b".to_string()));
    assert_eq!(file_name_of("a/b/."), Some("b".to_string()));
    assert_eq!(file_name_of("a/.."), None);
    assert_eq!(file_name_of("/"), None);
    assert_eq!(file_name_of(""), None);
}

#[test]
fn extension_agrees_with_the_standard_library() {
    for path in SAMPLES.iter() {
        assert_eq!(extension_of(path), std_extension(path), "{:?}", path);
    }
}

#[test]
fn extension_is_what_follows_the_last_dot() {
    assert_eq!(extension_of("lib/libz.dylib"), Some("dylib".to_string()));
    assert_eq!(extension_of("a.tar.gz"), Some("gz".to_string()));
    assert_eq!(extension_of(".hidden"), None);
    assert_eq!(extension_of("name."), Some("".to_string()));
    assert_eq!(extension_of("plain"), None);
    assert!(has_extension("icons/app.icns", "icns"));
    assert!(!has_extension("icons/app.icns", "ico"));
    assert!(!has_extension("icons/icns", "icns"));
}

#[test]
fn replace_extension_agrees_with_the_standard_library() {
    for path in SAMPLES.iter() {
        for ext in ["pdb", "", "tar.gz"].iter() {
            let expected = Path::new(path).with_extension(ext).to_str().unwrap().to_string();
            assert_eq!(replace_extension(path, ext), expected, "{:?} {:?}", path, ext);
        }
    }
}

#[test]
fn replace_file_name_keeps_the_directory() {
    assert_eq!(replace_file_name("a/b.txt", "c.bin"), "a/c.bin");
    assert_eq!(replace_file_name("b.txt", "c.bin"), "c.bin");
    assert_eq!(replace_file_name("/b.txt", "c.bin"), "/c.bin");
    assert_eq!(replace_file_name("a/b.txt", "/c.bin"), "/c.bin");
    assert_eq!(replace_file_name("a/..", "c"), "a/../c");
    for path in ["a/b", "b", "/b", "x/y/z.dylib", "a/b.txt"].iter() {
        let expected = Path::new(path).with_file_name("n.m").to_str().unwrap().to_string();
        assert_eq!(replace_file_name(path, "n.m"), expected, "{:?}", path);
    }
}

#[test]
fn parent_is_the_directory_of_the_file_name() {
    assert_eq!(parent_of("/ws/Cargo.toml"), Some("/ws".to_string()));
    assert_eq!(parent_of("/ws/Cargo.toml\n"), Some("/ws".to_string()));
    assert_eq!(parent_of("/Cargo.toml"), Some("/".to_string()));
    assert_eq!(parent_of("Cargo.toml"), Some("".to_string()));
    assert_eq!(parent_of("a//b"), Some("a".to_string()));
    assert_eq!(parent_of("/"), None);
    assert_eq!(parent_of(""), None);
    for path in ["/ws/Cargo.toml", "a/b", "b", "/b", "a//b"].iter() {
        let expected = Path::new(path).parent().map(|p| p.to_str().unwrap().to_string());
        assert_eq!(parent_of(path), expected, "{:?}", path);
    }
}

use app_bundler::text;
use app_bundler::text::{
    chars_of, clone_strings, contains_text, decimal_string, eq_ignore_ascii_case, replace_all,
    replace_char, starts_with, str_eq, string_of,
};

#[test]
fn characters_round_trip() {
    for text in ["", "a", "héllo wörld", "x86_64-apple-darwin"].iter() {
        assert_eq!(string_of(&chars_of(text)), *text);
    }
    assert_eq!(chars_of("ab"), vec!['a', 'b']);
}

#[test]
fn concat_appends() {
    assert_eq!(text::concat("Sample", ".app"), "Sample.app");
    assert_eq!(text::concat3("lib", "zlib", ".dylib"), "libzlib.dylib");
    assert_eq!(text::concat("", ""), "");
}

#[test]
fn str_eq_compares_characters() {
    assert!(str_eq("abc", "abc"));
    assert!(!str_eq("abc", "abd"));
    assert!(!str_eq("abc", "ab"));
    assert!(str_eq("", ""));
}

#[test]
fn case_is_ignored_for_ascii_letters_only() {
    assert!(eq_ignore_ascii_case("X86_64-Apple-Darwin", "x86_64-apple-darwin"));
    assert!(eq_ignore_ascii_case("GIT", "git"));
    assert!(!eq_ignore_ascii_case("git", "gi"));
    assert!(!eq_ignore_ascii_case("É", "é"));
    assert!(!eq_ignore_ascii_case("a@", "a`"));
    for (a, b) in [("Hello", "hELLO"), ("[", "{"), ("Z", "z"), ("a-b", "A_B")].iter() {
        assert_eq!(eq_ignore_ascii_case(a, b), a.eq_ignore_ascii_case(b), "{:?} {:?}", a, b);
    }
}

#[test]
fn starts_with_looks_at_the_beginning() {
    assert!(starts_with("/usr/lib", "/"));
    assert!(!starts_with("@rpath/lib", "/"));
    assert!(starts_with("abc", ""));
    assert!(!starts_with("", "/"));
    assert!(!starts_with("ab", "abc"));
}

#[test]
fn decimal_has_no_leading_zero() {
    assert_eq!(decimal_string(0), "0");
    assert_eq!(decimal_string(7), "7");
    assert_eq!(decimal_string(10), "10");
    assert_eq!(decimal_string(16000000), "16000000");
    assert_eq!(decimal_string(u64::MAX), "18446744073709551615");
    for n in [1u64, 9, 99, 100, 255, 256, 1234567890].iter() {
        assert_eq!(decimal_string(*n), n.to_string());
    }
}

#[test]
fn replace_char_replaces_every_occurrence() {
    assert_eq!(replace_char("my_app-cli.exe", '-', '_'), "my_app_cli.exe");
    assert_eq!(replace_char("a-b-c", '-', '_'), "a_b_c");
    assert_eq!(replace_char("abc", '-', '_'), "abc");
    assert_eq!(replace_char("", '-', '_'), "");
}

#[test]
fn replace_all_agrees_with_the_standard_library() {
    let texts = ["", "-MD", "cl -MD -MDd x", "aaaa", "abcabc", "@echo a\n@echo b", "xyz"];
    let patterns = ["-MD", "aa", "abc", "@echo", "z", "nothing"];
    let replacements = ["-MT", "", "aaa", "@coreutils echo"];
    for text in texts.iter() {
        for pattern in patterns.iter() {
            for replacement in replacements.iter() {
                assert_eq!(
                    replace_all(text, pattern, replacement),
                    text.replace(pattern, replacement),
                    "{:?} {:?} {:?}",
                    text,
                    pattern,
                    replacement
                );
            }
        }
    }
}

#[test]
fn replace_all_goes_on_behind_what_it_found() {
    assert_eq!(replace_all("aaa", "aa", "b"), "ba");
    assert_eq!(replace_all("abab", "ab", "aba"), "abaaba");
    assert_eq!(replace_all("text", "", "x"), "text");
}

#[test]
fn lists_of_strings() {
    let list = vec!["a.icns".to_string(), "b.ico".to_string()];
    assert_eq!(clone_strings(&list), list);
    assert!(contains_text(&list, "b.ico"));
    assert!(!contains_text(&list, "b.icns"));
    assert!(!contains_text(&Vec::new(), ""));
}

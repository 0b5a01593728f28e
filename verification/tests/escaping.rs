use core_grant::escape::escape;
use core_grant::escape::escape_for_apple_script;
use core_grant::escape::escape_single;
use core_grant::escape::escape_with;

#[test]
fn doubled_backslash_before_each_space() {
    assert_eq!(
        escape("/Applications/Clash Verge.app/Contents/MacOS/clash"),
        "/Applications/Clash\\\\ Verge.app/Contents/MacOS/clash"
    );
}

#[test]
fn single_backslash_before_each_space() {
    assert_eq!(escape_single("/opt/my core/clash"), "/opt/my\\ core/clash");
}

#[test]
fn every_space_gets_exactly_one_backslash() {
    let out = escape_single("a b c  d");
    assert_eq!(out, "a\\ b\\ c\\ \\ d");
    let chars: Vec<char> = out.chars().collect();
    for i in 0..chars.len() {
        if chars[i] == ' ' {
            assert!(i >= 1 && chars[i - 1] == '\\');
            assert!(i < 2 || chars[i - 2] != '\\');
        }
    }
}

#[test]
fn every_space_gets_exactly_two_backslashes() {
    let out = escape("a b  c");
    assert_eq!(out, "a\\\\ b\\\\ \\\\ c");
    let chars: Vec<char> = out.chars().collect();
    for i in 0..chars.len() {
        if chars[i] == ' ' {
            assert!(i >= 2 && chars[i - 1] == '\\' && chars[i - 2] == '\\');
            assert!(i < 3 || chars[i - 3] != '\\');
        }
    }
}

#[test]
fn path_without_spaces_is_unchanged() {
    assert_eq!(escape("/opt/clash"), "/opt/clash");
    assert_eq!(escape_single("/opt/clash"), "/opt/clash");
}

#[test]
fn empty_path_stays_empty() {
    assert_eq!(escape(""), "");
    assert_eq!(escape_single(""), "");
    assert_eq!(escape_for_apple_script(""), "");
}

#[test]
fn quotes_escaped_for_apple_script() {
    assert_eq!(escape_for_apple_script("/tmp/we\"ird/app"), "/tmp/we\\\"ird/app");
    assert_eq!(escape_for_apple_script("/tmp/plain/app"), "/tmp/plain/app");
}

#[test]
fn escape_with_marks_only_the_target() {
    assert_eq!(escape_with("x yx", 'x', "_"), "_x y_x");
    assert_eq!(escape_with("no target", 'z', "_"), "no target");
}

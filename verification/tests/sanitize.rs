use branchgen::text::{blank, sanitize};

#[test]
fn sanitize_collapses_runs_and_lowercases() {
    assert_eq!(sanitize("  Fix   Bugs  "), "fix-bugs");
}

#[test]
fn sanitize_single_spaces_become_hyphens() {
    assert_eq!(sanitize("fix the bug"), "fix-the-bug");
}

#[test]
fn sanitize_mixed_whitespace_is_one_hyphen() {
    assert_eq!(sanitize("fix \t\n bug"), "fix-bug");
}

#[test]
fn sanitize_strips_trailing_hyphen_noise() {
    assert_eq!(sanitize("abc- -"), "abc");
    assert_eq!(sanitize("abc--"), "abc");
    assert_eq!(sanitize("abc - \n"), "abc");
}

#[test]
fn sanitize_result_has_no_whitespace() {
    let out = sanitize("  a  very \t messy \n answer  ");
    assert!(!out.contains(' '));
    assert!(!out.contains('\t'));
    assert!(!out.contains('\n'));
    assert_eq!(out, "a-very-messy-answer");
}

#[test]
fn sanitize_never_ends_in_hyphen() {
    for raw in ["x-", "x -", "x  - - ", "words here-  "] {
        let out = sanitize(raw);
        assert!(!out.ends_with('-'), "{raw:?} gave {out:?}");
    }
}

#[test]
fn sanitize_of_blank_input_is_empty() {
    assert_eq!(sanitize(""), "");
    assert_eq!(sanitize("   \n\t "), "");
}

#[test]
fn sanitize_is_idempotent_on_samples() {
    for raw in ["  Fix   Bugs  ", "a b c", "Already-Clean", "x -y- z ", ""] {
        let once = sanitize(raw);
        let twice = sanitize(&once);
        assert_eq!(once, twice, "not idempotent on {raw:?}");
    }
}

#[test]
fn blank_detects_whitespace_only_text() {
    assert!(blank(""));
    assert!(blank("   "));
    assert!(blank(" \t\r\n"));
    assert!(!blank(" x "));
    assert!(!blank("fix bug\nadd feature\n"));
}

#[test]
fn blank_covers_all_unicode_whitespace() {
    let exotic = "\u{000B}\u{000C}\u{0085}\u{00A0}\u{1680}\u{2000}\u{200A}\u{2028}\u{2029}\u{202F}\u{205F}\u{3000}";
    assert!(exotic.trim().is_empty());
    assert!(blank(exotic));
    assert!(!blank("\u{00A0}x\u{00A0}"));
}

#[test]
fn sanitize_collapses_unicode_whitespace_too() {
    assert_eq!(sanitize("fix\u{00A0}bug"), "fix-bug");
    assert_eq!(sanitize("\u{3000}Fix \u{2003} Bugs\u{000C}"), "fix-bugs");
}

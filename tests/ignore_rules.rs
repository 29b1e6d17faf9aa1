use paastel::ignore::{Dockerignore, PatternFault, MAX_PATTERN_LEN};

fn rules(text: &str) -> Dockerignore {
    Dockerignore::parse(text).expect("valid rules").expect("some rules")
}

#[test]
fn later_negation_wins() {
    let d = rules("*.log\n!keep.log\n");
    assert!(d.is_ignored("app.log"));
    assert!(!d.is_ignored("keep.log"));
    assert!(!d.is_ignored("notes.txt"));
}

#[test]
fn order_decides_between_opposite_rules() {
    let d = rules("!keep.log\n*.log\n");
    assert!(d.is_ignored("keep.log"));
}

#[test]
fn unmatched_path_is_included() {
    let d = rules("*.tmp\n");
    assert!(!d.is_ignored("src/main.rs"));
}

#[test]
fn directory_rules_cover_descendants_only() {
    let d = rules("build/\nnode_modules\n");
    assert!(d.is_ignored("build"));
    assert!(d.is_ignored("build/out.bin"));
    assert!(d.is_ignored("build/deep/er/file.o"));
    assert!(d.is_ignored("node_modules"));
    assert!(d.is_ignored("node_modules/pkg/index.js"));
    assert!(!d.is_ignored("node_modules.log"));
    assert!(!d.is_ignored("src/build.rs"));
}

#[test]
fn reinclude_inside_excluded_directory() {
    let d = rules("build\n!build/keep.txt\n");
    assert!(d.is_ignored("build/other.txt"));
    assert!(!d.is_ignored("build/keep.txt"));
}

#[test]
fn comments_blank_lines_and_spaces() {
    let d = rules("# comment\n\n   *.log   \r\n!  keep.log\n");
    assert!(d.is_ignored("x.log"));
    assert!(!d.is_ignored("keep.log"));
}

#[test]
fn file_without_rules_gives_none() {
    assert!(Dockerignore::parse("").unwrap().is_none());
    assert!(Dockerignore::parse("# only a comment\n\n  \n").unwrap().is_none());
}

#[test]
fn invalid_pattern_is_reported_with_its_line() {
    let err = match Dockerignore::parse("*.log\n  # fine\n  [abc  \n{x\n") {
        Err(e) => e,
        Ok(_) => panic!("the pattern should be refused"),
    };
    assert_eq!(err.line_number, 3);
    assert_eq!(err.line, "  [abc  ");
}

#[test]
fn overlong_pattern_is_refused() {
    let long = "a".repeat(MAX_PATTERN_LEN + 1);
    let text = format!("*.log\n{long}\n");
    match Dockerignore::parse(&text) {
        Err(e) => {
            assert_eq!(e.line_number, 2);
            assert!(matches!(e.cause, PatternFault::TooLong));
        }
        Ok(_) => panic!("the pattern should be refused"),
    }
}

#[test]
fn longest_pattern_is_taken() {
    let long = "a".repeat(MAX_PATTERN_LEN);
    let d = rules(&long);
    assert!(d.is_ignored(&long));
    assert!(!d.is_ignored("a"));
}

#[test]
fn refused_pattern_carries_globset_error() {
    match Dockerignore::parse("{a,b") {
        Err(e) => assert!(matches!(e.cause, PatternFault::Refused(_))),
        Ok(_) => panic!("the pattern should be refused"),
    }
}

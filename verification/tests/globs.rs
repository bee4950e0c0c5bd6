use watchrun::globs::{compile, first_relevant, is_relevant, CompileError};

#[test]
fn compile_ok_and_matching() {
    let m = compile(&vec!["**/*.txt".to_string()]).unwrap();
    assert!(m.is_match("a/b.txt"));
    assert!(m.is_match("notes.txt"));
    assert!(!m.is_match("a/b.rs"));
}

#[test]
fn compile_invalid_pattern_fails() {
    let r = compile(&vec!["a[".to_string()]);
    match r {
        Err(CompileError::Pattern { pattern, .. }) => assert_eq!(pattern, "a["),
        _ => panic!("an unclosed character class must fail to compile"),
    }
}

#[test]
fn compile_reports_first_invalid_pattern() {
    let r = compile(&vec!["*.rs".to_string(), "b[".to_string(), "c[".to_string()]);
    match r {
        Err(CompileError::Pattern { pattern, .. }) => assert_eq!(pattern, "b["),
        _ => panic!("the first invalid pattern must be reported"),
    }
}

#[test]
fn empty_pattern_list_matches_nothing() {
    let m = compile(&vec![]).unwrap();
    assert!(!m.is_match("anything"));
}

#[test]
fn ignore_dominates_watch() {
    let watch = compile(&vec!["**/*".to_string()]).unwrap();
    let ignore = compile(&vec!["**/secret/**".to_string()]).unwrap();
    assert!(watch.is_match("a/secret/b.txt"));
    assert!(!is_relevant(&watch, &ignore, "a/secret/b.txt"));
    assert!(is_relevant(&watch, &ignore, "a/open/b.txt"));
}

#[test]
fn glob_question_mark_and_class() {
    let m = compile(&vec!["file?.[ch]".to_string()]).unwrap();
    assert!(m.is_match("file1.c"));
    assert!(m.is_match("fileX.h"));
    assert!(!m.is_match("file12.c"));
    assert!(!m.is_match("file1.rs"));
}

#[test]
fn first_relevant_picks_first_matching_path() {
    let watch = compile(&vec!["**/*.txt".to_string()]).unwrap();
    let ignore = compile(&vec![]).unwrap();
    let batch = vec![
        "x.tmp".to_string(),
        "a.txt".to_string(),
        "b.txt".to_string(),
    ];
    assert_eq!(first_relevant(&batch, &watch, &ignore), Some(1));
}

#[test]
fn first_relevant_none_when_nothing_matches() {
    let watch = compile(&vec!["**/*.txt".to_string()]).unwrap();
    let ignore = compile(&vec![]).unwrap();
    let batch = vec!["x.tmp".to_string(), "y.rs".to_string()];
    assert_eq!(first_relevant(&batch, &watch, &ignore), None);
}

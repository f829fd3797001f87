use isolate::report::{ErrorChain, report_lines};

#[test]
fn report_renders_head_causes_and_backtrace() {
    let e = ErrorChain {
        head: "Could not exec clone(...)".to_string(),
        causes: vec!["EPERM: Operation not permitted".to_string()],
        backtrace: Some("stack backtrace: ...".to_string()),
    };
    let lines = report_lines(&e);
    assert_eq!(
        lines,
        vec![
            "error: Could not exec clone(...)".to_string(),
            "caused by: EPERM: Operation not permitted".to_string(),
            "backtrace: stack backtrace: ...".to_string(),
        ]
    );
}

#[test]
fn report_without_backtrace_has_no_backtrace_line() {
    let e = ErrorChain {
        head: "Could not open config.toml".to_string(),
        causes: vec![
            "No such file or directory".to_string(),
            "while loading the configuration".to_string(),
        ],
        backtrace: None,
    };
    let lines = report_lines(&e);
    assert_eq!(lines.len(), 3);
    assert_eq!(lines[0], "error: Could not open config.toml");
    assert_eq!(lines[1], "caused by: No such file or directory");
    assert_eq!(lines[2], "caused by: while loading the configuration");
}

#[test]
fn report_with_no_causes_is_just_the_head() {
    let e = ErrorChain {
        head: "boom".to_string(),
        causes: Vec::new(),
        backtrace: None,
    };
    assert_eq!(report_lines(&e), vec!["error: boom".to_string()]);
}

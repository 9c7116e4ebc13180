use stdinout::{diagnose_option, diagnose_result, failure_line};

#[test]
fn failure_line_joins_with_colon() {
    assert_eq!(failure_line("cannot open input", "No such file or directory"),
        "cannot open input: No such file or directory");
}

#[test]
fn failure_line_with_empty_parts() {
    assert_eq!(failure_line("", ""), ": ");
    assert_eq!(failure_line("msg", ""), "msg: ");
}

#[test]
fn result_success_is_unchanged() {
    let r: Result<Vec<u8>, String> = Ok(vec![1, 2, 3]);
    assert_eq!(diagnose_result(r, "should not appear"), Ok(vec![1, 2, 3]));
}

#[test]
fn result_failure_gives_message_and_description() {
    let r: Result<u32, String> = Err("permission denied".to_string());
    assert_eq!(
        diagnose_result(r, "cannot create output"),
        Err("cannot create output: permission denied".to_string())
    );
}

#[test]
fn option_present_is_unchanged() {
    assert_eq!(diagnose_option(Some(42i32), "missing"), Ok(42));
}

#[test]
fn option_absent_gives_message_only() {
    let r = diagnose_option(None::<i32>, "no argument given");
    assert_eq!(r, Err("no argument given".to_string()));
    assert!(!r.unwrap_err().contains(": "));
}

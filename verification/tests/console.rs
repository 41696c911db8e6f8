use rsjs::console::{error, log, trace};

fn args(v: &[&str]) -> Vec<String> {
    v.iter().map(|s| s.to_string()).collect()
}

#[test]
fn log_joins_with_spaces() {
    assert_eq!(log(&args(&["a", "1", "true"])), "a 1 true");
    assert_eq!(log(&args(&[])), "");
    assert_eq!(log(&args(&["only"])), "only");
}

#[test]
fn trace_appends_stack() {
    assert_eq!(trace(&args(&["x", "y"]), "at f"), "x y\nat f");
}

#[test]
fn error_prefers_js_stack() {
    assert_eq!(error(&args(&["boom"]), Some("at g".to_string()), "at f"), "Error: boom\nat g");
}

#[test]
fn error_falls_back_on_empty_or_missing_stack() {
    assert_eq!(error(&args(&["boom"]), Some(String::new()), "at f"), "Error: boom\nat f");
    assert_eq!(error(&args(&["a", "b"]), None, "at f"), "Error: a b\nat f");
}

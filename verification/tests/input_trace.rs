use lazygitrs::gui::input_trace::{target_from_env, trace_line, TraceTarget};

#[test]
fn target_from_env_disabled() {
    assert_eq!(target_from_env(None), None);
    assert_eq!(target_from_env(Some("")), None);
    assert_eq!(target_from_env(Some("0")), None);
}

#[test]
fn target_from_env_default_path() {
    for value in ["1", "true", "TRUE", "True"] {
        let target = target_from_env(Some(value)).expect(value);
        assert_eq!(
            target,
            TraceTarget::TempFile("lazygitrs-input-trace.log".to_string())
        );
    }
}

#[test]
fn target_from_env_custom_path() {
    assert_eq!(
        target_from_env(Some("/tmp/my-trace.log")),
        Some(TraceTarget::Path("/tmp/my-trace.log".to_string()))
    );
}

#[test]
fn trace_line_pads_milliseconds() {
    assert_eq!(trace_line(3, 7, "key", "Enter"), "[+3.007] key: Enter");
    assert_eq!(trace_line(12, 45, "env", "TERM=xterm"), "[+12.045] env: TERM=xterm");
    assert_eq!(trace_line(0, 999, "a", "b"), "[+0.999] a: b");
}

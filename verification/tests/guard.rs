use abort_on_panic::PanicGuard;
use abort_on_panic::diag::decimal_string;
use abort_on_panic::diag::default_message;
use abort_on_panic::diag::render_diagnostic;
use abort_on_panic::protected;
use abort_on_panic::protected_with_message;

#[test]
fn protected_returns_block_value() {
    let result = protected(|| "value");
    assert_eq!("value", result);
}

#[test]
fn protected_with_message_returns_block_value() {
    let result = protected_with_message("cannot panic inside FFI callbacks", || 40 + 2);
    assert_eq!(42, result);
}

#[test]
fn default_message_text() {
    assert_eq!(default_message(), "cannot unwind past stack frame");
}

#[test]
fn diagnostic_text_defaults_when_no_message() {
    let guard = PanicGuard::new();
    assert_eq!(guard.diagnostic_text(), "cannot unwind past stack frame");
}

#[test]
fn diagnostic_text_uses_custom_message() {
    let guard = PanicGuard::with_message("custom reason");
    assert_eq!(guard.diagnostic_text(), "custom reason");
}

#[test]
fn diagnostic_line_with_custom_message() {
    let guard = PanicGuard::with_message("db handle invalid");
    let line = guard.diagnostic_line("src/lib.rs", 12);
    assert_eq!(line.as_str(), "db handle invalid at src/lib.rs:12");
}

#[test]
fn diagnostic_line_with_default_message() {
    let guard = PanicGuard::new();
    let line = guard.diagnostic_line("main.rs", 7);
    assert_eq!(line.as_str(), "cannot unwind past stack frame at main.rs:7");
}

#[test]
fn render_diagnostic_exact_format() {
    let line = render_diagnostic("custom reason", "callbacks.rs", 301);
    assert_eq!(line.as_str(), "custom reason at callbacks.rs:301");
}

#[test]
fn decimal_rendering() {
    assert_eq!(decimal_string(0).as_str(), "0");
    assert_eq!(decimal_string(7).as_str(), "7");
    assert_eq!(decimal_string(10).as_str(), "10");
    assert_eq!(decimal_string(12345).as_str(), "12345");
    assert_eq!(decimal_string(u64::MAX).as_str(), "18446744073709551615");
}

#[test]
fn nested_guards_yield_inner_value() {
    let result = protected(|| protected_with_message("inner", || 5u32) + 1);
    assert_eq!(6, result);
}

#[test]
fn many_guards_on_success_path_are_no_ops() {
    let mut total: u64 = 0;
    let mut i: u64 = 0;
    while i < 100 {
        total = protected(|| total + 1);
        i += 1;
    }
    assert_eq!(total, 100);
    let nested = protected(|| protected(|| protected(|| "still here")));
    assert_eq!(nested, "still here");
}

#[test]
fn guards_constructed_and_dropped_in_sequence() {
    for _ in 0..50 {
        let _guard = PanicGuard::new();
    }
    for _ in 0..50 {
        let _guard = PanicGuard::with_message("loop guard");
    }
}

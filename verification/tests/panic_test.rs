use zk_fuzz_lab::cores::panic_test::{abort_message, run, PanicInput};

#[test]
fn test_no_panic() {
    let input = PanicInput {
        should_panic: false,
        panic_msg: None,
    };
    let output = run(input);
    assert_eq!(output.should_panic_u32, 0);
    assert_eq!(output.status_code, 0);
}

#[test]
fn abort_with_default_message() {
    let input = PanicInput {
        should_panic: true,
        panic_msg: None,
    };
    assert_eq!(abort_message(&input), Some("Intentional panic for testing".to_string()));
}

#[test]
fn abort_with_custom_message() {
    let input = PanicInput {
        should_panic: true,
        panic_msg: Some("Custom error message".to_string()),
    };
    assert_eq!(abort_message(&input), Some("Custom error message".to_string()));
}

#[test]
fn no_abort_without_request() {
    let input = PanicInput {
        should_panic: false,
        panic_msg: Some("unused".to_string()),
    };
    assert_eq!(abort_message(&input), None);
}

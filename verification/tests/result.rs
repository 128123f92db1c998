use dynamic_lambda::result::BxlResultError;
use dynamic_lambda::result::ErrorReport;
use dynamic_lambda::result::FrozenStarlarkResult;
use dynamic_lambda::result::StarlarkError;
use dynamic_lambda::result::StarlarkResult;
use dynamic_lambda::result::StarlarkResultGen;
use std::cell::Cell;

use starlark::values::FrozenHeap;
use starlark::values::Heap;

fn report(display: &str, debug: &str) -> ErrorReport {
    ErrorReport { display: display.to_owned(), debug: debug.to_owned() }
}

#[test]
fn success_is_ok() {
    let heap = Heap::new();
    let result: StarlarkResult = StarlarkResultGen::Success(heap.alloc(1));
    assert!(result.is_ok());
    let plain: StarlarkResultGen<u8> = StarlarkResultGen::Success(0);
    assert!(plain.is_ok());
}

#[test]
fn failure_is_not_ok() {
    let result: StarlarkResult = StarlarkResultGen::Failure(report("boom", "boom"));
    assert!(!result.is_ok());
}

#[test]
fn unwrap_of_success_is_the_payload() {
    let heap = Heap::new();
    let payload = heap.alloc("payload");
    let result: StarlarkResult = StarlarkResultGen::Success(payload);
    let value = result.unwrap().unwrap();
    assert!(value.ptr_eq(payload));
    assert_eq!(value.unpack_str(), Some("payload"));
}

#[test]
fn unwrap_of_frozen_success_is_the_payload_as_a_value() {
    let frozen_heap = FrozenHeap::new();
    let payload = frozen_heap.alloc_str("payload").to_frozen_value();
    let result: FrozenStarlarkResult = StarlarkResultGen::Success(payload);
    let value = result.unwrap().unwrap();
    assert_eq!(value.unpack_frozen(), Some(payload));
    assert_eq!(value.unpack_str(), Some("payload"));
}

#[test]
fn unwrap_of_failure_carries_the_error() {
    let error = report("boom", "boom\n\nCaused by:\n    fuse");
    let result: StarlarkResult = StarlarkResultGen::Failure(error.clone());
    let failure = result.unwrap().unwrap_err();
    assert_eq!(failure, BxlResultError::UnwrapOnError(error));
    assert_eq!(failure.message(), "called `bxl.Result.unwrap()` on an `Err` value: boom");
}

#[test]
fn unwrap_err_of_failure_keeps_the_debug_text() {
    let error = report("boom", "boom\n\nCaused by:\n    fuse");
    let result: StarlarkResult = StarlarkResultGen::Failure(error.clone());
    let value = result.unwrap_err().unwrap();
    assert_eq!(value, StarlarkError { err: error });
    assert_eq!(value.message(), "boom\n\nCaused by:\n    fuse");
}

#[test]
fn unwrap_err_of_success_shows_the_payload() {
    let heap = Heap::new();
    let result: StarlarkResult = StarlarkResultGen::Success(heap.alloc(42));
    let failure = result.unwrap_err().unwrap_err();
    assert_eq!(failure, BxlResultError::UnwrapErrOnOk("42".to_owned()));
    assert_eq!(failure.message(), "called `bxl.Result.unwrap_err()` on an `Ok` value: 42");
}

#[test]
fn unwrap_err_of_frozen_success_shows_the_payload() {
    let frozen_heap = FrozenHeap::new();
    let payload = frozen_heap.alloc_str("text").to_frozen_value();
    let result: FrozenStarlarkResult = StarlarkResultGen::Success(payload);
    let failure = result.unwrap_err().unwrap_err();
    assert_eq!(
        failure.message(),
        "called `bxl.Result.unwrap_err()` on an `Ok` value: \"text\""
    );
}

#[test]
fn boom_scenario() {
    let result: StarlarkResult = StarlarkResultGen::from_result(Err(anyhow::Error::msg("boom")));
    assert!(!result.is_ok());
    let failure = result.unwrap().unwrap_err();
    match &failure {
        BxlResultError::UnwrapOnError(cause) => assert!(cause.display.contains("boom")),
        BxlResultError::UnwrapErrOnOk(_) => panic!("not the misuse that happened"),
    }
    assert!(failure.message().contains("boom"));
    assert!(result.unwrap_err().unwrap().message().contains("boom"));
}

#[test]
fn from_result_keeps_chained_causes() {
    let error = anyhow::Error::msg("fuse").context("boom");
    let result: StarlarkResultGen<u8> = StarlarkResultGen::from_result(Err(error));
    match result {
        StarlarkResultGen::Failure(error) => {
            assert_eq!(error.display, "boom");
            assert!(error.debug.starts_with("boom\n\nCaused by:\n    fuse"));
        }
        StarlarkResultGen::Success(_) => panic!("an error went in"),
    }
}

#[test]
fn from_result_keeps_the_payload() {
    let result: StarlarkResultGen<u8> = StarlarkResultGen::from_result(Ok(5));
    assert!(result.is_ok());
    match result {
        StarlarkResultGen::Success(payload) => assert_eq!(payload, 5),
        StarlarkResultGen::Failure(_) => panic!("a payload went in"),
    }
}

#[test]
fn success_displays_its_payload() {
    let heap = Heap::new();
    let number: StarlarkResult = StarlarkResultGen::Success(heap.alloc(42));
    assert_eq!(number.to_string(), "Result(Ok = 42)");
    let text: StarlarkResult = StarlarkResultGen::Success(heap.alloc("a"));
    assert_eq!(text.to_string(), "Result(Ok = \"a\")");
    let list: StarlarkResult = StarlarkResultGen::Success(heap.alloc(vec![1, 2]));
    assert_eq!(list.to_string(), "Result(Ok = [1, 2])");
}

#[test]
fn failure_displays_its_quoted_debug_text() {
    let result: StarlarkResult =
        StarlarkResultGen::Failure(report("boom", "boom\n\nCaused by:\n    \"fuse\""));
    assert_eq!(
        result.to_string(),
        "Result(Err = \"boom\\n\\nCaused by:\\n    \\\"fuse\\\"\")"
    );
    let frozen: FrozenStarlarkResult = StarlarkResultGen::Failure(report("boom", "boom"));
    assert_eq!(frozen.to_string(), "Result(Err = \"boom\")");
}

#[test]
fn error_value_displays_its_quoted_debug_text() {
    let value = StarlarkError { err: report("boom", "boom\ttab") };
    assert_eq!(value.to_string(), "bx.Error(\"boom\\ttab\")");
    assert_eq!(value.message(), "boom\ttab");
}

#[test]
fn misuse_messages() {
    let on_error = BxlResultError::UnwrapOnError(report("outer", "outer\n\nCaused by:\n    inner"));
    assert_eq!(on_error.message(), "called `bxl.Result.unwrap()` on an `Err` value: outer");
    let on_ok = BxlResultError::UnwrapErrOnOk("[1, 2]".to_owned());
    assert_eq!(on_ok.message(), "called `bxl.Result.unwrap_err()` on an `Ok` value: [1, 2]");
    let empty = BxlResultError::UnwrapErrOnOk(String::new());
    assert_eq!(empty.message(), "called `bxl.Result.unwrap_err()` on an `Ok` value: ");
}

#[test]
fn a_copied_report_equals_the_report() {
    let error = report("boom", "boom\n\nCaused by:\n    fuse");
    let copy = error.clone();
    assert_eq!(copy, error);
    assert_eq!(copy.display, "boom");
    assert_eq!(copy.debug, "boom\n\nCaused by:\n    fuse");
}

#[test]
fn success_displays_as_its_payload_is_shown() {
    let result: StarlarkResultGen<u8> = StarlarkResultGen::Success(5);
    assert_eq!(result.to_string_with(|n| format!("<{}>", n)), "Result(Ok = <5>)");
    assert_eq!(result.to_string_with(|_| String::new()), "Result(Ok = )");
}

#[test]
fn failure_displays_without_showing_a_payload() {
    let calls = Cell::new(0);
    let result: StarlarkResultGen<u8> = StarlarkResultGen::Failure(report("boom", "boom's \\ cause"));
    let text = result.to_string_with(|n| {
        calls.set(calls.get() + 1);
        n.to_string()
    });
    assert_eq!(text, "Result(Err = \"boom's \\\\ cause\")");
    assert_eq!(calls.get(), 0);
}

#[test]
fn unwrap_err_with_holds_the_payload_as_shown() {
    let result: StarlarkResultGen<u8> = StarlarkResultGen::Success(5);
    let failure = result.unwrap_err_with(|n| format!("<{}>", n)).unwrap_err();
    assert_eq!(failure, BxlResultError::UnwrapErrOnOk("<5>".to_owned()));
    assert_eq!(failure.message(), "called `bxl.Result.unwrap_err()` on an `Ok` value: <5>");
}

#[test]
fn unwrap_err_with_does_not_show_a_failure() {
    let calls = Cell::new(0);
    let error = report("boom", "boom");
    let result: StarlarkResultGen<u8> = StarlarkResultGen::Failure(error.clone());
    let value = result
        .unwrap_err_with(|n| {
            calls.set(calls.get() + 1);
            n.to_string()
        })
        .unwrap();
    assert_eq!(value, StarlarkError { err: error });
    assert_eq!(calls.get(), 0);
}

#[test]
fn from_reported_keeps_both_sides() {
    let success: StarlarkResultGen<u8> = StarlarkResultGen::from_reported(Ok(5));
    match success {
        StarlarkResultGen::Success(payload) => assert_eq!(payload, 5),
        StarlarkResultGen::Failure(_) => panic!("a payload went in"),
    }
    let failure: StarlarkResultGen<u8> = StarlarkResultGen::from_reported(Err(report("boom", "bang")));
    match failure {
        StarlarkResultGen::Failure(error) => assert_eq!(error, report("boom", "bang")),
        StarlarkResultGen::Success(_) => panic!("an error went in"),
    }
}

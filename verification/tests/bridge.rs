use extism_py::bridge::{
    complete, error_text, Arg, CallArgumentStack, CallOutcome, CallValue, Completion, DispatchKind,
};

#[test]
fn a_new_stack_has_no_frame() {
    assert_eq!(CallArgumentStack::new().depth(), 0);
}

#[test]
fn nested_calls_keep_their_frames_apart() {
    let mut stack = CallArgumentStack::new();
    stack.begin();
    stack.push(Arg::Int(1));
    stack.begin();
    stack.push(Arg::Int(2));
    assert_eq!(stack.depth(), 2);
    assert_eq!(
        stack.dispatch(5, true),
        vec![CallValue::Index(5), CallValue::Flag(true), CallValue::Int(2)]
    );
    assert_eq!(stack.depth(), 1);
    assert_eq!(
        stack.dispatch(3, false),
        vec![CallValue::Index(3), CallValue::Flag(false), CallValue::Int(1)]
    );
    assert_eq!(stack.depth(), 0);
}

#[test]
fn a_call_below_is_left_alone_by_calls_above() {
    let mut stack = CallArgumentStack::new();
    stack.begin();
    stack.push_i64(10);
    for round in 0..3 {
        stack.begin();
        stack.push_i32(round);
        stack.begin();
        assert_eq!(stack.dispatch(0, false), vec![CallValue::Index(0), CallValue::Flag(false)]);
        stack.push_i32(round + 100);
        assert_eq!(
            stack.dispatch(1, false),
            vec![
                CallValue::Index(1),
                CallValue::Flag(false),
                CallValue::Int(round as i64),
                CallValue::Int(round as i64 + 100)
            ]
        );
        assert_eq!(stack.depth(), 1);
    }
    stack.push_i64(11);
    assert_eq!(
        stack.dispatch(9, true),
        vec![CallValue::Index(9), CallValue::Flag(true), CallValue::Int(10), CallValue::Int(11)]
    );
}

#[test]
fn arguments_are_widened_and_kept_in_order() {
    let mut stack = CallArgumentStack::new();
    stack.begin();
    stack.push_i32(-1);
    stack.push_i64(i64::MIN);
    stack.push_float((1.5f32 as f64).to_bits());
    stack.push_float(f64::MAX.to_bits());
    stack.push_i32(i32::MAX);
    assert_eq!(
        stack.dispatch(u32::MAX, false),
        vec![
            CallValue::Index(u32::MAX),
            CallValue::Flag(false),
            CallValue::Int(-1),
            CallValue::Int(i64::MIN),
            CallValue::Float(1.5f64.to_bits()),
            CallValue::Float(f64::MAX.to_bits()),
            CallValue::Int(2147483647)
        ]
    );
}

#[test]
fn a_call_without_arguments_hands_over_index_and_flag() {
    let mut stack = CallArgumentStack::new();
    stack.begin();
    assert_eq!(stack.dispatch(0, false), vec![CallValue::Index(0), CallValue::Flag(false)]);
}

#[test]
fn an_exception_gives_the_sentinel_and_the_error_text() {
    let raised = || CallOutcome::Raised {
        message: "ValueError: bad".to_string(),
        traceback: Some("Traceback (most recent call last):\n  line 1".to_string()),
    };
    let text = "ValueError: bad\nTraceback (most recent call last):\n  line 1".to_string();
    assert_eq!(
        complete(DispatchKind::Int32, raised()),
        Completion { result: -1, error: Some(text.clone()) }
    );
    assert_eq!(
        complete(DispatchKind::Int64, raised()),
        Completion { result: -1, error: Some(text.clone()) }
    );
    assert_eq!(complete(DispatchKind::NoResult, raised()), Completion { result: 0, error: Some(text) });
}

#[test]
fn an_exception_without_traceback_leaves_its_message() {
    let outcome = CallOutcome::Raised { message: "boom".to_string(), traceback: None };
    assert_eq!(
        complete(DispatchKind::Int32, outcome),
        Completion { result: -1, error: Some("boom".to_string()) }
    );
    assert_eq!(error_text("boom".to_string(), None), "boom");
    assert_eq!(error_text("boom".to_string(), Some("trace".to_string())), "boom\ntrace");
    assert_eq!(error_text(String::new(), Some(String::new())), "\n");
}

#[test]
fn a_returned_integer_is_the_result() {
    assert_eq!(
        complete(DispatchKind::Int32, CallOutcome::Value(3)),
        Completion { result: 3, error: None }
    );
    assert_eq!(
        complete(DispatchKind::Int64, CallOutcome::Value(i64::MIN)),
        Completion { result: i64::MIN, error: None }
    );
    assert_eq!(
        complete(DispatchKind::NoResult, CallOutcome::Value(3)),
        Completion { result: 0, error: None }
    );
}

#[test]
fn what_does_not_fit_the_result_type_gives_zero() {
    assert_eq!(
        complete(DispatchKind::Int32, CallOutcome::Value(i32::MAX as i64 + 1)),
        Completion { result: 0, error: None }
    );
    assert_eq!(
        complete(DispatchKind::Int32, CallOutcome::Value(i32::MIN as i64 - 1)),
        Completion { result: 0, error: None }
    );
    assert_eq!(
        complete(DispatchKind::Int32, CallOutcome::Value(i32::MIN as i64)),
        Completion { result: i32::MIN as i64, error: None }
    );
    assert_eq!(
        complete(DispatchKind::Int32, CallOutcome::Value(i32::MAX as i64)),
        Completion { result: i32::MAX as i64, error: None }
    );
    assert_eq!(
        complete(DispatchKind::Int32, CallOutcome::NoValue),
        Completion { result: 0, error: None }
    );
    assert_eq!(
        complete(DispatchKind::Int64, CallOutcome::NoValue),
        Completion { result: 0, error: None }
    );
}

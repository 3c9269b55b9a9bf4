use serde_json::Value;
use srvcs_movingaverage::evaluation::{begin, Progress};
use srvcs_movingaverage::reply::{
    ask, degraded, forward, malformed, ok, unprocessable, DependencyReply, Reply, ReplyBody,
    DEPENDENCY_MALFORMED, DEPENDENCY_UNAVAILABLE, WINDOW_TOO_LARGE, WINDOW_TOO_SMALL,
};

/// How a simulated dependency behaves.
enum Dep {
    /// Sums the integer values of the window, or divides `a` by `b`.
    Computing,
    /// Cannot be reached.
    Dead,
    /// Always answers with this status and body.
    Fixed(u16, Value),
    /// Answers `200` with a body that has no `result`.
    NoResult,
}

fn with_result(result: Value) -> Value {
    let mut body = serde_json::Map::new();
    body.insert("result".to_string(), result);
    Value::Object(body)
}

fn reply_of<R>(status: u16, body: Value, read: fn(&Value) -> Option<R>) -> DependencyReply<R, Value> {
    let result = body.get("result").and_then(read);
    DependencyReply::Answered { status, result, body }
}

fn call_sum(dep: &Dep, window: &[Value], log: &mut Vec<String>) -> DependencyReply<i64, Value> {
    log.push(format!("sum {:?}", window));
    match dep {
        Dep::Computing => {
            let sum: i64 = window.iter().filter_map(Value::as_i64).sum();
            reply_of(200, with_result(Value::from(sum)), Value::as_i64)
        }
        Dep::Dead => DependencyReply::Unreachable,
        Dep::Fixed(status, body) => reply_of(*status, body.clone(), Value::as_i64),
        Dep::NoResult => reply_of(200, Value::Object(serde_json::Map::new()), Value::as_i64),
    }
}

fn call_divide(dep: &Dep, a: i64, b: i64, log: &mut Vec<String>) -> DependencyReply<f64, Value> {
    log.push(format!("divide {} {}", a, b));
    match dep {
        Dep::Computing => reply_of(200, with_result(Value::from(a as f64 / b as f64)), Value::as_f64),
        Dep::Dead => DependencyReply::Unreachable,
        Dep::Fixed(status, body) => reply_of(*status, body.clone(), Value::as_f64),
        Dep::NoResult => reply_of(200, Value::Object(serde_json::Map::new()), Value::as_f64),
    }
}

/// Drives an evaluation against two simulated dependencies, logging each call.
fn eval(sum: &Dep, div: &Dep, values: Vec<Value>, window: i64) -> (Reply<Value, f64>, Vec<String>) {
    let mut log = Vec::new();
    let mut progress = begin(values, window);
    loop {
        progress = match progress {
            Progress::AskSum { sum_pending, start, end } => {
                let reply = call_sum(sum, &sum_pending.values()[start..end], &mut log);
                sum_pending.on_sum(reply)
            }
            Progress::AskDivide { quotient_pending, a, b } => {
                let reply = call_divide(div, a, b, &mut log);
                quotient_pending.on_quotient(reply)
            }
            Progress::Finished(reply) => return (reply, log),
        }
    }
}

fn ints(xs: &[i64]) -> Vec<Value> {
    xs.iter().map(|x| Value::from(*x)).collect()
}

fn approx_list(got: &[f64], expected: &[f64]) -> bool {
    got.len() == expected.len() && got.iter().zip(expected).all(|(g, e)| (g - e).abs() < 1e-9)
}

fn averages(reply: &Reply<Value, f64>) -> (&Vec<Value>, i64, &Vec<f64>) {
    match &reply.body {
        ReplyBody::Averages { values, window, result } => (values, *window, result),
        _ => panic!("not an averages body"),
    }
}

fn dependency_error(reply: &Reply<Value, f64>) -> (&'static str, &'static str) {
    match &reply.body {
        ReplyBody::DependencyError { error, dependency } => (error, dependency),
        _ => panic!("not a dependency error"),
    }
}

fn error_of(reply: &Reply<Value, f64>) -> &'static str {
    match &reply.body {
        ReplyBody::Error { error } => error,
        _ => panic!("not an error body"),
    }
}

#[test]
fn canonical_window_two() {
    let (reply, _) = eval(&Dep::Computing, &Dep::Computing, ints(&[1, 2, 3, 4]), 2);
    assert_eq!(reply.status, 200);
    let (values, window, result) = averages(&reply);
    assert!(approx_list(result, &[1.5, 2.5, 3.5]), "got {:?}", result);
    assert_eq!(values, &ints(&[1, 2, 3, 4]));
    assert_eq!(window, 2);
}

#[test]
fn window_one_is_each_element() {
    let (reply, _) = eval(&Dep::Computing, &Dep::Computing, ints(&[2, 4, 6]), 1);
    assert_eq!(reply.status, 200);
    let (_, _, result) = averages(&reply);
    assert!(approx_list(result, &[2.0, 4.0, 6.0]), "got {:?}", result);
}

#[test]
fn window_equals_len_is_single_mean() {
    let (reply, _) = eval(&Dep::Computing, &Dep::Computing, ints(&[1, 2, 3, 4]), 4);
    assert_eq!(reply.status, 200);
    let (_, _, result) = averages(&reply);
    assert!(approx_list(result, &[2.5]), "got {:?}", result);
}

#[test]
fn window_three_over_five() {
    // [10,20,30,40,50] window 3 -> [20, 30, 40]
    let (reply, _) = eval(&Dep::Computing, &Dep::Computing, ints(&[10, 20, 30, 40, 50]), 3);
    assert_eq!(reply.status, 200);
    let (_, _, result) = averages(&reply);
    assert!(approx_list(result, &[20.0, 30.0, 40.0]), "got {:?}", result);
}

#[test]
fn handles_negatives() {
    // [-2, 0, 2, 4] window 2 -> [-1, 1, 3]
    let (reply, _) = eval(&Dep::Computing, &Dep::Computing, ints(&[-2, 0, 2, 4]), 2);
    assert_eq!(reply.status, 200);
    let (_, _, result) = averages(&reply);
    assert!(approx_list(result, &[-1.0, 1.0, 3.0]), "got {:?}", result);
}

#[test]
fn window_zero_is_422_with_no_calls() {
    let (reply, log) = eval(&Dep::Dead, &Dep::Dead, ints(&[1, 2, 3]), 0);
    assert_eq!(reply.status, 422);
    assert_eq!(error_of(&reply), "window must be >= 1");
    assert!(log.is_empty());
}

#[test]
fn window_too_large_is_422_with_no_calls() {
    let (reply, log) = eval(&Dep::Dead, &Dep::Dead, ints(&[1, 2, 3]), 4);
    assert_eq!(reply.status, 422);
    assert_eq!(error_of(&reply), "window must be <= values.len()");
    assert!(log.is_empty());
}

#[test]
fn forwards_422_from_sum() {
    let mut rejection = serde_json::Map::new();
    rejection.insert("error".to_string(), Value::from("value is not a number"));
    let sum = Dep::Fixed(422, Value::Object(rejection));
    let values = vec![Value::from(1), Value::from("nope"), Value::from(3)];
    let (reply, _) = eval(&sum, &Dep::Computing, values, 2);
    assert_eq!(reply.status, 422);
    match &reply.body {
        ReplyBody::Verbatim(body) => assert_eq!(body["error"], "value is not a number"),
        _ => panic!("not forwarded"),
    }
}

#[test]
fn degrades_when_sum_unreachable() {
    let (reply, _) = eval(&Dep::Dead, &Dep::Computing, ints(&[1, 2, 3]), 2);
    assert_eq!(reply.status, 503);
    assert_eq!(dependency_error(&reply).1, "srvcs-sum");
}

#[test]
fn degrades_when_floatdivide_unreachable() {
    let (reply, _) = eval(&Dep::Computing, &Dep::Dead, ints(&[1, 2, 3]), 2);
    assert_eq!(reply.status, 503);
    assert_eq!(dependency_error(&reply).1, "srvcs-floatdivide");
}

// --- Laws on concrete values ---

#[test]
fn windows_are_asked_in_order_then_divided_by_the_window() {
    let (reply, log) = eval(&Dep::Computing, &Dep::Computing, ints(&[1, 2, 3, 4]), 2);
    assert_eq!(reply.status, 200);
    assert_eq!(
        log,
        vec![
            "sum [Number(1), Number(2)]",
            "divide 3 2",
            "sum [Number(2), Number(3)]",
            "divide 5 2",
            "sum [Number(3), Number(4)]",
            "divide 7 2",
        ]
    );
}

#[test]
fn averages_are_the_divide_results_in_window_order() {
    // A divide dependency that answers with `a * 10 + b`, to see which quotient goes where.
    let mut log = Vec::new();
    let mut progress = begin::<Value, f64>(ints(&[5, 1, 7]), 2);
    let mut seen = Vec::new();
    loop {
        progress = match progress {
            Progress::AskSum { sum_pending, start, end } => {
                let reply = call_sum(&Dep::Computing, &sum_pending.values()[start..end], &mut log);
                sum_pending.on_sum(reply)
            }
            Progress::AskDivide { quotient_pending, a, b } => {
                seen.push((a, b));
                let q = (a * 10 + b) as f64;
                quotient_pending.on_quotient(DependencyReply::Answered {
                    status: 200,
                    result: Some(q),
                    body: Value::Null,
                })
            }
            Progress::Finished(reply) => {
                assert_eq!(reply.status, 200);
                assert_eq!(averages(&reply).2, &vec![62.0, 82.0]);
                break;
            }
        }
    }
    assert_eq!(seen, vec![(6, 2), (8, 2)]);
}

#[test]
fn every_window_of_the_values_is_asked_once() {
    let values = ints(&[1, 2, 3, 4, 5, 6, 7]);
    for window in 1..=7i64 {
        let (reply, log) = eval(&Dep::Computing, &Dep::Computing, values.clone(), window);
        assert_eq!(reply.status, 200);
        let count = 7 - window as usize + 1;
        assert_eq!(averages(&reply).2.len(), count);
        assert_eq!(log.len(), 2 * count);
    }
}

#[test]
fn negative_window_is_422() {
    let (reply, log) = eval(&Dep::Dead, &Dep::Dead, ints(&[1]), -5);
    assert_eq!(reply.status, 422);
    assert_eq!(error_of(&reply), WINDOW_TOO_SMALL);
    assert!(log.is_empty());
}

#[test]
fn empty_values_are_422() {
    let (reply, log) = eval(&Dep::Dead, &Dep::Dead, Vec::new(), 1);
    assert_eq!(reply.status, 422);
    assert_eq!(error_of(&reply), WINDOW_TOO_LARGE);
    assert!(log.is_empty());
}

#[test]
fn malformed_sum_is_500() {
    let (reply, log) = eval(&Dep::NoResult, &Dep::Computing, ints(&[1, 2]), 1);
    assert_eq!(reply.status, 500);
    assert_eq!(dependency_error(&reply), (DEPENDENCY_MALFORMED, "srvcs-sum"));
    assert_eq!(log.len(), 1);
}

#[test]
fn malformed_quotient_is_500() {
    let (reply, log) = eval(&Dep::Computing, &Dep::NoResult, ints(&[1, 2]), 1);
    assert_eq!(reply.status, 500);
    assert_eq!(dependency_error(&reply), (DEPENDENCY_MALFORMED, "srvcs-floatdivide"));
    assert_eq!(log.len(), 2);
}

#[test]
fn other_status_from_divide_is_503() {
    let (reply, _) = eval(&Dep::Computing, &Dep::Fixed(500, Value::Null), ints(&[1, 2]), 2);
    assert_eq!(reply.status, 503);
    assert_eq!(dependency_error(&reply), (DEPENDENCY_UNAVAILABLE, "srvcs-floatdivide"));
}

#[test]
fn forwards_422_from_divide() {
    let body = Value::from("bad divisor");
    let (reply, _) = eval(&Dep::Computing, &Dep::Fixed(422, body.clone()), ints(&[1, 2]), 2);
    assert_eq!(reply.status, 422);
    match &reply.body {
        ReplyBody::Verbatim(b) => assert_eq!(b, &body),
        _ => panic!("not forwarded"),
    }
}

#[test]
fn a_failure_after_some_windows_stops_the_evaluation() {
    // The sum dependency answers 200 for the first window, then 404.
    let mut progress = begin::<Value, f64>(ints(&[1, 2, 3]), 1);
    let mut sums = 0;
    let reply = loop {
        progress = match progress {
            Progress::AskSum { sum_pending, .. } => {
                sums += 1;
                let status = if sums == 1 { 200 } else { 404 };
                sum_pending.on_sum(DependencyReply::Answered {
                    status,
                    result: Some(1),
                    body: Value::Null,
                })
            }
            Progress::AskDivide { quotient_pending, a, b } => quotient_pending.on_quotient(
                DependencyReply::Answered { status: 200, result: Some(a as f64 / b as f64), body: Value::Null },
            ),
            Progress::Finished(reply) => break reply,
        }
    };
    assert_eq!(sums, 2);
    assert_eq!(reply.status, 503);
    assert_eq!(dependency_error(&reply).1, "srvcs-sum");
}

#[test]
fn reply_constructors() {
    let r: Reply<Value, f64> = ok(ints(&[1]), 1, vec![1.0]);
    assert_eq!(r.status, 200);
    let r: Reply<Value, f64> = unprocessable(WINDOW_TOO_SMALL);
    assert_eq!((r.status, error_of(&r)), (422, "window must be >= 1"));
    let r: Reply<Value, f64> = degraded("srvcs-sum");
    assert_eq!(r.status, 503);
    assert_eq!(dependency_error(&r), ("dependency unavailable", "srvcs-sum"));
    let r: Reply<Value, f64> = malformed("srvcs-floatdivide");
    assert_eq!(r.status, 500);
    assert_eq!(dependency_error(&r), ("dependency returned a malformed result", "srvcs-floatdivide"));
}

#[test]
fn forward_keeps_valid_statuses_and_replaces_others_with_502() {
    let r: Reply<Value, f64> = forward(422, Value::Null);
    assert_eq!(r.status, 422);
    let r: Reply<Value, f64> = forward(100, Value::Null);
    assert_eq!(r.status, 100);
    let r: Reply<Value, f64> = forward(999, Value::Null);
    assert_eq!(r.status, 999);
    let r: Reply<Value, f64> = forward(99, Value::Null);
    assert_eq!(r.status, 502);
    let r: Reply<Value, f64> = forward(1000, Value::Null);
    assert_eq!(r.status, 502);
}

#[test]
fn ask_reads_each_kind_of_reply() {
    let got: Result<Option<i64>, Reply<Value, f64>> =
        ask(DependencyReply::Answered { status: 200, result: Some(7), body: Value::Null }, "srvcs-sum");
    assert!(matches!(got, Ok(Some(7))));
    let got: Result<Option<i64>, Reply<Value, f64>> =
        ask(DependencyReply::Answered { status: 200, result: None, body: Value::Null }, "srvcs-sum");
    assert!(matches!(got, Ok(None)));
    let got: Result<Option<i64>, Reply<Value, f64>> =
        ask(DependencyReply::Answered { status: 422, result: None, body: Value::from(1) }, "srvcs-sum");
    match got {
        Err(r) => {
            assert_eq!(r.status, 422);
            assert!(matches!(r.body, ReplyBody::Verbatim(ref b) if *b == Value::from(1)));
        }
        Ok(_) => panic!("expected a forwarded reply"),
    }
    let got: Result<Option<i64>, Reply<Value, f64>> =
        ask(DependencyReply::Answered { status: 201, result: Some(1), body: Value::Null }, "srvcs-sum");
    assert!(matches!(got, Err(ref r) if r.status == 503));
    let got: Result<Option<i64>, Reply<Value, f64>> = ask(DependencyReply::Unreachable, "srvcs-sum");
    assert!(matches!(got, Err(ref r) if r.status == 503));
}

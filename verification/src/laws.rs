use vstd::prelude::*;
use crate::evaluation::{
    after_quotient, after_sum, ask_next, begin_model, window_count, EvaluationView, ProgressView,
};
use crate::reply::{
    degraded_reply, forward_reply, malformed_reply, ok_reply, unprocessable_reply, DependencyReply,
    ReplyBodyView,
    STATUS_OK, STATUS_UNPROCESSABLE, WINDOW_TOO_LARGE, WINDOW_TOO_SMALL,
};
use crate::api::{FLOATDIVIDE_DEPENDENCY, SUM_DEPENDENCY};

verus! {

/// Where an evaluation stands after `steps` dependency replies, the sum
/// dependency answering a request for `values[start..end]` with `sum(start, end)`
/// and the divide dependency answering a request for `a / b` with
/// `quotient(a, b)`.
pub open spec fn run<J, A>(
    p: ProgressView<J, A>,
    sum: spec_fn(nat, nat) -> DependencyReply<i64, J>,
    quotient: spec_fn(i64, i64) -> DependencyReply<A, J>,
    steps: nat,
) -> ProgressView<J, A>
    decreases steps,
{
    if steps == 0 {
        p
    } else {
        match p {
            ProgressView::AskSum { state, start, end } => run(
                after_sum(state, sum(start, end)),
                sum,
                quotient,
                (steps - 1) as nat,
            ),
            ProgressView::AskDivide { state, a, b } => run(
                after_quotient(state, quotient(a, b)),
                sum,
                quotient,
                (steps - 1) as nat,
            ),
            ProgressView::Finished(_) => p,
        }
    }
}

/// A `200` reply whose body carries `result`.
pub open spec fn answered<R, J>(result: R, body: J) -> DependencyReply<R, J> {
    DependencyReply::Answered { status: STATUS_OK, result: Some(result), body }
}

/// A sum dependency that answers the request for `values[start..end]` with
/// `total(start, end)`.
pub open spec fn summing<J>(total: spec_fn(nat, nat) -> i64, body: J) -> spec_fn(nat, nat) -> DependencyReply<i64, J> {
    |start: nat, end: nat| answered(total(start, end), body)
}

/// A divide dependency that answers the request for `a / b` with `divide(a, b)`.
pub open spec fn dividing<J, A>(divide: spec_fn(i64, i64) -> A, body: J) -> spec_fn(i64, i64) -> DependencyReply<A, J> {
    |a: i64, b: i64| answered(divide(a, b), body)
}

/// The averages of the first `n` windows of length `window`: the quotient by
/// `window` of the sum of `values[k..k + window]`, for each start `k` in order.
pub open spec fn averages<A>(
    total: spec_fn(nat, nat) -> i64,
    divide: spec_fn(i64, i64) -> A,
    window: i64,
    n: nat,
) -> Seq<A> {
    Seq::new(n, |k: int| divide(total(k as nat, (k + window) as nat), window))
}

/// The evaluation that has the averages of its first `k` windows.
pub open spec fn after_windows<J, A>(
    values: Seq<J>,
    window: i64,
    total: spec_fn(nat, nat) -> i64,
    divide: spec_fn(i64, i64) -> A,
    k: nat,
) -> EvaluationView<J, A> {
    EvaluationView { values, window, next: k, results: averages(total, divide, window, k) }
}

proof fn lemma_run_from_window<J, A>(
    values: Seq<J>,
    window: i64,
    total: spec_fn(nat, nat) -> i64,
    divide: spec_fn(i64, i64) -> A,
    body: J,
    k: nat,
)
    requires
        1 <= window <= values.len(),
        k <= window_count(values.len(), window as int),
    ensures
        run(
            ask_next(after_windows(values, window, total, divide, k)),
            summing(total, body),
            dividing(divide, body),
            (2 * (window_count(values.len(), window as int) - k)) as nat,
        ) == ProgressView::Finished(
            ok_reply(
                values,
                window,
                averages(total, divide, window, window_count(values.len(), window as int) as nat),
            ),
        ),
    decreases window_count(values.len(), window as int) - k,
{
    let count = window_count(values.len(), window as int);
    let sum = summing(total, body);
    let quotient = dividing(divide, body);
    let state = after_windows(values, window, total, divide, k);
    if k < count {
        let steps = (2 * (count - k)) as nat;
        let start = k;
        let end = (k + window) as nat;
        let s = total(start, end);
        let average = divide(s, window);
        assert(ask_next(state) == ProgressView::<J, A>::AskSum { state, start, end });
        assert(sum(start, end) == answered(s, body));
        let divided = ProgressView::<J, A>::AskDivide { state, a: s, b: window };
        assert(after_sum(state, sum(start, end)) == divided);
        assert(run(ask_next(state), sum, quotient, steps) == run(divided, sum, quotient, (steps - 1) as nat));
        assert(quotient(s, window) == answered(average, body));
        let following = after_windows(values, window, total, divide, k + 1);
        assert(state.results.push(average) =~= following.results);
        assert(after_quotient(state, quotient(s, window)) == ask_next(following));
        assert(run(divided, sum, quotient, (steps - 1) as nat) == run(ask_next(following), sum, quotient, (steps - 2) as nat));
        lemma_run_from_window(values, window, total, divide, body, k + 1);
    } else {
        assert(state.results =~= averages(total, divide, window, count as nat));
    }
}

/// The moving average: with dependencies that answer every request, the
/// evaluation asks for the sum of each window `values[k..k + window]`, for `k`
/// from `0` to `values.len() - window` in order, divides each sum by `window`,
/// and after exactly two replies per window answers `200` with the values, the
/// window and the quotients in window order.
pub proof fn law_moving_average<J, A>(
    values: Seq<J>,
    window: i64,
    total: spec_fn(nat, nat) -> i64,
    divide: spec_fn(i64, i64) -> A,
    body: J,
)
    requires
        1 <= window <= values.len(),
    ensures
        run(
            begin_model(values, window),
            summing(total, body),
            dividing(divide, body),
            (2 * window_count(values.len(), window as int)) as nat,
        ) == ProgressView::Finished(
            ok_reply(
                values,
                window,
                averages(total, divide, window, window_count(values.len(), window as int) as nat),
            ),
        ),
{
    let start = after_windows(values, window, total, divide, 0);
    assert(start.results =~= Seq::<A>::empty());
    assert(begin_model::<J, A>(values, window) == ask_next(start));
    lemma_run_from_window(values, window, total, divide, body, 0);
}

/// The k-th window: before the evaluation above is over, the reply count that
/// reaches window `k` finds it asking for the sum of `values[k..k + window]`,
/// and the next one finds it asking for that sum divided by `window`.
pub proof fn law_window_requests<J, A>(
    values: Seq<J>,
    window: i64,
    total: spec_fn(nat, nat) -> i64,
    divide: spec_fn(i64, i64) -> A,
    body: J,
    k: nat,
)
    requires
        1 <= window <= values.len(),
        k < window_count(values.len(), window as int),
    ensures
        run(begin_model(values, window), summing(total, body), dividing(divide, body), 2 * k)
            == (ProgressView::<J, A>::AskSum {
            state: after_windows(values, window, total, divide, k),
            start: k,
            end: (k + window) as nat,
        }),
        run(begin_model(values, window), summing(total, body), dividing(divide, body), 2 * k + 1)
            == (ProgressView::<J, A>::AskDivide {
            state: after_windows(values, window, total, divide, k),
            a: total(k, (k + window) as nat),
            b: window,
        }),
    decreases k,
{
    let sum = summing(total, body);
    let quotient = dividing(divide, body);
    let state = after_windows(values, window, total, divide, k);
    let asked = ProgressView::<J, A>::AskSum { state, start: k, end: (k + window) as nat };
    if k == 0 {
        assert(state.results =~= Seq::<A>::empty());
        assert(begin_model::<J, A>(values, window) == asked);
    } else {
        let j = (k - 1) as nat;
        law_window_requests(values, window, total, divide, body, j);
        let before = after_windows(values, window, total, divide, j);
        let s = total(j, (j + window) as nat);
        let average = divide(s, window);
        lemma_run_split(begin_model(values, window), sum, quotient, 2 * j + 1, 1);
        assert(quotient(s, window) == answered(average, body));
        assert(before.results.push(average) =~= state.results);
        assert(after_quotient(before, quotient(s, window)) == asked);
        assert(run(asked, sum, quotient, 0) == asked);
    }
    lemma_run_split(begin_model(values, window), sum, quotient, 2 * k, 1);
    assert(sum(k, (k + window) as nat) == answered(total(k, (k + window) as nat), body));
    assert(run(asked, sum, quotient, 1) == run(
        ProgressView::<J, A>::AskDivide { state, a: total(k, (k + window) as nat), b: window },
        sum,
        quotient,
        0,
    ));
}

proof fn lemma_run_split<J, A>(
    p: ProgressView<J, A>,
    sum: spec_fn(nat, nat) -> DependencyReply<i64, J>,
    quotient: spec_fn(i64, i64) -> DependencyReply<A, J>,
    n: nat,
    m: nat,
)
    ensures
        run(p, sum, quotient, n + m) == run(run(p, sum, quotient, n), sum, quotient, m),
    decreases n,
{
    if n > 0 {
        match p {
            ProgressView::AskSum { state, start, end } => {
                lemma_run_split(after_sum(state, sum(start, end)), sum, quotient, (n - 1) as nat, m);
                assert((n + m - 1) as nat == ((n - 1) as nat + m) as nat);
            },
            ProgressView::AskDivide { state, a, b } => {
                lemma_run_split(after_quotient(state, quotient(a, b)), sum, quotient, (n - 1) as nat, m);
                assert((n + m - 1) as nat == ((n - 1) as nat + m) as nat);
            },
            ProgressView::Finished(_) => {
                lemma_run_finished(p, sum, quotient, m);
                lemma_run_finished(p, sum, quotient, n + m);
            },
        }
    }
}

proof fn lemma_run_finished<J, A>(
    p: ProgressView<J, A>,
    sum: spec_fn(nat, nat) -> DependencyReply<i64, J>,
    quotient: spec_fn(i64, i64) -> DependencyReply<A, J>,
    n: nat,
)
    requires
        p is Finished,
    ensures
        run(p, sum, quotient, n) == p,
{
}


proof fn lemma_ask_next_wf<J, A>(state: EvaluationView<J, A>)
    requires
        1 <= state.window <= state.values.len(),
        state.next <= window_count(state.values.len(), state.window as int),
        state.results.len() == state.next,
    ensures
        ask_next(state).wf(),
{
}

proof fn lemma_steps_keep_wf<J, A>(
    p: ProgressView<J, A>,
    sum: spec_fn(nat, nat) -> DependencyReply<i64, J>,
    quotient: spec_fn(i64, i64) -> DependencyReply<A, J>,
    steps: nat,
)
    requires
        p.wf(),
    ensures
        run(p, sum, quotient, steps).wf(),
    decreases steps,
{
    if steps > 0 {
        match p {
            ProgressView::AskSum { state, start, end } => {
                lemma_steps_keep_wf(after_sum(state, sum(start, end)), sum, quotient, (steps - 1) as nat);
            },
            ProgressView::AskDivide { state, a, b } => {
                let next = after_quotient(state, quotient(a, b));
                let reply = quotient(a, b);
                if let DependencyReply::Answered { status, result: Some(average), body } = reply {
                    if status == STATUS_OK {
                        lemma_ask_next_wf(
                            EvaluationView {
                                values: state.values,
                                window: state.window,
                                next: state.next + 1,
                                results: state.results.push(average),
                            },
                        );
                    }
                }
                lemma_steps_keep_wf(next, sum, quotient, (steps - 1) as nat);
            },
            ProgressView::Finished(_) => {},
        }
    }
}

/// Whatever the dependencies answer, every state an evaluation reaches is well
/// formed: each sum it asks for is of `window` consecutive values that lie
/// within the request's values, the windows are taken in order from the first,
/// and each division it asks for is by `window`.
pub proof fn law_requests_stay_within_values<J, A>(
    values: Seq<J>,
    window: i64,
    sum: spec_fn(nat, nat) -> DependencyReply<i64, J>,
    quotient: spec_fn(i64, i64) -> DependencyReply<A, J>,
    steps: nat,
)
    ensures
        run(begin_model(values, window), sum, quotient, steps).wf(),
{
    if 1 <= window <= values.len() {
        lemma_ask_next_wf(EvaluationView::<J, A> { values, window, next: 0, results: Seq::empty() });
    }
    lemma_steps_keep_wf(begin_model(values, window), sum, quotient, steps);
}

/// A window below one, or longer than the values, is answered `422` with no
/// dependency asked; any other window starts by asking for the sum of the
/// first `window` values.
pub proof fn law_window_validation<J, A>(values: Seq<J>, window: i64)
    ensures
        window < 1 ==> (begin_model::<J, A>(values, window) matches ProgressView::Finished(r)
            && r.status == 422 && r.body == (ReplyBodyView::<J, A>::Error {
            error: WINDOW_TOO_SMALL@,
        })),
        1 <= window && window > values.len() ==> (begin_model::<J, A>(values, window) matches ProgressView::Finished(r)
            && r.status == 422 && r.body == (ReplyBodyView::<J, A>::Error {
            error: WINDOW_TOO_LARGE@,
        })),
        window < 1 ==> begin_model::<J, A>(values, window) == ProgressView::<J, A>::Finished(
            unprocessable_reply(WINDOW_TOO_SMALL@),
        ),
        1 <= window && window > values.len() ==> begin_model::<J, A>(values, window)
            == ProgressView::<J, A>::Finished(unprocessable_reply(WINDOW_TOO_LARGE@)),
        1 <= window <= values.len() ==> begin_model::<J, A>(values, window) == (ProgressView::<
            J,
            A,
        >::AskSum {
            state: EvaluationView { values, window, next: 0, results: Seq::empty() },
            start: 0,
            end: window as nat,
        }),
{
}

/// A failed sum request ends the evaluation at once: an unreachable sum
/// dependency, or one answering any status but `200` and `422`, gives `503`
/// naming it; its `422` is sent on with the same status and body; a `200`
/// without a numeric `result` gives `500` naming it.
pub proof fn law_sum_failure_ends_evaluation<J, A>(
    state: EvaluationView<J, A>,
    status: u16,
    result: Option<i64>,
    body: J,
)
    ensures
        after_sum(state, DependencyReply::Unreachable) == ProgressView::<J, A>::Finished(
            degraded_reply(SUM_DEPENDENCY@),
        ),
        status != STATUS_OK && status != STATUS_UNPROCESSABLE ==> after_sum(
            state,
            DependencyReply::Answered { status, result, body },
        ) == ProgressView::<J, A>::Finished(degraded_reply(SUM_DEPENDENCY@)),
        after_sum(state, DependencyReply::Answered { status: STATUS_UNPROCESSABLE, result, body })
            == ProgressView::<J, A>::Finished(forward_reply(STATUS_UNPROCESSABLE, body)),
        after_sum(state, DependencyReply::Answered { status: STATUS_OK, result: None, body })
            == ProgressView::<J, A>::Finished(malformed_reply(SUM_DEPENDENCY@)),
{
}

/// A failed divide request ends the evaluation at once: an unreachable divide
/// dependency, or one answering any status but `200` and `422`, gives `503`
/// naming it; its `422` is sent on with the same status and body; a `200`
/// without a numeric `result` gives `500` naming it.
pub proof fn law_quotient_failure_ends_evaluation<J, A>(
    state: EvaluationView<J, A>,
    status: u16,
    result: Option<A>,
    body: J,
)
    ensures
        after_quotient(state, DependencyReply::Unreachable) == ProgressView::<J, A>::Finished(
            degraded_reply(FLOATDIVIDE_DEPENDENCY@),
        ),
        status != STATUS_OK && status != STATUS_UNPROCESSABLE ==> after_quotient(
            state,
            DependencyReply::Answered { status, result, body },
        ) == ProgressView::<J, A>::Finished(degraded_reply(FLOATDIVIDE_DEPENDENCY@)),
        after_quotient(
            state,
            DependencyReply::Answered { status: STATUS_UNPROCESSABLE, result, body },
        ) == ProgressView::<J, A>::Finished(forward_reply(STATUS_UNPROCESSABLE, body)),
        after_quotient(state, DependencyReply::Answered { status: STATUS_OK, result: None, body })
            == ProgressView::<J, A>::Finished(malformed_reply(FLOATDIVIDE_DEPENDENCY@)),
{
}

/// How many more dependency replies an evaluation can take at most.
pub open spec fn replies_left<J, A>(p: ProgressView<J, A>) -> int {
    match p {
        ProgressView::AskSum { state, .. } => 2 * (window_count(
            state.values.len(),
            state.window as int,
        ) - state.next),
        ProgressView::AskDivide { state, .. } => 2 * (window_count(
            state.values.len(),
            state.window as int,
        ) - state.next) - 1,
        ProgressView::Finished(_) => 0,
    }
}

proof fn lemma_run_ends<J, A>(
    p: ProgressView<J, A>,
    sum: spec_fn(nat, nat) -> DependencyReply<i64, J>,
    quotient: spec_fn(i64, i64) -> DependencyReply<A, J>,
    steps: nat,
)
    requires
        p.wf(),
        replies_left(p) <= steps,
    ensures
        run(p, sum, quotient, steps) is Finished,
    decreases steps,
{
    match p {
        ProgressView::AskSum { state, start, end } => {
            lemma_run_ends(after_sum(state, sum(start, end)), sum, quotient, (steps - 1) as nat);
        },
        ProgressView::AskDivide { state, a, b } => {
            let reply = quotient(a, b);
            if let DependencyReply::Answered { status, result: Some(average), body } = reply {
                if status == STATUS_OK {
                    lemma_ask_next_wf(
                        EvaluationView {
                            values: state.values,
                            window: state.window,
                            next: state.next + 1,
                            results: state.results.push(average),
                        },
                    );
                }
            }
            lemma_run_ends(after_quotient(state, reply), sum, quotient, (steps - 1) as nat);
        },
        ProgressView::Finished(_) => {},
    }
}

/// Whatever the dependencies answer, an evaluation is over after at most two
/// replies per window, `2 * (values.len() - window + 1)` in all, and at once
/// where the window is out of range.
pub proof fn law_evaluation_ends<J, A>(
    values: Seq<J>,
    window: i64,
    sum: spec_fn(nat, nat) -> DependencyReply<i64, J>,
    quotient: spec_fn(i64, i64) -> DependencyReply<A, J>,
)
    ensures
        !(1 <= window <= values.len()) ==> begin_model::<J, A>(values, window) is Finished,
        1 <= window <= values.len() ==> run(
            begin_model(values, window),
            sum,
            quotient,
            (2 * window_count(values.len(), window as int)) as nat,
        ) is Finished,
{
    if 1 <= window <= values.len() {
        lemma_ask_next_wf(EvaluationView::<J, A> { values, window, next: 0, results: Seq::empty() });
        lemma_run_ends(
            begin_model(values, window),
            sum,
            quotient,
            (2 * window_count(values.len(), window as int)) as nat,
        );
    }
}

/// The `200` reply of an evaluation whose dependencies answer every request
/// carries the request's values in full, the request's window, and one average
/// per window start `k` from `0` to `values.len() - window`, in that order:
/// entry `k` is the divide dependency's quotient of the sum of
/// `values[k..k + window]` by `window`.
pub proof fn law_averages_reply_fields<J, A>(
    values: Seq<J>,
    window: i64,
    total: spec_fn(nat, nat) -> i64,
    divide: spec_fn(i64, i64) -> A,
    body: J,
)
    requires
        1 <= window <= values.len(),
    ensures
        ({
            let end = run(
                begin_model(values, window),
                summing(total, body),
                dividing(divide, body),
                (2 * window_count(values.len(), window as int)) as nat,
            );
            &&& end matches ProgressView::Finished(r) && r.status == 200
            &&& end matches ProgressView::Finished(r) && r.body matches ReplyBodyView::Averages {
                values: v,
                window: w,
                result: res,
            } && v == values && w == window && res.len() == values.len() - window + 1 && (forall|
                k: int,
            |
                0 <= k < values.len() - window + 1 ==> #[trigger] res[k] == divide(
                    total(k as nat, (k + window) as nat),
                    window,
                ))
        }),
{
    law_moving_average(values, window, total, divide, body);
}

} // verus!

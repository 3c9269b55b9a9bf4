use vstd::prelude::*;
use crate::reply::{
    ask, ask_outcome, malformed, malformed_reply, ok, ok_reply, unprocessable, unprocessable_reply,
    DependencyReply, Reply, ReplyView, WINDOW_TOO_LARGE, WINDOW_TOO_SMALL,
};
use crate::api::{FLOATDIVIDE_DEPENDENCY, SUM_DEPENDENCY};

verus! {

/// A moving average under way: the request's values and window, the window
/// being worked on, and the averages of the windows before it.
pub struct Evaluation<J, A> {
    values: Vec<J>,
    window: i64,
    next: usize,
    results: Vec<A>,
}

/// The mathematical content of an [`Evaluation`].
pub struct EvaluationView<J, A> {
    pub values: Seq<J>,
    pub window: i64,
    pub next: nat,
    pub results: Seq<A>,
}

/// The number of windows of `window` consecutive values among `len` values.
pub open spec fn window_count(len: nat, window: int) -> int {
    len - window + 1
}

impl<J, A> EvaluationView<J, A> {
    /// The window fits the values, the window being worked on is one of them,
    /// and each window before it has its average.
    pub open spec fn wf(self) -> bool {
        &&& 1 <= self.window <= self.values.len()
        &&& self.next < window_count(self.values.len(), self.window as int)
        &&& self.results.len() == self.next
    }
}

impl<J, A> View for Evaluation<J, A> {
    type V = EvaluationView<J, A>;

    closed spec fn view(&self) -> EvaluationView<J, A> {
        EvaluationView {
            values: self.values@,
            window: self.window,
            next: self.next as nat,
            results: self.results@,
        }
    }
}

impl<J, A> Evaluation<J, A> {
    #[verifier::type_invariant]
    spec fn inv(self) -> bool {
        self@.wf()
    }
}

/// An evaluation waiting for the sum of its current window.
pub struct SumPending<J, A> {
    state: Evaluation<J, A>,
}

/// An evaluation waiting for the quotient of its current window's sum by the
/// window length.
pub struct QuotientPending<J, A> {
    state: Evaluation<J, A>,
}

impl<J, A> View for SumPending<J, A> {
    type V = EvaluationView<J, A>;

    closed spec fn view(&self) -> EvaluationView<J, A> {
        self.state@
    }
}

impl<J, A> View for QuotientPending<J, A> {
    type V = EvaluationView<J, A>;

    closed spec fn view(&self) -> EvaluationView<J, A> {
        self.state@
    }
}

/// What the caller does next.
pub enum Progress<J, A> {
    /// Ask the sum dependency for the sum of `values[start..end]`, then hand
    /// its reply to [`SumPending::on_sum`].
    AskSum { sum_pending: SumPending<J, A>, start: usize, end: usize },
    /// Ask the divide dependency for `a / b`, then hand its reply to
    /// [`QuotientPending::on_quotient`].
    AskDivide { quotient_pending: QuotientPending<J, A>, a: i64, b: i64 },
    /// Send this reply; the evaluation is over.
    Finished(Reply<J, A>),
}

/// The mathematical content of a [`Progress`].
pub enum ProgressView<J, A> {
    AskSum { state: EvaluationView<J, A>, start: nat, end: nat },
    AskDivide { state: EvaluationView<J, A>, a: i64, b: i64 },
    Finished(ReplyView<J, A>),
}

impl<J, A> View for Progress<J, A> {
    type V = ProgressView<J, A>;

    open spec fn view(&self) -> ProgressView<J, A> {
        match self {
            Progress::AskSum { sum_pending, start, end } => ProgressView::AskSum {
                state: sum_pending@,
                start: *start as nat,
                end: *end as nat,
            },
            Progress::AskDivide { quotient_pending, a, b } => ProgressView::AskDivide {
                state: quotient_pending@,
                a: *a,
                b: *b,
            },
            Progress::Finished(reply) => ProgressView::Finished(reply@),
        }
    }
}

impl<J, A> ProgressView<J, A> {
    /// The state under way is well formed, and a sum is asked of the window
    /// being worked on, which lies within the values.
    pub open spec fn wf(self) -> bool {
        match self {
            ProgressView::AskSum { state, start, end } => {
                &&& state.wf()
                &&& start == state.next
                &&& end == start + state.window
                &&& end <= state.values.len()
            },
            ProgressView::AskDivide { state, a, b } => state.wf() && b == state.window,
            ProgressView::Finished(_) => true,
        }
    }
}

/// After the windows before `state.next` have their averages: ask for the sum
/// of the next window, or, when every window has its average, answer `200`.
pub open spec fn ask_next<J, A>(state: EvaluationView<J, A>) -> ProgressView<J, A> {
    if state.next < window_count(state.values.len(), state.window as int) {
        ProgressView::AskSum { state, start: state.next, end: state.next + state.window as nat }
    } else {
        ProgressView::Finished(ok_reply(state.values, state.window, state.results))
    }
}

/// The start of an evaluation of `values` with `window`: `422` without a call
/// where the window is below one or longer than the values, else the sum of the
/// first window is asked for.
pub open spec fn begin_model<J, A>(values: Seq<J>, window: i64) -> ProgressView<J, A> {
    if window < 1 {
        ProgressView::Finished(unprocessable_reply(WINDOW_TOO_SMALL@))
    } else if window > values.len() {
        ProgressView::Finished(unprocessable_reply(WINDOW_TOO_LARGE@))
    } else {
        ask_next(EvaluationView { values, window, next: 0, results: Seq::empty() })
    }
}

/// The step after the sum dependency's reply: its `result` is divided by the
/// window; a failed or malformed reply ends the evaluation.
pub open spec fn after_sum<J, A>(
    state: EvaluationView<J, A>,
    reply: DependencyReply<i64, J>,
) -> ProgressView<J, A> {
    match ask_outcome::<i64, J, A>(reply, SUM_DEPENDENCY@) {
        Err(r) => ProgressView::Finished(r),
        Ok(None) => ProgressView::Finished(malformed_reply(SUM_DEPENDENCY@)),
        Ok(Some(total)) => ProgressView::AskDivide { state, a: total, b: state.window },
    }
}

/// The step after the divide dependency's reply: its `result` is the current
/// window's average and the next window follows; a failed or malformed reply
/// ends the evaluation.
pub open spec fn after_quotient<J, A>(
    state: EvaluationView<J, A>,
    reply: DependencyReply<A, J>,
) -> ProgressView<J, A> {
    match ask_outcome::<A, J, A>(reply, FLOATDIVIDE_DEPENDENCY@) {
        Err(r) => ProgressView::Finished(r),
        Ok(None) => ProgressView::Finished(malformed_reply(FLOATDIVIDE_DEPENDENCY@)),
        Ok(Some(average)) => ask_next(
            EvaluationView {
                values: state.values,
                window: state.window,
                next: state.next + 1,
                results: state.results.push(average),
            },
        ),
    }
}

/// Ask for the next window's sum, or finish with the averages.
fn continue_with<J, A>(values: Vec<J>, window: i64, next: usize, results: Vec<A>) -> (p: Progress<J, A>)
    requires
        1 <= window <= values@.len(),
        next <= window_count(values@.len(), window as int),
        results@.len() == next,
    ensures
        p@ == ask_next(EvaluationView { values: values@, window, next: next as nat, results: results@ }),
        p@.wf(),
{
    let len = values.len();
    let width = window as usize;
    if next <= len - width {
        let state = Evaluation { values, window, next, results };
        Progress::AskSum { sum_pending: SumPending { state }, start: next, end: next + width }
    } else {
        Progress::Finished(ok(values, window, results))
    }
}

/// Start a moving average of `values` over windows of `window` consecutive
/// values. A window below one or longer than the values is answered `422` at
/// once, with no dependency asked.
pub fn begin<J, A>(values: Vec<J>, window: i64) -> (p: Progress<J, A>)
    ensures
        p@ == begin_model::<J, A>(values@, window),
        p@.wf(),
{
    if window < 1 {
        return Progress::Finished(unprocessable(WINDOW_TOO_SMALL));
    }
    let len = values.len();
    if window as u64 > len as u64 {
        return Progress::Finished(unprocessable(WINDOW_TOO_LARGE));
    }
    continue_with(values, window, 0, Vec::new())
}

impl<J, A> SumPending<J, A> {
    /// The request's values; the sum asked for is of `values()[start..end]`.
    pub fn values(&self) -> (r: &Vec<J>)
        ensures
            r@ == self@.values,
    {
        &self.state.values
    }

    /// Take the sum dependency's reply to the request for the current window.
    pub fn on_sum(self, reply: DependencyReply<i64, J>) -> (p: Progress<J, A>)
        ensures
            p@ == after_sum(self@, reply),
            p@.wf(),
    {
        proof {
            use_type_invariant(&self.state);
        }
        let window = self.state.window;
        match ask(reply, SUM_DEPENDENCY) {
            Err(r) => Progress::Finished(r),
            Ok(None) => Progress::Finished(malformed(SUM_DEPENDENCY)),
            Ok(Some(total)) => Progress::AskDivide {
                quotient_pending: QuotientPending { state: self.state },
                a: total,
                b: window,
            },
        }
    }
}

impl<J, A> QuotientPending<J, A> {
    /// Take the divide dependency's reply to the request for the current
    /// window's average.
    pub fn on_quotient(self, reply: DependencyReply<A, J>) -> (p: Progress<J, A>)
        ensures
            p@ == after_quotient(self@, reply),
            p@.wf(),
    {
        proof {
            use_type_invariant(&self.state);
        }
        match ask(reply, FLOATDIVIDE_DEPENDENCY) {
            Err(r) => Progress::Finished(r),
            Ok(None) => Progress::Finished(malformed(FLOATDIVIDE_DEPENDENCY)),
            Ok(Some(average)) => {
                let Evaluation { values, window, next, mut results } = self.state;
                let len = values.len();
                assert(next < len);
                results.push(average);
                continue_with(values, window, next + 1, results)
            },
        }
    }
}

} // verus!

use vstd::prelude::*;

verus! {

/// The `error` text of a request whose window is below one.
pub const WINDOW_TOO_SMALL: &'static str = "window must be >= 1";

/// The `error` text of a request whose window is longer than its values.
pub const WINDOW_TOO_LARGE: &'static str = "window must be <= values.len()";

/// The `error` text of a reply naming a dependency that could not be used.
pub const DEPENDENCY_UNAVAILABLE: &'static str = "dependency unavailable";

/// The `error` text of a reply naming a dependency whose `200` body had no
/// numeric `result`.
pub const DEPENDENCY_MALFORMED: &'static str = "dependency returned a malformed result";

/// The status of a dependency's `200` reply.
pub const STATUS_OK: u16 = 200;

/// The status of a request that cannot be evaluated.
pub const STATUS_UNPROCESSABLE: u16 = 422;

/// The status of a reply that breaks a dependency's contract.
pub const STATUS_INTERNAL_ERROR: u16 = 500;

/// The status used when a forwarded status is not a valid HTTP status.
pub const STATUS_BAD_GATEWAY: u16 = 502;

/// The status of a reply naming a dependency that is down.
pub const STATUS_UNAVAILABLE: u16 = 503;

/// What a call to a dependency came back with, as read off the wire.
pub enum DependencyReply<R, J> {
    /// The dependency could not be reached.
    Unreachable,
    /// The dependency answered with `status`; `result` is the numeric `result`
    /// field of its JSON body, where the body has one, and `body` the whole body.
    Answered { status: u16, result: Option<R>, body: J },
}

/// The JSON body of a reply of the service. `J` is a JSON value, `A` an average.
pub enum ReplyBody<J, A> {
    /// `{"values": values, "window": window, "result": result}`.
    Averages { values: Vec<J>, window: i64, result: Vec<A> },
    /// `{"error": error}`.
    Error { error: &'static str },
    /// `{"error": error, "dependency": dependency}`.
    DependencyError { error: &'static str, dependency: &'static str },
    /// A dependency's body, sent on unchanged.
    Verbatim(J),
}

/// A reply of the service: an HTTP status and a JSON body.
pub struct Reply<J, A> {
    pub status: u16,
    pub body: ReplyBody<J, A>,
}

/// The mathematical content of a [`ReplyBody`].
pub enum ReplyBodyView<J, A> {
    Averages { values: Seq<J>, window: i64, result: Seq<A> },
    Error { error: Seq<char> },
    DependencyError { error: Seq<char>, dependency: Seq<char> },
    Verbatim(J),
}

/// The mathematical content of a [`Reply`].
pub struct ReplyView<J, A> {
    pub status: u16,
    pub body: ReplyBodyView<J, A>,
}

impl<J, A> View for ReplyBody<J, A> {
    type V = ReplyBodyView<J, A>;

    open spec fn view(&self) -> ReplyBodyView<J, A> {
        match self {
            ReplyBody::Averages { values, window, result } => ReplyBodyView::Averages {
                values: values@,
                window: *window,
                result: result@,
            },
            ReplyBody::Error { error } => ReplyBodyView::Error { error: error@ },
            ReplyBody::DependencyError { error, dependency } => ReplyBodyView::DependencyError {
                error: error@,
                dependency: dependency@,
            },
            ReplyBody::Verbatim(body) => ReplyBodyView::Verbatim(*body),
        }
    }
}

impl<J, A> View for Reply<J, A> {
    type V = ReplyView<J, A>;

    open spec fn view(&self) -> ReplyView<J, A> {
        ReplyView { status: self.status, body: self.body@ }
    }
}

/// `200` with the request's values, its window and the windowed averages.
pub open spec fn ok_reply<J, A>(values: Seq<J>, window: i64, result: Seq<A>) -> ReplyView<J, A> {
    ReplyView {
        status: STATUS_OK,
        body: ReplyBodyView::Averages { values, window, result },
    }
}

/// `422` with an error message.
pub open spec fn unprocessable_reply<J, A>(message: Seq<char>) -> ReplyView<J, A> {
    ReplyView { status: STATUS_UNPROCESSABLE, body: ReplyBodyView::Error { error: message } }
}

/// `503` naming the dependency that could not be used.
pub open spec fn degraded_reply<J, A>(dependency: Seq<char>) -> ReplyView<J, A> {
    ReplyView {
        status: STATUS_UNAVAILABLE,
        body: ReplyBodyView::DependencyError { error: DEPENDENCY_UNAVAILABLE@, dependency },
    }
}

/// `500` naming the dependency whose `200` body had no numeric `result`.
pub open spec fn malformed_reply<J, A>(dependency: Seq<char>) -> ReplyView<J, A> {
    ReplyView {
        status: STATUS_INTERNAL_ERROR,
        body: ReplyBodyView::DependencyError { error: DEPENDENCY_MALFORMED@, dependency },
    }
}

/// The status a forwarded `status` is sent with: itself where it is a valid
/// HTTP status (three digits), `502` otherwise.
pub open spec fn forwarded_status(status: u16) -> u16 {
    if 100 <= status <= 999 {
        status
    } else {
        STATUS_BAD_GATEWAY
    }
}

/// A dependency's status and body, sent on unchanged.
pub open spec fn forward_reply<J, A>(status: u16, body: J) -> ReplyView<J, A> {
    ReplyView { status: forwarded_status(status), body: ReplyBodyView::Verbatim(body) }
}

/// How the service reads one dependency reply: the `result` field of a `200`
/// body (`None` where it has none), or else the reply the service sends at once:
/// a `422` is forwarded, anything else (no answer included) is `503`.
pub open spec fn ask_outcome<R, J, A>(reply: DependencyReply<R, J>, dependency: Seq<char>) -> Result<
    Option<R>,
    ReplyView<J, A>,
> {
    match reply {
        DependencyReply::Unreachable => Err(degraded_reply(dependency)),
        DependencyReply::Answered { status, result, body } => {
            if status == STATUS_OK {
                Ok(result)
            } else if status == STATUS_UNPROCESSABLE {
                Err(forward_reply(STATUS_UNPROCESSABLE, body))
            } else {
                Err(degraded_reply(dependency))
            }
        },
    }
}

/// The mathematical content of what [`ask`] returns.
pub open spec fn asked_view<R, J, A>(r: Result<Option<R>, Reply<J, A>>) -> Result<
    Option<R>,
    ReplyView<J, A>,
> {
    match r {
        Ok(result) => Ok(result),
        Err(reply) => Err(reply@),
    }
}

/// `200` with the request's values, its window and the windowed averages.
pub fn ok<J, A>(values: Vec<J>, window: i64, result: Vec<A>) -> (r: Reply<J, A>)
    ensures
        r@ == ok_reply(values@, window, result@),
        r.status == 200,
        r.body matches ReplyBody::Averages { values: v, window: w, result: res } && v@ == values@
            && w == window && res@ == result@,
{
    Reply { status: STATUS_OK, body: ReplyBody::Averages { values, window, result } }
}

/// `422` with `message` as the error.
pub fn unprocessable<J, A>(message: &'static str) -> (r: Reply<J, A>)
    ensures
        r@ == unprocessable_reply::<J, A>(message@),
        r.status == 422,
        r.body matches ReplyBody::Error { error } && error@ == message@,
{
    Reply { status: STATUS_UNPROCESSABLE, body: ReplyBody::Error { error: message } }
}

/// `503`: `dependency` could not be used.
pub fn degraded<J, A>(dependency: &'static str) -> (r: Reply<J, A>)
    ensures
        r@ == degraded_reply::<J, A>(dependency@),
        r.status == 503,
        r.body matches ReplyBody::DependencyError { error, dependency: d } && error@
            == DEPENDENCY_UNAVAILABLE@ && d@ == dependency@,
{
    Reply {
        status: STATUS_UNAVAILABLE,
        body: ReplyBody::DependencyError { error: DEPENDENCY_UNAVAILABLE, dependency },
    }
}

/// Forward a dependency's reply verbatim (used to pass on a `422` for invalid
/// input from a dependency).
pub fn forward<J, A>(status: u16, body: J) -> (r: Reply<J, A>)
    ensures
        r@ == forward_reply::<J, A>(status, body),
        100 <= status <= 999 ==> r.status == status,
        !(100 <= status <= 999) ==> r.status == 502,
        r.body matches ReplyBody::Verbatim(b) && b == body,
{
    let code = if 100 <= status && status <= 999 {
        status
    } else {
        STATUS_BAD_GATEWAY
    };
    Reply { status: code, body: ReplyBody::Verbatim(body) }
}

/// `500`: `dependency` answered `200` but its body lacked a numeric `result`,
/// a contract violation the service cannot recover from.
pub fn malformed<J, A>(dependency: &'static str) -> (r: Reply<J, A>)
    ensures
        r@ == malformed_reply::<J, A>(dependency@),
        r.status == 500,
        r.body matches ReplyBody::DependencyError { error, dependency: d } && error@
            == DEPENDENCY_MALFORMED@ && d@ == dependency@,
{
    Reply {
        status: STATUS_INTERNAL_ERROR,
        body: ReplyBody::DependencyError { error: DEPENDENCY_MALFORMED, dependency },
    }
}

/// Read one dependency reply: on `200`, the `result` field of its body (which
/// may be missing); otherwise the reply the caller sends at once: a `422` is
/// forwarded, an unreachable dependency or any other status is `503` naming
/// `dependency`.
pub fn ask<R, J, A>(reply: DependencyReply<R, J>, dependency: &'static str) -> (r: Result<
    Option<R>,
    Reply<J, A>,
>)
    ensures
        asked_view(r) == ask_outcome::<R, J, A>(reply, dependency@),
{
    match reply {
        DependencyReply::Unreachable => Err(degraded(dependency)),
        DependencyReply::Answered { status, result, body } => {
            if status == STATUS_OK {
                Ok(result)
            } else if status == STATUS_UNPROCESSABLE {
                Err(forward(STATUS_UNPROCESSABLE, body))
            } else {
                Err(degraded(dependency))
            }
        },
    }
}

/// Each reply the service sends has its own status and body: `200` carries the
/// values, the window and the averages as given; a window error is `422` with
/// its message; an unusable dependency is `503` and a malformed answer `500`,
/// each naming the dependency; a forwarded reply keeps a valid status (`502`
/// otherwise) and the body unchanged.
pub proof fn law_reply_shapes<J, A>(
    values: Seq<J>,
    window: i64,
    result: Seq<A>,
    message: Seq<char>,
    dependency: Seq<char>,
    status: u16,
    body: J,
)
    ensures
        ok_reply(values, window, result).status == 200,
        ok_reply(values, window, result).body matches ReplyBodyView::Averages {
            values: v,
            window: w,
            result: res,
        } && v == values && w == window && res == result,
        unprocessable_reply::<J, A>(message).status == 422,
        unprocessable_reply::<J, A>(message).body matches ReplyBodyView::Error { error }
            && error == message,
        degraded_reply::<J, A>(dependency).status == 503,
        degraded_reply::<J, A>(dependency).body matches ReplyBodyView::DependencyError {
            error,
            dependency: d,
        } && error == DEPENDENCY_UNAVAILABLE@ && d == dependency,
        malformed_reply::<J, A>(dependency).status == 500,
        malformed_reply::<J, A>(dependency).body matches ReplyBodyView::DependencyError {
            error,
            dependency: d,
        } && error == DEPENDENCY_MALFORMED@ && d == dependency,
        100 <= status <= 999 ==> forward_reply::<J, A>(status, body).status == status,
        !(100 <= status <= 999) ==> forward_reply::<J, A>(status, body).status == 502,
        forward_reply::<J, A>(status, body).body matches ReplyBodyView::Verbatim(b) && b == body,
{
}

/// A dependency's `200` is read for its `result`, its `422` is forwarded as
/// `422` with its body, and an unreachable dependency or any other status is
/// `503` naming it.
pub proof fn law_ask_shapes<R, J, A>(
    dependency: Seq<char>,
    status: u16,
    answer: Option<R>,
    body: J,
)
    ensures
        status == 200 ==> ask_outcome::<R, J, A>(
            DependencyReply::Answered { status, result: answer, body },
            dependency,
        ) == Ok::<Option<R>, ReplyView<J, A>>(answer),
        status == 422 ==> (ask_outcome::<R, J, A>(
            DependencyReply::Answered { status, result: answer, body },
            dependency,
        ) matches Err(r) && r.status == 422 && r.body == ReplyBodyView::<J, A>::Verbatim(body)),
        status != 200 && status != 422 ==> (ask_outcome::<R, J, A>(
            DependencyReply::Answered { status, result: answer, body },
            dependency,
        ) matches Err(r) && r.status == 503 && r.body == (ReplyBodyView::<J, A>::DependencyError {
            error: DEPENDENCY_UNAVAILABLE@,
            dependency,
        })),
        ask_outcome::<R, J, A>(DependencyReply::Unreachable, dependency) matches Err(r) && r.status
            == 503 && r.body == (ReplyBodyView::<J, A>::DependencyError {
            error: DEPENDENCY_UNAVAILABLE@,
            dependency,
        }),
{
}

} // verus!

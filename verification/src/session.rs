//! The per-connection discipline: a connection serves at most one
//! request.
//!
//! The front end feeds each framing outcome — a decoded line, or a
//! framing failure — through [`session_step`].  A decoded line is
//! handled and the session closes; a framing failure is ignored and the
//! session keeps waiting; a closed session handles nothing.  So over any
//! run of events, at most one line is ever answered.

use vstd::prelude::*;

verus! {

/// Where a connection stands.
#[derive(Clone, Copy, Debug, PartialEq, Eq, Structural)]
pub enum SessionState {
    /// No line has been answered yet; the next decoded line will be.
    AwaitingLine,
    /// One line has been answered; nothing further is.
    Closed,
}

/// The step function: the state after one framing outcome, and whether
/// the line just decoded (if any) is to be handled and answered.
pub open spec fn session_step_spec(s: SessionState, decoded: bool) -> (SessionState, bool) {
    match s {
        SessionState::AwaitingLine => if decoded {
            (SessionState::Closed, true)
        } else {
            (SessionState::AwaitingLine, false)
        },
        SessionState::Closed => (SessionState::Closed, false),
    }
}

/// Advances a connection past one framing outcome; `decoded` says
/// whether a line was decoded (as opposed to a framing failure).  The
/// returned flag says whether that line is to be handled and answered,
/// after which the connection closes.
pub fn session_step(s: SessionState, decoded: bool) -> (r: (SessionState, bool))
    ensures
        r == session_step_spec(s, decoded),
{
    match s {
        SessionState::AwaitingLine => if decoded {
            (SessionState::Closed, true)
        } else {
            (SessionState::AwaitingLine, false)
        },
        SessionState::Closed => (SessionState::Closed, false),
    }
}

/// How many events of this run are answered, starting from `s`.
pub open spec fn responses_in(s: SessionState, events: Seq<bool>) -> nat
    decreases events.len(),
{
    if events.len() == 0 {
        0
    } else {
        let stepped = session_step_spec(s, events[0]);
        (if stepped.1 {
            1nat
        } else {
            0nat
        }) + responses_in(stepped.0, events.drop_first())
    }
}

proof fn lemma_closed_responds_never(events: Seq<bool>)
    ensures
        responses_in(SessionState::Closed, events) == 0,
    decreases events.len(),
{
    if events.len() != 0 {
        lemma_closed_responds_never(events.drop_first());
    }
}

/// Law: a connection serves at most one request.  Whatever mixture of
/// decoded lines and framing failures arrives, a fresh session answers
/// at most one of them.
pub proof fn lemma_at_most_one_response(events: Seq<bool>)
    ensures
        responses_in(SessionState::AwaitingLine, events) <= 1,
    decreases events.len(),
{
    if events.len() != 0 {
        if events[0] {
            lemma_closed_responds_never(events.drop_first());
        } else {
            lemma_at_most_one_response(events.drop_first());
        }
    }
}

} // verus!

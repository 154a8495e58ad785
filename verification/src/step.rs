//! What a machine asks for: a call, or nothing more.

use vstd::prelude::*;

verus! {

/// The outcome of starting or resuming a machine.
pub enum Step<M, C, T> {
    /// Make the call `C`, then resume the machine `M` with the reply.
    Call(M, C),
    /// The operation is over, with this result.
    Finish(T),
}

impl<M: View, C: View, T: View, E: View> View for Step<M, C, Result<T, E>> {
    type V = Step<M::V, C::V, Result<T::V, E::V>>;

    open spec fn view(&self) -> Self::V {
        match *self {
            Step::Call(machine, call) => Step::Call(machine@, call@),
            Step::Finish(Ok(value)) => Step::Finish(Ok(value@)),
            Step::Finish(Err(e)) => Step::Finish(Err(e@)),
        }
    }
}

/// Where a machine stands once it has been resumed with the replies in turn. It stops at the first
/// reply that ends the operation.
pub open spec fn run<M, C, R, T>(
    next: spec_fn(M, R) -> Step<M, C, T>,
    start: Step<M, C, T>,
    replies: Seq<R>,
) -> Step<M, C, T>
    decreases replies.len(),
{
    match start {
        Step::Call(machine, _) if replies.len() > 0 => run(
            next,
            next(machine, replies[0]),
            replies.drop_first(),
        ),
        _ => start,
    }
}

/// The calls that a machine asks for while it is resumed with the replies in turn.
pub open spec fn calls<M, C, R, T>(
    next: spec_fn(M, R) -> Step<M, C, T>,
    start: Step<M, C, T>,
    replies: Seq<R>,
) -> Seq<C>
    decreases replies.len(),
{
    match start {
        Step::Call(machine, call) => if replies.len() > 0 {
            seq![call] + calls(next, next(machine, replies[0]), replies.drop_first())
        } else {
            seq![call]
        },
        Step::Finish(_) => seq![],
    }
}

/// Whether every reply is one to the call that was made before it, where `expects` says which
/// replies a machine can be resumed with.
pub open spec fn expected<M, C, R, T>(
    expects: spec_fn(M, R) -> bool,
    next: spec_fn(M, R) -> Step<M, C, T>,
    start: Step<M, C, T>,
    replies: Seq<R>,
) -> bool
    decreases replies.len(),
{
    match start {
        Step::Call(machine, _) => replies.len() > 0 ==> {
            &&& expects(machine, replies[0])
            &&& expected(expects, next, next(machine, replies[0]), replies.drop_first())
        },
        Step::Finish(_) => true,
    }
}

/// Contracts speak of a step as it is: of the call that it asks for, or of the value or the error
/// that it ends with.
pub proof fn law_step_is_seen_whole<M: View, C: View, T: View, E: View>(
    step: Step<M, C, Result<T, E>>,
)
    ensures
        match (step, step@) {
            (Step::Call(m, c), Step::Call(machine, call)) => m@ == machine && c@ == call,
            (Step::Finish(Ok(v)), Step::Finish(Ok(value))) => v@ == value,
            (Step::Finish(Err(e)), Step::Finish(Err(error))) => e@ == error,
            _ => false,
        },
{
}

} // verus!

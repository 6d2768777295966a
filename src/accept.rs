//! The decisions of the accept loop.
use vstd::prelude::*;
use crate::cancel::{race_output, race_spec};

verus! {

/// What the accept loop does with the result of one accept raced against
/// shutdown.
pub enum AcceptAction<C, E> {
    /// Hand the new connection to a handler of its own and accept again.
    Spawn(C),
    /// Shutdown was signalled: leave the loop successfully.
    Stop,
    /// The listener failed: leave the loop with its error.
    Fail(E),
}

/// The accept loop's rule: `None` is an accept that lost its race against
/// shutdown.
pub open spec fn accept_spec<C, E>(r: Option<Result<C, E>>) -> AcceptAction<C, E> {
    match r {
        None => AcceptAction::Stop,
        Some(Err(e)) => AcceptAction::Fail(e),
        Some(Ok(c)) => AcceptAction::Spawn(c),
    }
}

/// Decides what the accept loop does after one accept raced against shutdown.
pub fn accept_step<C, E>(r: Option<Result<C, E>>) -> (a: AcceptAction<C, E>)
    ensures
        a == accept_spec(r),
{
    match r {
        None => AcceptAction::Stop,
        Some(Err(e)) => AcceptAction::Fail(e),
        Some(Ok(c)) => AcceptAction::Spawn(c),
    }
}

/// No handler after shutdown. Once the signal has fired, every accept loses
/// its race, even one whose connection is ready at the same moment, so the
/// loop stops and spawns nothing.
pub proof fn lemma_no_spawn_after_cancel<C, E>(accepted: Option<Result<C, E>>)
    ensures
        race_output(race_spec(true, accepted)) is None,
        accept_spec(race_output(race_spec(true, accepted))) is Stop,
{
}

} // verus!

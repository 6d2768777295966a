//! Racing one operation against a timer.
use vstd::prelude::*;

verus! {

/// One look at an operation raced against its timer.
pub enum Timed<T> {
    /// Neither the operation nor the timer is ready.
    Pending,
    /// The timer went off first: the operation is abandoned.
    Expired,
    /// The operation finished in time.
    Done(T),
}

/// The timer race rule: the operation is looked at first, so a result that
/// is ready together with the timer still counts.
pub open spec fn timed_spec<T>(op: Option<T>, expired: bool) -> Timed<T> {
    match op {
        Some(x) => Timed::Done(x),
        None => if expired {
            Timed::Expired
        } else {
            Timed::Pending
        },
    }
}

/// Decides one wake-up of an operation raced against a timer, given what the
/// operation yielded, if anything, and whether the timer has gone off.
pub fn race_with_timer<T>(op: Option<T>, expired: bool) -> (r: Timed<T>)
    ensures
        r == timed_spec(op, expired),
{
    match op {
        Some(x) => Timed::Done(x),
        None => if expired {
            Timed::Expired
        } else {
            Timed::Pending
        },
    }
}

} // verus!

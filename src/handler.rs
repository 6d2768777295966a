//! The decisions of one connection's handler: read a request unless
//! shutdown has begun, count it, process it to the end, answer it.
use vstd::prelude::*;
use crate::cancel::{Raced, race_output, race_spec};
use crate::idle::{RequestCounter, counted};

verus! {

/// The answer the protocol layer gives to one request.
#[derive(Debug, Clone, Copy, PartialEq, Eq, Structural)]
pub enum Completion {
    /// The request was answered, with this application status.
    Complete(u32),
    /// The request took too long and was given up.
    Overloaded,
}

/// What the protocol reader yielded when asked for the next request.
#[derive(Debug, Clone, Copy, PartialEq, Eq, Structural)]
pub enum ReadOutcome {
    /// A complete request.
    Request,
    /// The peer closed the stream.
    Ended,
    /// The stream broke or the request could not be decoded.
    Failed,
}

/// Where a connection's handler stands.
#[derive(Debug, Clone, Copy, PartialEq, Eq, Structural)]
pub enum Phase {
    /// Waiting for the next request, raced against shutdown.
    Reading,
    /// Processing a request; shutdown does not interrupt this.
    Processing,
    /// Done with the connection.
    Closed,
}

/// The answer for a processed request: `Some(Ok(()))` when it succeeded,
/// `Some(Err(..))` when the application failed, `None` when its time ran out.
pub open spec fn completion_spec<E>(outcome: Option<Result<(), E>>) -> Completion {
    match outcome {
        Some(Ok(())) => Completion::Complete(0),
        Some(Err(_)) => Completion::Complete(1),
        None => Completion::Overloaded,
    }
}

/// Whether a read result starts the processing of a request. `None` is a
/// read that lost its race against shutdown.
pub open spec fn read_begins(phase: Phase, read: Option<ReadOutcome>) -> bool {
    phase == Phase::Reading && read == Some(ReadOutcome::Request)
}

/// The phase after a read result.
pub open spec fn phase_after_read(phase: Phase, read: Option<ReadOutcome>) -> Phase {
    if phase != Phase::Reading {
        phase
    } else if read_begins(phase, read) {
        Phase::Processing
    } else {
        Phase::Closed
    }
}

/// The phase after a request has been processed, whatever its outcome.
pub open spec fn phase_after_processing(phase: Phase) -> Phase {
    if phase == Phase::Processing {
        Phase::Reading
    } else {
        phase
    }
}

/// Maps the outcome of a request's processing, raced against its timer, to
/// the answer for the protocol layer.
pub fn completion_for<E>(outcome: Option<Result<(), E>>) -> (c: Completion)
    ensures
        c == completion_spec(outcome),
{
    match outcome {
        Some(Ok(())) => Completion::Complete(0),
        Some(Err(_)) => Completion::Complete(1),
        None => Completion::Overloaded,
    }
}

/// The state of one connection's handler.
pub struct ConnectionHandler {
    phase: Phase,
}

impl ConnectionHandler {
    /// The handler's phase.
    pub closed spec fn phase_spec(&self) -> Phase {
        self.phase
    }

    /// A handler about to read its connection's first request.
    pub fn new() -> (r: ConnectionHandler)
        ensures
            r.phase_spec() == Phase::Reading,
    {
        ConnectionHandler { phase: Phase::Reading }
    }

    /// The handler's phase.
    pub fn phase(&self) -> (r: Phase)
        ensures
            r == self.phase_spec(),
    {
        self.phase
    }

    /// Takes the result of a read raced against shutdown (`None` when shutdown
    /// won). Returns true when a request is to be processed; it is then
    /// counted. Any other result closes the connection.
    pub fn on_read(&mut self, read: Option<ReadOutcome>, counter: &mut RequestCounter) -> (begin:
        bool)
        ensures
            begin == read_begins(old(self).phase_spec(), read),
            final(self).phase_spec() == phase_after_read(old(self).phase_spec(), read),
            final(counter)@ == (if begin {
                counted(old(counter)@)
            } else {
                old(counter)@
            }),
    {
        if self.phase == Phase::Reading {
            match read {
                Some(ReadOutcome::Request) => {
                    self.phase = Phase::Processing;
                    counter.record();
                    true
                },
                _ => {
                    self.phase = Phase::Closed;
                    false
                },
            }
        } else {
            false
        }
    }

    /// Takes the outcome of the request being processed and returns its
    /// answer; the handler then goes back to reading.
    pub fn on_processed<E>(&mut self, outcome: Option<Result<(), E>>) -> (c: Completion)
        ensures
            c == completion_spec(outcome),
            final(self).phase_spec() == phase_after_processing(old(self).phase_spec()),
    {
        if self.phase == Phase::Processing {
            self.phase = Phase::Reading;
        }
        completion_for(outcome)
    }
}

/// Shutdown in the middle of a request. A handler that has begun a request
/// has no way to be stopped before it ends: processing leads back to reading
/// whatever the outcome (success, failure or its own timeout), and
/// [`ConnectionHandler::on_processed`] answers every outcome. Once the signal has fired, every later read loses its race
/// whatever the stream holds, so the handler closes without starting
/// another request and without counting one.
pub proof fn lemma_request_finishes_despite_shutdown(next: Option<ReadOutcome>)
    ensures
        phase_after_read(Phase::Reading, Some(ReadOutcome::Request)) == Phase::Processing,
        phase_after_processing(Phase::Processing) == Phase::Reading,
        race_spec(true, next) == Raced::<ReadOutcome>::Cancelled,
        !read_begins(Phase::Reading, race_output(race_spec(true, next))),
        phase_after_read(Phase::Reading, race_output(race_spec(true, next))) == Phase::Closed,
{
}

} // verus!

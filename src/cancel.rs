//! The process-wide "please stop" broadcast.
//!
//! A [`Token`] is the observing side: it can be cloned freely and every clone
//! completes once the signal has been sent. A [`Trigger`] is the firing side:
//! it sends at most once, however often it is fired.
use vstd::prelude::*;

verus! {

#[verifier::external_type_specification]
#[verifier::external_body]
#[verifier::reject_recursive_types(T)]
pub struct ExSender<T>(oneshot::Sender<T>);

#[verifier::external_type_specification]
#[verifier::external_body]
#[verifier::reject_recursive_types(T)]
pub struct ExReceiver<T>(oneshot::Receiver<T>);

#[verifier::external_type_specification]
#[verifier::external_body]
#[verifier::reject_recursive_types(T)]
pub struct ExSendError<T>(oneshot::SendError<T>);

#[verifier::external_type_specification]
#[verifier::external_body]
pub struct ExRecvError(oneshot::RecvError);

#[verifier::external_type_specification]
#[verifier::external_body]
#[verifier::reject_recursive_types(Fut)]
pub struct ExShared<Fut: core::future::Future>(futures::future::Shared<Fut>);

/// Relies on `oneshot::channel`: a fresh sender and receiver of one channel.
#[verifier::external_body]
fn open_channel() -> (r: (oneshot::Sender<()>, oneshot::Receiver<()>)) {
    oneshot::channel::<()>()
}

/// Relies on `oneshot::Sender::send`: consumes the sender and wakes the
/// receiver; it fails only when the receiver is already gone.
#[verifier::external_body]
fn send_signal(tx: oneshot::Sender<()>) -> (r: Result<(), oneshot::SendError<()>>) {
    tx.send(())
}

/// Relies on `futures::FutureExt::shared`: turns the receiver into a future
/// that any number of clones may await, each seeing the one outcome.
#[verifier::external_body]
fn share_receiver(rx: oneshot::Receiver<()>) -> (r: futures::future::Shared<oneshot::Receiver<()>>) {
    futures::FutureExt::shared(rx)
}

/// Relies on `Clone for futures::future::Shared`: another handle on the same
/// shared future.
#[verifier::external_body]
fn clone_shared(rx: &futures::future::Shared<oneshot::Receiver<()>>) -> (r: futures::future::Shared<
    oneshot::Receiver<()>,
>) {
    rx.clone()
}

/// The observing side of the cancellation signal.
///
/// Awaiting [`Token::signal`] completes once the matching [`Trigger`] has
/// fired (or has been dropped without firing, which also means that nobody
/// can ask for more work); it completes at once for a handle taken after
/// that moment.
pub struct Token {
    rx: futures::future::Shared<oneshot::Receiver<()>>,
}

/// The firing side of the cancellation signal: it holds the sender until the
/// first firing and nothing afterwards.
pub struct Trigger {
    tx: Option<oneshot::Sender<()>>,
}

impl Token {
    /// A fresh signal that nothing has fired yet, with its trigger.
    pub fn new() -> (r: (Token, Trigger))
        ensures
            !r.1.fired(),
    {
        let (tx, rx) = open_channel();
        (Token { rx: share_receiver(rx) }, Trigger { tx: Some(tx) })
    }

    /// A handle on the shared future that completes with the signal.
    pub fn signal(&self) -> futures::future::Shared<oneshot::Receiver<()>> {
        clone_shared(&self.rx)
    }
}

impl Clone for Token {
    fn clone(&self) -> Self {
        Token { rx: clone_shared(&self.rx) }
    }
}

/// What firing a trigger does to its state: it is fired afterwards, and the
/// signal goes out only if it had not been fired before.
pub open spec fn fire_sends(fired: bool) -> bool {
    !fired
}

impl Trigger {
    /// Whether this trigger has fired already.
    pub closed spec fn fired(&self) -> bool {
        self.tx.is_none()
    }

    /// Whether [`Trigger::fire`] has been called on this trigger.
    pub fn has_fired(&self) -> (r: bool)
        ensures
            r == self.fired(),
    {
        self.tx.is_none()
    }

    /// Fires the signal. Only the first call sends; every later call does
    /// nothing. Returns whether this call was the one that sent.
    pub fn fire(&mut self) -> (sent: bool)
        ensures
            final(self).fired(),
            sent == fire_sends(old(self).fired()),
    {
        match self.tx.take() {
            Some(tx) => {
                let _ = send_signal(tx);
                true
            },
            None => false,
        }
    }
}

/// How many of `n` successive firings, starting from state `fired`, send the
/// signal.
pub open spec fn sends_over(fired: bool, n: nat) -> nat
    decreases n,
{
    if n == 0 {
        0
    } else {
        (if fire_sends(fired) { 1nat } else { 0nat }) + sends_over(true, (n - 1) as nat)
    }
}

/// However many times a trigger is fired, from one or from many holders, the
/// signal is sent exactly once: the first firing sends and all later ones do
/// nothing. A trigger that has fired stays fired, so every observer that comes
/// later finds the signal already sent.
pub proof fn lemma_fires_exactly_once(n: nat)
    requires
        n >= 1,
    ensures
        sends_over(false, n) == 1,
        forall|k: nat| k >= 1 ==> #[trigger] sends_over(true, k) == 0,
    decreases n,
{
    assert forall|k: nat| k >= 1 implies #[trigger] sends_over(true, k) == 0 by {
        lemma_fired_sends_nothing(k);
    }
    lemma_fired_sends_nothing((n - 1) as nat);
}

proof fn lemma_fired_sends_nothing(k: nat)
    ensures
        sends_over(true, k) == 0,
    decreases k,
{
    if k > 0 {
        lemma_fired_sends_nothing((k - 1) as nat);
    }
}

/// One look at an operation raced against the cancellation signal.
pub enum Raced<T> {
    /// Neither side is ready yet.
    Pending,
    /// The signal won: the operation is abandoned.
    Cancelled,
    /// The operation finished first.
    Done(T),
}

/// The biased race rule: the signal is looked at first, so when both sides
/// are ready at once, cancellation wins.
pub open spec fn race_spec<T>(signalled: bool, op: Option<T>) -> Raced<T> {
    if signalled {
        Raced::Cancelled
    } else {
        match op {
            Some(x) => Raced::Done(x),
            None => Raced::Pending,
        }
    }
}

/// What a finished race hands back: `None` when the signal won, the
/// operation's result otherwise.
pub open spec fn race_output<T>(r: Raced<T>) -> Option<T> {
    match r {
        Raced::Done(x) => Some(x),
        _ => None,
    }
}

/// Decides one wake-up of an operation raced against the signal, given
/// whether the signal is ready and what the operation yielded, if anything.
/// A caller need not poll the operation at all once the signal is ready.
pub fn race_with_cancel<T>(signalled: bool, op: Option<T>) -> (r: Raced<T>)
    ensures
        r == race_spec(signalled, op),
{
    if signalled {
        Raced::Cancelled
    } else {
        match op {
            Some(x) => Raced::Done(x),
            None => Raced::Pending,
        }
    }
}

} // verus!

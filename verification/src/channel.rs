//! The notification channel: a single-slot queue that carries the identifier
//! of a freshly cached resource from the fetch task to the display side.
//!
//! The queue itself is the bounded channel of the `async-channel` crate, held
//! whole — both halves — inside one opaque value, so that nothing outside
//! this module can clone an endpoint or close the channel. Its pending
//! contents are named by `notify_pending`, and each operation's contract
//! states what the crate's source shows of a capacity-one channel.

use vstd::prelude::*;

verus! {

/// A single-slot signal from the background fetch task to the display side.
/// It holds at most one pending message: the identifier whose file has just
/// been cached.
#[verifier::external_body]
pub struct NotifyChannel {
    tx: async_channel::Sender<String>,
    rx: async_channel::Receiver<String>,
}

/// The identifiers pending in the channel, eldest first.
pub uninterp spec fn notify_pending(c: NotifyChannel) -> Seq<Seq<char>>;

impl NotifyChannel {
    /// Relies on async_channel::bounded(1): a fresh channel holds no
    /// messages.
    #[verifier::external_body]
    pub fn new() -> (c: NotifyChannel)
        ensures
            notify_pending(c).len() == 0,
    {
        let (tx, rx) = async_channel::bounded(1);
        NotifyChannel { tx, rx }
    }

    /// Relies on async_channel::Sender::try_send on a capacity-one channel:
    /// it enqueues and succeeds exactly when the slot is free, and fails full
    /// otherwise; the channel is never closed, since both halves live inside
    /// this value.
    #[verifier::external_body]
    pub fn try_send(&mut self, id: &String) -> (ok: bool)
        ensures
            ok == (notify_pending(*old(self)).len() == 0),
            ok ==> notify_pending(*final(self)) == notify_pending(*old(self)).push(id@),
            !ok ==> notify_pending(*final(self)) == notify_pending(*old(self)),
    {
        self.tx.try_send(id.clone()).is_ok()
    }

    /// Relies on async_channel::Receiver::try_recv: it dequeues the eldest
    /// pending message, or returns nothing when the slot is empty; never
    /// closed for the same reason as above.
    #[verifier::external_body]
    pub fn try_recv(&mut self) -> (r: Option<String>)
        ensures
            notify_pending(*old(self)).len() == 0 ==> r is None
                && notify_pending(*final(self)) == notify_pending(*old(self)),
            notify_pending(*old(self)).len() > 0 ==> (match r {
                Some(id) => id@ == notify_pending(*old(self))[0]
                    && notify_pending(*final(self)) == notify_pending(*old(self)).drop_first(),
                None => false,
            }),
    {
        self.rx.try_recv().ok()
    }
}

} // verus!

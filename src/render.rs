use vstd::prelude::*;
use crate::bank::{Bank, Update, updated_by_all};

verus! {

/// The consuming end of the control channel, carried through opaquely.
#[verifier::external_type_specification]
#[verifier::external_body]
#[verifier::reject_recursive_types(T)]
pub struct ExReceiver<T>(flume::Receiver<T>);

/// Relies on flume::Receiver::drain: takes, without waiting, every message
/// sitting in the channel at the moment of the call, oldest first. What is
/// waiting depends on the control side, so nothing is promised of the result.
#[verifier::external_body]
fn take_waiting<T>(rx: &flume::Receiver<T>) -> (r: Vec<T>) {
    rx.drain().collect()
}

/// The render context: the sole owner of the oscillator bank and of the
/// consuming end of the update channel. Once per output buffer the audio side
/// asks it to apply what is pending, then renders from the bank.
#[verifier::reject_recursive_types(C)]
pub struct RenderLoop<C> {
    bank: Bank<C>,
    updates: flume::Receiver<Update<C>>,
}

impl<C> RenderLoop<C> {
    pub closed spec fn bank_view(&self) -> Seq<C> {
        self.bank@
    }

    pub fn new(bank: Bank<C>, updates: flume::Receiver<Update<C>>) -> (r: Self)
        ensures
            r.bank_view() == bank@,
    {
        RenderLoop { bank, updates }
    }

    pub fn bank(&self) -> (r: &Bank<C>)
        ensures
            r@ == self.bank_view(),
    {
        &self.bank
    }

    /// The bank, for rendering a buffer from it.
    pub fn bank_mut(&mut self) -> (r: &mut Bank<C>)
        ensures
            r@ == old(self).bank_view(),
            final(self).bank_view() == final(r)@,
    {
        &mut self.bank
    }

    /// Applies a batch of updates, drained in one go, in arrival order.
    pub fn apply_batch(&mut self, batch: Vec<Update<C>>)
        ensures
            final(self).bank_view() == updated_by_all(old(self).bank_view(), batch@),
    {
        self.bank.apply_all(batch);
    }

    /// Drains every update waiting in the channel, without blocking, and
    /// applies them in the order they were sent. Returns how many were applied.
    pub fn apply_pending(&mut self) -> (n: usize)
        ensures
            exists|batch: Seq<Update<C>>|
                batch.len() == n && final(self).bank_view() == updated_by_all(
                    old(self).bank_view(),
                    batch,
                ),
    {
        let batch = take_waiting(&self.updates);
        let n = batch.len();
        self.apply_batch(batch);
        n
    }
}

} // verus!

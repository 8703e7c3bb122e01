use vstd::prelude::*;

verus! {

/// A full replacement of one oscillator's configuration, addressed to a bank
/// position. `config` is the whole configuration, never a partial patch.
pub struct Update<C> {
    pub index: usize,
    pub config: C,
}

/// The ordered collection of live oscillators. An oscillator's address is its
/// position, which never changes: oscillators are only replaced or appended.
pub struct Bank<C> {
    oscillators: Vec<C>,
}

/// The bank after one update: an index that addresses an existing position
/// replaces the configuration there; any other index appends at the end.
pub open spec fn updated<C>(bank: Seq<C>, u: Update<C>) -> Seq<C> {
    if u.index < bank.len() {
        bank.update(u.index as int, u.config)
    } else {
        bank.push(u.config)
    }
}

/// The bank after a batch of updates, applied in arrival order.
pub open spec fn updated_by_all<C>(bank: Seq<C>, batch: Seq<Update<C>>) -> Seq<C>
    decreases batch.len(),
{
    if batch.len() == 0 {
        bank
    } else {
        updated(updated_by_all(bank, batch.drop_last()), batch.last())
    }
}

/// Replacing: an update addressed to an existing position changes that
/// oscillator's configuration to the update's, keeps the bank's length, and
/// leaves every other oscillator exactly as it was.
pub proof fn lemma_replace_touches_only_its_index<C>(bank: Seq<C>, u: Update<C>)
    requires
        u.index < bank.len(),
    ensures
        updated(bank, u).len() == bank.len(),
        updated(bank, u)[u.index as int] == u.config,
        forall|j: int| 0 <= j < bank.len() && j != u.index ==> #[trigger] updated(bank, u)[j] == bank[j],
{
}

/// Appending: an update whose index addresses no existing position, however
/// far past the end, grows the bank by exactly one oscillator at the end,
/// configured as the update says, and leaves the others as they were.
pub proof fn lemma_out_of_range_appends<C>(bank: Seq<C>, u: Update<C>)
    requires
        u.index >= bank.len(),
    ensures
        updated(bank, u).len() == bank.len() + 1,
        updated(bank, u)[bank.len() as int] == u.config,
        forall|j: int| 0 <= j < bank.len() ==> #[trigger] updated(bank, u)[j] == bank[j],
{
}

/// Last write wins within a batch: two updates for the same index, applied in
/// one batch, leave the bank as the second one alone would, and the position
/// holds the second configuration. This holds whenever the first update either
/// replaces or appends exactly at the end (an index at most the bank's length).
pub proof fn lemma_last_write_wins<C>(bank: Seq<C>, first: Update<C>, second: Update<C>)
    requires
        first.index == second.index,
        first.index <= bank.len(),
    ensures
        updated_by_all(bank, seq![first, second]) == updated(bank, second),
        updated_by_all(bank, seq![first, second])[first.index as int] == second.config,
{
    let batch = seq![first, second];
    let single = seq![first];
    assert(single.drop_last() =~= Seq::<Update<C>>::empty());
    assert(updated_by_all(bank, Seq::<Update<C>>::empty()) == bank);
    assert(single.last() == first);
    assert(updated_by_all(bank, single) == updated(bank, first));
    assert(batch.drop_last() =~= single);
    assert(updated_by_all(bank, batch.drop_last()) == updated(bank, first));
    if first.index < bank.len() {
        assert(updated(updated(bank, first), second) =~= updated(bank, second));
    } else {
        assert(updated(updated(bank, first), second) =~= updated(bank, second));
    }
}

impl<C> View for Bank<C> {
    type V = Seq<C>;

    closed spec fn view(&self) -> Seq<C> {
        self.oscillators@
    }
}

impl<C> Bank<C> {
    /// A bank seeded with the given oscillators, in that order.
    pub fn new(initial: Vec<C>) -> (r: Self)
        ensures
            r@ == initial@,
    {
        Bank { oscillators: initial }
    }

    pub fn len(&self) -> (r: usize)
        ensures
            r == self@.len(),
    {
        self.oscillators.len()
    }

    pub fn get(&self, index: usize) -> (r: &C)
        requires
            index < self@.len(),
        ensures
            *r == self@[index as int],
    {
        &self.oscillators[index]
    }

    /// Mutable access to one oscillator, so that rendering can advance its phase.
    pub fn get_mut(&mut self, index: usize) -> (r: &mut C)
        requires
            index < old(self)@.len(),
        ensures
            *r == old(self)@[index as int],
            final(self)@ == old(self)@.update(index as int, *final(r)),
    {
        &mut self.oscillators[index]
    }

    /// Applies one update: replace in place, or append when the index does not
    /// address an existing oscillator.
    pub fn apply(&mut self, u: Update<C>)
        ensures
            final(self)@ == updated(old(self)@, u),
    {
        let Update { index, config } = u;
        if index < self.oscillators.len() {
            self.oscillators.set(index, config);
        } else {
            self.oscillators.push(config);
        }
    }

    /// Applies a batch of updates in the order they arrived.
    pub fn apply_all(&mut self, batch: Vec<Update<C>>)
        ensures
            final(self)@ == updated_by_all(old(self)@, batch@),
    {
        let ghost start = self@;
        let ghost all = batch@;
        let mut rest = batch;
        let mut stack: Vec<Update<C>> = Vec::new();
        while rest.len() > 0
            invariant
                rest@ == all.subrange(0, rest@.len() as int),
                stack@.len() + rest@.len() == all.len(),
                forall|k: int| 0 <= k < stack@.len() ==> stack@[k] == all[all.len() - 1 - k],
            decreases rest@.len(),
        {
            let u = rest.pop().unwrap();
            stack.push(u);
        }
        while stack.len() > 0
            invariant
                forall|k: int| 0 <= k < stack@.len() ==> stack@[k] == all[all.len() - 1 - k],
                stack@.len() <= all.len(),
                self@ == updated_by_all(start, all.subrange(0, all.len() - stack@.len())),
            decreases stack@.len(),
        {
            let ghost done = all.len() - stack@.len();
            let u = stack.pop().unwrap();
            proof {
                assert(u == all[done]);
                assert(all.subrange(0, done + 1).drop_last() =~= all.subrange(0, done));
            }
            self.apply(u);
        }
        proof {
            assert(all.subrange(0, all.len() as int) =~= all);
        }
    }
}

} // verus!

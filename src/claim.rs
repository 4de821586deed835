//! A slot that several execution contexts share: the first to claim it
//! computes the value, the others wait for it and then read it.
//!
//! Each operation is one atomic step; a host that shares the slot runs each
//! under the lock that guards it, and holds the lock only for the step, not
//! for the computation.
use vstd::prelude::*;

verus! {

/// Where a shared slot stands.
#[derive(Debug, Clone, Copy, PartialEq, Eq, Hash)]
pub enum SlotState<T> {
    /// Nobody has the value or is computing it.
    Empty,
    /// The context with this number is computing the value.
    Claimed(u64),
    /// The value is there.
    Filled(T),
}

/// What a context that asks for the value is to do next.
#[derive(Debug, Clone, Copy, PartialEq, Eq, Hash, Structural)]
pub enum ClaimOutcome {
    /// Compute the value, then complete the slot with it.
    Compute,
    /// Another context is computing it: wait, then ask again.
    Wait,
    /// The value is there: read it.
    Ready,
}

/// One context asks for the value: the first claim of an empty slot is
/// granted, a claimed slot makes the caller wait, a filled one is ready.
pub open spec fn claim_step<T>(s: SlotState<T>, who: u64) -> (ClaimOutcome, SlotState<T>) {
    match s {
        SlotState::Empty => (ClaimOutcome::Compute, SlotState::Claimed(who)),
        SlotState::Claimed(_) => (ClaimOutcome::Wait, s),
        SlotState::Filled(_) => (ClaimOutcome::Ready, s),
    }
}

/// The claimant hands back what it computed: a value fills the slot, a
/// failure empties it so that a later claim retries. Anyone else's
/// completion changes nothing.
pub open spec fn complete_step<T>(s: SlotState<T>, who: u64, result: Option<T>) -> SlotState<T> {
    match s {
        SlotState::Claimed(c) => if c == who {
            match result {
                Some(v) => SlotState::Filled(v),
                None => SlotState::Empty,
            }
        } else {
            s
        },
        _ => s,
    }
}

/// The outcomes of a run of claims, one context after another, and the
/// state they leave.
pub open spec fn claims<T>(s: SlotState<T>, whos: Seq<u64>) -> (Seq<ClaimOutcome>, SlotState<T>)
    decreases whos.len(),
{
    if whos.len() == 0 {
        (Seq::empty(), s)
    } else {
        let (o, s1) = claim_step(s, whos[0]);
        let (rest, s2) = claims(s1, whos.subrange(1, whos.len() as int));
        (seq![o] + rest, s2)
    }
}

/// A slot shared by several contexts.
#[derive(Debug)]
pub struct ClaimSlot<T> {
    state: SlotState<T>,
}

impl<T> View for ClaimSlot<T> {
    type V = SlotState<T>;

    closed spec fn view(&self) -> SlotState<T> {
        self.state
    }
}

impl<T> ClaimSlot<T> {
    /// An empty slot.
    pub fn new() -> (r: Self)
        ensures
            r@ == SlotState::<T>::Empty,
    {
        ClaimSlot { state: SlotState::Empty }
    }

    /// Context `who` asks for the value.
    pub fn claim(&mut self, who: u64) -> (r: ClaimOutcome)
        ensures
            (r, final(self)@) == claim_step(old(self)@, who),
    {
        match self.state {
            SlotState::Empty => {
                self.state = SlotState::Claimed(who);
                ClaimOutcome::Compute
            },
            SlotState::Claimed(_) => ClaimOutcome::Wait,
            SlotState::Filled(_) => ClaimOutcome::Ready,
        }
    }

    /// Context `who` hands back what it computed, `None` for a failure.
    /// Returns whether `who` held the claim.
    pub fn complete(&mut self, who: u64, result: Option<T>) -> (r: bool)
        ensures
            r == (old(self)@ == SlotState::<T>::Claimed(who)),
            final(self)@ == complete_step(old(self)@, who, result),
    {
        let holds = match self.state {
            SlotState::Claimed(c) => c == who,
            _ => false,
        };
        if holds {
            self.state = match result {
                Some(v) => SlotState::Filled(v),
                None => SlotState::Empty,
            };
        }
        holds
    }

    /// The value, once the slot is filled.
    pub fn get(&self) -> (r: Option<&T>)
        ensures
            r is Some <==> self@ is Filled,
            r is Some ==> self@ == SlotState::Filled(*r->0),
    {
        match &self.state {
            SlotState::Filled(v) => Some(v),
            _ => None,
        }
    }
}

/// While a value is being computed, every other context that asks waits,
/// and the claim stays with the first.
pub proof fn lemma_claimed_slot_makes_all_wait<T>(c: u64, whos: Seq<u64>)
    ensures
        claims(SlotState::<T>::Claimed(c), whos).1 == SlotState::<T>::Claimed(c),
        claims(SlotState::<T>::Claimed(c), whos).0.len() == whos.len(),
        forall|i: int|
            0 <= i < whos.len() ==> #[trigger] claims(SlotState::<T>::Claimed(c), whos).0[i]
                == ClaimOutcome::Wait,
    decreases whos.len(),
{
    if whos.len() > 0 {
        lemma_claimed_slot_makes_all_wait::<T>(c, whos.subrange(1, whos.len() as int));
    }
}

/// Of any number of contexts that ask for an empty slot's value at the same
/// time, exactly one computes it: the first to be served; the others wait.
pub proof fn lemma_one_context_computes<T>(whos: Seq<u64>)
    requires
        whos.len() > 0,
    ensures
        claims(SlotState::<T>::Empty, whos).1 == SlotState::<T>::Claimed(whos[0]),
        claims(SlotState::<T>::Empty, whos).0.len() == whos.len(),
        claims(SlotState::<T>::Empty, whos).0[0] == ClaimOutcome::Compute,
        forall|i: int|
            1 <= i < whos.len() ==> #[trigger] claims(SlotState::<T>::Empty, whos).0[i]
                == ClaimOutcome::Wait,
{
    let rest = whos.subrange(1, whos.len() as int);
    lemma_claimed_slot_makes_all_wait::<T>(whos[0], rest);
    let outs = claims(SlotState::<T>::Empty, whos).0;
    let rest_outs = claims(SlotState::<T>::Claimed(whos[0]), rest).0;
    assert forall|i: int| 1 <= i < whos.len() implies #[trigger] outs[i] == ClaimOutcome::Wait by {
        assert(outs[i] == rest_outs[i - 1]);
    }
}

/// Once the claimant fills the slot, every context that asks reads that
/// same value, and no one computes it again.
pub proof fn lemma_all_read_the_value<T>(who: u64, v: T, whos: Seq<u64>)
    ensures
        complete_step(SlotState::Claimed(who), who, Some(v)) == SlotState::Filled(v),
        claims(SlotState::Filled(v), whos).1 == SlotState::Filled(v),
        claims(SlotState::Filled(v), whos).0.len() == whos.len(),
        forall|i: int|
            0 <= i < whos.len() ==> #[trigger] claims(SlotState::Filled(v), whos).0[i]
                == ClaimOutcome::Ready,
    decreases whos.len(),
{
    if whos.len() > 0 {
        lemma_all_read_the_value::<T>(who, v, whos.subrange(1, whos.len() as int));
    }
}

} // verus!

use vstd::prelude::*;
use crate::event::EventModel;

verus! {

/// The mathematical shadow of an event source: the events already read from
/// the kernel but not yet handed out, in kernel order, and whether the
/// reactor has an armed wake-up ("read interest") for the descriptor.
#[verifier::ext_equal]
pub ghost struct SourceModel {
    pub pending: Seq<EventModel>,
    pub registered: bool,
}

/// The buffer is a hand-off area, never a parking place: while events sit in
/// it no wake-up is armed, because a poll that finds it non-empty returns an
/// event rather than "not ready".
pub open spec fn inv(s: SourceModel) -> bool {
    s.pending.len() > 0 ==> !s.registered
}

/// One delivery out of a non-empty buffer: the head leaves; when that empties
/// the buffer, read interest is re-armed on the way out.
pub open spec fn buffer_step(s: SourceModel) -> SourceModel
    recommends
        s.pending.len() > 0,
{
    SourceModel {
        pending: s.pending.skip(1),
        registered: if s.pending.len() == 1 { true } else { s.registered },
    }
}

/// Folding one kernel batch into an empty-buffered source: an empty batch
/// only re-arms; otherwise the head is delivered at once, the tail is
/// buffered, and read interest is re-armed exactly when nothing was buffered.
pub open spec fn batch_step(s: SourceModel, batch: Seq<EventModel>) -> SourceModel
    recommends
        s.pending.len() == 0,
{
    if batch.len() == 0 {
        SourceModel { pending: s.pending, registered: true }
    } else {
        SourceModel { pending: batch.skip(1), registered: batch.len() == 1 }
    }
}

/// The events that `k` successive buffer deliveries hand out, starting
/// from `s`.
pub open spec fn drained(s: SourceModel, k: nat) -> Seq<EventModel>
    decreases k,
{
    if k == 0 {
        Seq::empty()
    } else {
        seq![s.pending[0]] + drained(buffer_step(s), (k - 1) as nat)
    }
}

/// The source after `k` successive buffer deliveries, starting from `s`.
pub open spec fn after_drain(s: SourceModel, k: nat) -> SourceModel
    decreases k,
{
    if k == 0 {
        s
    } else {
        after_drain(buffer_step(s), (k - 1) as nat)
    }
}

/// Law: draining a buffer delivers exactly its contents, in order; once it
/// has emptied, read interest stands re-armed.
pub proof fn lemma_drain_in_order(s: SourceModel)
    ensures
        drained(s, s.pending.len()) == s.pending,
        after_drain(s, s.pending.len()).pending.len() == 0,
        s.pending.len() > 0 ==> after_drain(s, s.pending.len()).registered,
    decreases s.pending.len(),
{
    if s.pending.len() == 0 {
        assert(drained(s, 0) =~= s.pending);
    } else {
        let s1 = buffer_step(s);
        lemma_drain_in_order(s1);
        assert(drained(s, s.pending.len()) =~= s.pending);
    }
}

/// Law: a kernel batch of `n >= 1` events yields exactly `n` delivered
/// events — the head straight from the read, the tail from the buffer — in
/// kernel order; only after the `n`th is the buffer empty again (and the
/// kernel-drain step asks an empty buffer of its caller), and by then read
/// interest stands re-armed.
pub proof fn lemma_batch_delivered_in_order(s: SourceModel, batch: Seq<EventModel>)
    requires
        s.pending.len() == 0,
        batch.len() >= 1,
    ensures
        ({
            let s1 = batch_step(s, batch);
            let rest = (batch.len() - 1) as nat;
            &&& seq![batch[0]] + drained(s1, rest) == batch
            &&& forall|k: nat| k < rest ==> after_drain(s1, k).pending.len() > 0
            &&& after_drain(s1, rest).pending.len() == 0
            &&& after_drain(s1, rest).registered
        }),
{
    let s1 = batch_step(s, batch);
    let rest = (batch.len() - 1) as nat;
    lemma_drain_in_order(s1);
    assert(seq![batch[0]] + drained(s1, rest) =~= batch);
    assert forall|k: nat| k < rest implies after_drain(s1, k).pending.len() > 0 by {
        lemma_drain_keeps_count(s1, k);
    }
}

/// Each buffer delivery removes exactly one event, so after `k <= len`
/// deliveries `len - k` events remain.
pub proof fn lemma_drain_keeps_count(s: SourceModel, k: nat)
    requires
        k <= s.pending.len(),
    ensures
        after_drain(s, k).pending.len() == s.pending.len() - k,
    decreases k,
{
    if k > 0 {
        lemma_drain_keeps_count(buffer_step(s), (k - 1) as nat);
    }
}

} // verus!

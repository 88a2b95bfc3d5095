//! The ledger's guarantees, stated and proved over the same transitions
//! that the executable functions' contracts use: FIFO consumption per
//! kind, wildcard semantics, balance bookkeeping, and the reset/finish
//! lifecycle.

use vstd::prelude::*;
use crate::kinds::{kind_index, CallKind, NUM_KINDS};
use crate::model::{
    consume_status, empty_model, lemma_consume_preserves_wf, lemma_enqueue_preserves_wf,
    m_consume, m_enqueue, wf_model, LedgerModel,
};
use crate::record::{av_kind, rec_kind, record_matches, ActualV, RecordV};
use crate::status::{status_of, ExpectStatus};

verus! {

/// A record whose every argument position is a wildcard. Kinds that match
/// no argument at all (a stub-only timestamp expectation) count; the
/// metric kinds have no wildcard positions, so no metric record qualifies.
pub open spec fn all_wildcard(r: RecordV) -> bool {
    match r {
        RecordV::Log(l, m) => l is None && m is None,
        RecordV::TickPeriod(p) => p is None,
        RecordV::CurrentTime(_) => true,
        RecordV::GetBufferBytes(t, _) => t is None,
        RecordV::SetBufferBytes(t, d) => t is None && d is None,
        RecordV::GetHeaderMapPairs(t, _) => t is None,
        RecordV::SetHeaderMapPairs(t, d) => t is None && d is None,
        RecordV::GetHeaderMapValue(t, k, _) => t is None && k is None,
        RecordV::ReplaceHeaderMapValue(t, k, v) => t is None && k is None && v is None,
        RecordV::RemoveHeaderMapValue(t, k) => t is None && k is None,
        RecordV::AddHeaderMapValue(t, k, v) => t is None && k is None && v is None,
        RecordV::SendLocalResponse(c, b, h, g) => c is None && b is None && h is None
            && g is None,
        RecordV::HttpCall(u, h, b, tr, to, _) => u is None && h is None && b is None && tr is None
            && to is None,
        RecordV::MetricCreate(..) => false,
        RecordV::MetricIncrement(..) => false,
        RecordV::MetricRecord(..) => false,
        RecordV::MetricGet(..) => false,
    }
}

/// An all-wildcard record accepts any actual call of its kind.
pub proof fn lemma_all_wildcard_matches(r: RecordV, a: ActualV)
    requires
        all_wildcard(r),
        rec_kind(r) == av_kind(a),
    ensures
        record_matches(r, a),
{
}

/// Wildcard law: enqueuing an all-wildcard record on a kind with nothing
/// pending, then consuming one real call of that kind with any concrete
/// arguments, reports `Expected`, returns the balance to its prior value,
/// and leaves the kind's queue empty again.
pub proof fn lemma_wildcard_law(m: LedgerModel, r: RecordV, a: ActualV)
    requires
        wf_model(m),
        m.queues[kind_index(rec_kind(r))].len() == 0,
        all_wildcard(r),
        rec_kind(r) == av_kind(a),
    ensures
        consume_status(m_enqueue(m, r), a) == ExpectStatus::Expected,
        m_consume(m_enqueue(m, r), a).balance == m.balance,
        m_consume(m_enqueue(m, r), a).queues[kind_index(av_kind(a))].len() == 0,
{
    let ki = kind_index(rec_kind(r));
    lemma_all_wildcard_matches(r, a);
    lemma_enqueue_preserves_wf(m, r);
    assert(m_enqueue(m, r).queues[ki][0] == r);
}

/// FIFO law: with nothing pending for a kind, enqueuing records first
/// `r1` then `r2` and consuming twice matches the first consume against
/// `r1` and the second against `r2`, never the reverse, and returns the
/// balance to its prior value.
pub proof fn lemma_fifo_law(
    m: LedgerModel,
    r1: RecordV,
    r2: RecordV,
    a1: ActualV,
    a2: ActualV,
    k: CallKind,
)
    requires
        wf_model(m),
        rec_kind(r1) == k,
        rec_kind(r2) == k,
        av_kind(a1) == k,
        av_kind(a2) == k,
        m.queues[kind_index(k)].len() == 0,
    ensures
        consume_status(m_enqueue(m_enqueue(m, r1), r2), a1) == status_of(record_matches(r1, a1)),
        consume_status(m_consume(m_enqueue(m_enqueue(m, r1), r2), a1), a2) == status_of(
            record_matches(r2, a2),
        ),
        m_consume(m_consume(m_enqueue(m_enqueue(m, r1), r2), a1), a2).balance == m.balance,
{
    let ki = kind_index(k);
    let m2 = m_enqueue(m_enqueue(m, r1), r2);
    assert(m2.queues[ki] == m.queues[ki].push(r1).push(r2));
    assert(m2.queues[ki][0] == r1);
    let m3 = m_consume(m2, a1);
    assert(m3.queues[ki] =~= seq![r2]);
    assert(m3.queues[ki][0] == r2);
}

/// Deficit law: consuming with nothing pending for the call's kind
/// reports `Unexpected` and leaves every queue as it was; the balance is
/// debited by one in strict mode and untouched in lenient mode.
pub proof fn lemma_deficit_law(m: LedgerModel, a: ActualV)
    requires
        wf_model(m),
        m.queues[kind_index(av_kind(a))].len() == 0,
    ensures
        consume_status(m, a) == ExpectStatus::Unexpected,
        !m.lenient ==> m_consume(m, a).balance == m.balance - 1,
        m.lenient ==> m_consume(m, a) == m,
        m_consume(m, a).queues == m.queues,
{
}

/// A freshly reset ledger holds nothing and is balanced, so a finish
/// check right after a reset, with no activity in between, succeeds
/// whatever the prior ledger held.
pub proof fn lemma_finish_after_reset(allow_unexpected: bool)
    ensures
        empty_model(allow_unexpected).balance == 0,
        forall|k: int|
            0 <= k < NUM_KINDS ==> empty_model(allow_unexpected).queues[k].len() == 0,
{
}

/// The ledger after enqueuing a whole sequence of records, first first.
pub open spec fn m_enqueue_all(m: LedgerModel, rs: Seq<RecordV>) -> LedgerModel
    decreases rs.len(),
{
    if rs.len() == 0 {
        m
    } else {
        m_enqueue_all(m_enqueue(m, rs[0]), rs.drop_first())
    }
}

/// The ledger after consuming a whole sequence of real calls, first first.
pub open spec fn m_consume_all(m: LedgerModel, acts: Seq<ActualV>) -> LedgerModel
    decreases acts.len(),
{
    if acts.len() == 0 {
        m
    } else {
        m_consume_all(m_consume(m, acts[0]), acts.drop_first())
    }
}

/// Every consume in the run reports `Expected`.
pub open spec fn all_expected(m: LedgerModel, acts: Seq<ActualV>) -> bool
    decreases acts.len(),
{
    if acts.len() == 0 {
        true
    } else {
        consume_status(m, acts[0]) == ExpectStatus::Expected && all_expected(
            m_consume(m, acts[0]),
            acts.drop_first(),
        )
    }
}

pub open spec fn all_of_kind_r(rs: Seq<RecordV>, k: CallKind) -> bool {
    forall|i: int| 0 <= i < rs.len() ==> rec_kind(#[trigger] rs[i]) == k
}

pub open spec fn all_of_kind_a(acts: Seq<ActualV>, k: CallKind) -> bool {
    forall|i: int| 0 <= i < acts.len() ==> av_kind(#[trigger] acts[i]) == k
}

/// Each record accepts the arguments of the call at its own position.
pub open spec fn pairwise_matching(rs: Seq<RecordV>, acts: Seq<ActualV>) -> bool {
    &&& rs.len() == acts.len()
    &&& forall|i: int| 0 <= i < rs.len() ==> record_matches(#[trigger] rs[i], acts[i])
}

/// Enqueuing a sequence of records of one kind credits the balance once
/// per record, appends them in order to that kind's queue, and leaves
/// every other queue alone.
pub proof fn lemma_enqueue_all(m: LedgerModel, rs: Seq<RecordV>, k: CallKind)
    requires
        wf_model(m),
        all_of_kind_r(rs, k),
    ensures
        wf_model(m_enqueue_all(m, rs)),
        m_enqueue_all(m, rs).lenient == m.lenient,
        m_enqueue_all(m, rs).balance == m.balance + rs.len(),
        m_enqueue_all(m, rs).queues[kind_index(k)] == m.queues[kind_index(k)] + rs,
        forall|j: int|
            0 <= j < NUM_KINDS && j != kind_index(k) ==> m_enqueue_all(m, rs).queues[j]
                == m.queues[j],
    decreases rs.len(),
{
    let ki = kind_index(k);
    if rs.len() == 0 {
        assert(m.queues[ki] + rs =~= m.queues[ki]);
    } else {
        assert(rec_kind(rs[0]) == k);
        lemma_enqueue_preserves_wf(m, rs[0]);
        let m1 = m_enqueue(m, rs[0]);
        assert forall|i: int| 0 <= i < rs.drop_first().len() implies rec_kind(
            #[trigger] rs.drop_first()[i],
        ) == k by {
            assert(rs.drop_first()[i] == rs[i + 1]);
        }
        lemma_enqueue_all(m1, rs.drop_first(), k);
        assert(m1.queues[ki] + rs.drop_first() =~= m.queues[ki] + rs);
    }
}

/// Consuming one matching call per pending record drains the kind's
/// queue front to back: every consume reports `Expected`, the balance is
/// debited once per call, and every other queue is left alone.
pub proof fn lemma_consume_matching_run(
    m: LedgerModel,
    rs: Seq<RecordV>,
    acts: Seq<ActualV>,
    k: CallKind,
)
    requires
        wf_model(m),
        all_of_kind_a(acts, k),
        pairwise_matching(rs, acts),
        m.queues[kind_index(k)] == rs,
    ensures
        all_expected(m, acts),
        wf_model(m_consume_all(m, acts)),
        m_consume_all(m, acts).lenient == m.lenient,
        m_consume_all(m, acts).balance == m.balance - acts.len(),
        m_consume_all(m, acts).queues[kind_index(k)].len() == 0,
        forall|j: int|
            0 <= j < NUM_KINDS && j != kind_index(k) ==> m_consume_all(m, acts).queues[j]
                == m.queues[j],
    decreases acts.len(),
{
    let ki = kind_index(k);
    if acts.len() == 0 {
    } else {
        assert(record_matches(rs[0], acts[0]));
        assert(m.queues[ki][0] == rs[0]);
        lemma_consume_preserves_wf(m, acts[0]);
        let m1 = m_consume(m, acts[0]);
        assert(m1.queues[ki] =~= rs.drop_first());
        assert forall|i: int| 0 <= i < acts.drop_first().len() implies av_kind(
            #[trigger] acts.drop_first()[i],
        ) == k by {
            assert(acts.drop_first()[i] == acts[i + 1]);
        }
        assert forall|i: int| 0 <= i < rs.drop_first().len() implies record_matches(
            #[trigger] rs.drop_first()[i],
            acts.drop_first()[i],
        ) by {
            assert(rs.drop_first()[i] == rs[i + 1]);
            assert(acts.drop_first()[i] == acts[i + 1]);
        }
        lemma_consume_matching_run(m1, rs.drop_first(), acts.drop_first(), k);
    }
}

/// Running one kind's test case to completion: from a ledger with nothing
/// pending for kind `k`, enqueuing any records of that kind and then
/// consuming one real call per record, in order, with each call's
/// arguments accepted by its own record, reports `Expected` for every
/// call, returns the balance to its pre-sequence value, and leaves the
/// kind's queue empty again.
pub proof fn lemma_run_to_completion(
    m: LedgerModel,
    rs: Seq<RecordV>,
    acts: Seq<ActualV>,
    k: CallKind,
)
    requires
        wf_model(m),
        all_of_kind_r(rs, k),
        all_of_kind_a(acts, k),
        pairwise_matching(rs, acts),
        m.queues[kind_index(k)].len() == 0,
    ensures
        all_expected(m_enqueue_all(m, rs), acts),
        m_consume_all(m_enqueue_all(m, rs), acts).balance == m.balance,
        m_consume_all(m_enqueue_all(m, rs), acts).queues[kind_index(k)].len() == 0,
{
    lemma_enqueue_all(m, rs, k);
    assert(m_enqueue_all(m, rs).queues[kind_index(k)] =~= rs);
    lemma_consume_matching_run(m_enqueue_all(m, rs), rs, acts, k);
}

} // verus!

//! Mathematical model of the ledger: one queue of expectation views per
//! kind, the signed balance, and the lenient-mode flag, together with the
//! transitions that `enqueue` and `consume` perform on it.

use vstd::prelude::*;
use crate::kinds::{kind_index, CallKind, NUM_KINDS};
use crate::record::{av_kind, rec_kind, record_matches, ActualV, RecordV};
use crate::status::{status_of, ExpectStatus};

verus! {

/// Snapshot of a ledger: `queues[kind_index(k)]` holds kind `k`'s pending
/// expectations in enqueue order, oldest first. `balance` equals (total
/// expectations ever enqueued) minus (total successful dequeues) minus
/// (unexpected-call penalties taken in strict mode).
#[verifier::ext_equal]
pub struct LedgerModel {
    pub lenient: bool,
    pub balance: int,
    pub queues: Seq<Seq<RecordV>>,
}

/// A ledger model is well formed when it has one queue per kind and every
/// queued record sits in its own kind's queue.
pub open spec fn wf_model(m: LedgerModel) -> bool {
    &&& m.queues.len() == NUM_KINDS
    &&& forall|k: int, i: int|
        0 <= k < m.queues.len() && 0 <= i < m.queues[k].len() ==> kind_index(
            rec_kind(#[trigger] m.queues[k][i]),
        ) == k
}

/// The fresh ledger `reset` installs: every queue empty, balance zero.
pub open spec fn empty_model(lenient: bool) -> LedgerModel {
    LedgerModel { lenient, balance: 0, queues: Seq::new(NUM_KINDS as nat, |i: int| Seq::empty()) }
}

/// Appends a record to its kind's queue and credits the balance.
pub open spec fn m_enqueue(m: LedgerModel, r: RecordV) -> LedgerModel {
    let k = kind_index(rec_kind(r));
    LedgerModel { balance: m.balance + 1, queues: m.queues.update(k, m.queues[k].push(r)), ..m }
}

/// The state after consuming one real call: with no expectation queued for
/// the call's kind, the queues stay as they were and the balance is
/// debited unless the ledger is lenient; otherwise the front expectation
/// leaves its queue and the balance is always debited.
pub open spec fn m_consume(m: LedgerModel, a: ActualV) -> LedgerModel {
    let k = kind_index(av_kind(a));
    if m.queues[k].len() == 0 {
        if m.lenient {
            m
        } else {
            LedgerModel { balance: m.balance - 1, ..m }
        }
    } else {
        LedgerModel {
            balance: m.balance - 1,
            queues: m.queues.update(k, m.queues[k].drop_first()),
            ..m
        }
    }
}

/// The verdict consuming one real call reports: `Unexpected` with no
/// expectation queued for the call's kind, otherwise the result of
/// matching the front expectation against the call's arguments.
pub open spec fn consume_status(m: LedgerModel, a: ActualV) -> ExpectStatus {
    let k = kind_index(av_kind(a));
    if m.queues[k].len() == 0 {
        ExpectStatus::Unexpected
    } else {
        status_of(record_matches(m.queues[k][0], a))
    }
}

/// The expectation consuming one real call removes, if any: the front of
/// the call kind's queue.
pub open spec fn consume_popped(m: LedgerModel, a: ActualV) -> Option<RecordV> {
    let k = kind_index(av_kind(a));
    if m.queues[k].len() == 0 {
        None
    } else {
        Some(m.queues[k][0])
    }
}

/// Enqueuing preserves well-formedness and touches only the record's own
/// queue, which grows by the record at its back.
pub proof fn lemma_enqueue_preserves_wf(m: LedgerModel, r: RecordV)
    requires
        wf_model(m),
    ensures
        wf_model(m_enqueue(m, r)),
        m_enqueue(m, r).balance == m.balance + 1,
        m_enqueue(m, r).lenient == m.lenient,
        m_enqueue(m, r).queues[kind_index(rec_kind(r))] == m.queues[kind_index(rec_kind(r))].push(
            r,
        ),
        forall|k: int|
            0 <= k < NUM_KINDS && k != kind_index(rec_kind(r)) ==> m_enqueue(m, r).queues[k]
                == m.queues[k],
{
    let ki = kind_index(rec_kind(r));
    let post = m_enqueue(m, r);
    assert forall|k: int, i: int|
        0 <= k < post.queues.len() && 0 <= i < post.queues[k].len() implies kind_index(
        rec_kind(#[trigger] post.queues[k][i]),
    ) == k by {
        if k == ki {
            if i < m.queues[k].len() {
                assert(post.queues[k][i] == m.queues[k][i]);
            } else {
                assert(post.queues[k][i] == r);
            }
        } else {
            assert(post.queues[k][i] == m.queues[k][i]);
        }
    }
}

/// Consuming preserves well-formedness and touches only the call kind's
/// own queue, which loses its front record when it has one.
pub proof fn lemma_consume_preserves_wf(m: LedgerModel, a: ActualV)
    requires
        wf_model(m),
    ensures
        wf_model(m_consume(m, a)),
        m_consume(m, a).lenient == m.lenient,
        forall|k: int|
            0 <= k < NUM_KINDS && k != kind_index(av_kind(a)) ==> m_consume(m, a).queues[k]
                == m.queues[k],
{
    let ki = kind_index(av_kind(a));
    let post = m_consume(m, a);
    assert forall|k: int, i: int|
        0 <= k < post.queues.len() && 0 <= i < post.queues[k].len() implies kind_index(
        rec_kind(#[trigger] post.queues[k][i]),
    ) == k by {
        if k == ki && m.queues[ki].len() > 0 {
            assert(post.queues[k][i] == m.queues[k][i + 1]);
        } else {
            assert(post.queues[k][i] == m.queues[k][i]);
        }
    }
}

} // verus!

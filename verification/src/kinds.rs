//! The closed set of host-call kinds the ledger can track, and the slot
//! each kind's queue occupies in the ledger.

use vstd::prelude::*;

verus! {

/// How many distinguishable call kinds the ledger tracks.
pub const NUM_KINDS: usize = 17;

/// One distinguishable host-call shape. Each kind owns one FIFO queue of
/// pending expectations; there is no ordering guarantee across kinds.
#[derive(Clone, Copy, Debug, PartialEq, Eq, Structural)]
pub enum CallKind {
    Log,
    TickPeriod,
    CurrentTime,
    GetBufferBytes,
    SetBufferBytes,
    GetHeaderMapPairs,
    SetHeaderMapPairs,
    GetHeaderMapValue,
    ReplaceHeaderMapValue,
    RemoveHeaderMapValue,
    AddHeaderMapValue,
    SendLocalResponse,
    HttpCall,
    MetricCreate,
    MetricIncrement,
    MetricRecord,
    MetricGet,
}

/// The slot of a kind's queue among the ledger's queues.
pub open spec fn kind_index(k: CallKind) -> int {
    match k {
        CallKind::Log => 0,
        CallKind::TickPeriod => 1,
        CallKind::CurrentTime => 2,
        CallKind::GetBufferBytes => 3,
        CallKind::SetBufferBytes => 4,
        CallKind::GetHeaderMapPairs => 5,
        CallKind::SetHeaderMapPairs => 6,
        CallKind::GetHeaderMapValue => 7,
        CallKind::ReplaceHeaderMapValue => 8,
        CallKind::RemoveHeaderMapValue => 9,
        CallKind::AddHeaderMapValue => 10,
        CallKind::SendLocalResponse => 11,
        CallKind::HttpCall => 12,
        CallKind::MetricCreate => 13,
        CallKind::MetricIncrement => 14,
        CallKind::MetricRecord => 15,
        CallKind::MetricGet => 16,
    }
}

} // verus!

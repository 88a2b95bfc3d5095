//! The expectation ledger: per-kind FIFO queues of pending expectations,
//! the signed balance counter, and the enqueue/consume pair of every call
//! kind.

use vstd::prelude::*;
use vstd::slice::slice_to_vec;
use vstd::string::StrSliceExecFns;
use vstd::string::StringSliceAdditionalSpecFns;
use crate::encoding::{encode_pairs, pairs_view, serialize_map};
use crate::kinds::NUM_KINDS;
use crate::model::{
    consume_popped, consume_status, empty_model, lemma_consume_preserves_wf,
    lemma_enqueue_preserves_wf, m_consume, m_enqueue, wf_model, LedgerModel,
};
use crate::record::{
    buffer_stub, header_pairs_stub, header_value_stub, opt_str_view, opt_string_view,
    opt_vec_view, record_matches, time_stub, token_stub, compute_match, Actual, ActualV, Record,
    RecordV,
};
use crate::status::{status_of, set_expect_status, ExpectStatus};

verus! {

/// The staged expectation ledger of one test case. Each field below the
/// counters is the FIFO queue of one call kind, in enqueue order; the
/// well-formedness predicate `wf` ties each queue to its kind.
#[derive(Debug)]
pub struct Expect {
    /// Lenient mode, fixed at creation: an unexpected call does not count
    /// as a deficit.
    pub allow_unexpected: bool,
    /// (total enqueued) - (total successful dequeues) - (strict-mode
    /// penalties for unexpected calls).
    pub expect_count: i32,
    pub log_message: Vec<Record>,
    pub tick_period_millis: Vec<Record>,
    pub current_time_nanos: Vec<Record>,
    pub get_buffer_bytes: Vec<Record>,
    pub set_buffer_bytes: Vec<Record>,
    pub get_header_map_pairs: Vec<Record>,
    pub set_header_map_pairs: Vec<Record>,
    pub get_header_map_value: Vec<Record>,
    pub replace_header_map_value: Vec<Record>,
    pub remove_header_map_value: Vec<Record>,
    pub add_header_map_value: Vec<Record>,
    pub send_local_response: Vec<Record>,
    pub http_call: Vec<Record>,
    pub metrics_create: Vec<Record>,
    pub metrics_increment: Vec<Record>,
    pub metrics_record: Vec<Record>,
    pub metrics_get: Vec<Record>,
}

/// The views of a queue's records, in queue order.
pub open spec fn views(s: Seq<Record>) -> Seq<RecordV> {
    s.map_values(|r: Record| r@)
}

pub proof fn lemma_views_push(s: Seq<Record>, r: Record)
    ensures
        views(s.push(r)) == views(s).push(r@),
{
    assert(views(s.push(r)) =~= views(s).push(r@));
}

pub proof fn lemma_views_drop_first(s: Seq<Record>)
    requires
        s.len() > 0,
    ensures
        views(s.drop_first()) == views(s).drop_first(),
{
    assert(views(s.drop_first()) =~= views(s).drop_first());
}

impl View for Expect {
    type V = LedgerModel;

    open spec fn view(&self) -> LedgerModel {
        LedgerModel {
            lenient: self.allow_unexpected,
            balance: self.expect_count as int,
            queues: seq![
                views(self.log_message@),
                views(self.tick_period_millis@),
                views(self.current_time_nanos@),
                views(self.get_buffer_bytes@),
                views(self.set_buffer_bytes@),
                views(self.get_header_map_pairs@),
                views(self.set_header_map_pairs@),
                views(self.get_header_map_value@),
                views(self.replace_header_map_value@),
                views(self.remove_header_map_value@),
                views(self.add_header_map_value@),
                views(self.send_local_response@),
                views(self.http_call@),
                views(self.metrics_create@),
                views(self.metrics_increment@),
                views(self.metrics_record@),
                views(self.metrics_get@),
            ],
        }
    }
}

/// Appends an expectation to one kind's queue and credits the balance.
fn enqueue_into(q: &mut Vec<Record>, count: &mut i32, rec: Record)
    requires
        *old(count) < i32::MAX,
    ensures
        final(q)@ == old(q)@.push(rec),
        *final(count) == *old(count) + 1,
{
    *count = *count + 1;
    q.push(rec);
}

/// Consumes one real call against one kind's queue: with the queue empty,
/// the balance is debited unless the ledger is lenient and the verdict is
/// `Unexpected`; otherwise the front record leaves the queue, the balance
/// is debited, and the verdict comes from matching that record against the
/// call's arguments.
fn consume_from(
    q: &mut Vec<Record>,
    count: &mut i32,
    allow_unexpected: bool,
    actual: &Actual,
) -> (r: (ExpectStatus, Option<Record>))
    requires
        *old(count) > i32::MIN,
    ensures
        old(q)@.len() == 0 ==> {
            &&& final(q)@ == old(q)@
            &&& (if allow_unexpected {
                *final(count) == *old(count)
            } else {
                *final(count) == *old(count) - 1
            })
            &&& r.0 == ExpectStatus::Unexpected
            &&& r.1 is None
        },
        old(q)@.len() > 0 ==> {
            &&& final(q)@ == old(q)@.drop_first()
            &&& *final(count) == *old(count) - 1
            &&& r.0 == status_of(record_matches(old(q)@[0]@, actual@))
            &&& r.1 == Some(old(q)@[0])
        },
{
    if q.len() == 0 {
        if !allow_unexpected {
            *count = *count - 1;
        }
        (ExpectStatus::Unexpected, None)
    } else {
        *count = *count - 1;
        let rec = q.remove(0);
        proof {
            assert(old(q)@.remove(0) =~= old(q)@.drop_first());
        }
        let checks = compute_match(&rec, actual);
        let status = set_expect_status(checks);
        (status, Some(rec))
    }
}

/// Converts an optional borrowed string into an owned one, keeping its view.
fn opt_str_owned(s: Option<&str>) -> (r: Option<String>)
    ensures
        opt_string_view(r) == opt_str_view(s),
{
    match s {
        Some(v) => Some(v.to_owned()),
        None => None,
    }
}

/// The byte image of an optional borrowed string.
pub open spec fn opt_str_bytes_view(o: Option<&str>) -> Option<Seq<u8>> {
    match o {
        Some(s) => Some(s.spec_bytes()),
        None => None,
    }
}

/// Converts an optional borrowed string into its owned bytes.
fn opt_str_bytes(s: Option<&str>) -> (r: Option<Vec<u8>>)
    ensures
        opt_vec_view(r) == opt_str_bytes_view(s),
{
    match s {
        Some(v) => Some(v.as_bytes_vec()),
        None => None,
    }
}

/// The encoded image of an optional pair sequence: `None` stays a
/// wildcard, a concrete sequence is compared through its encoding.
pub open spec fn opt_pairs_enc_view(o: Option<Vec<(&str, &str)>>) -> Option<Seq<u8>> {
    match o {
        Some(p) => Some(encode_pairs(pairs_view(p@))),
        None => None,
    }
}

/// Pre-encodes an optional sequence of key/value pairs, keeping its view.
fn opt_pairs_encoded(pairs: Option<Vec<(&str, &str)>>) -> (r: Option<Vec<u8>>)
    ensures
        opt_vec_view(r) == opt_pairs_enc_view(pairs),
{
    match pairs {
        Some(p) => Some(serialize_map(&p)),
        None => None,
    }
}

impl Expect {
    /// Every queued record sits in the queue of its own kind.
    pub open spec fn wf(self) -> bool {
        wf_model(self@)
    }

    /// Creates an empty ledger: all queues empty, balance zero, lenient
    /// mode fixed to `allow_unexpected`.
    pub fn new(allow_unexpected: bool) -> (e: Expect)
        ensures
            e@ == empty_model(allow_unexpected),
            e.wf(),
    {
        let e = Expect {
            allow_unexpected,
            expect_count: 0,
            log_message: Vec::new(),
            tick_period_millis: Vec::new(),
            current_time_nanos: Vec::new(),
            get_buffer_bytes: Vec::new(),
            set_buffer_bytes: Vec::new(),
            get_header_map_pairs: Vec::new(),
            set_header_map_pairs: Vec::new(),
            get_header_map_value: Vec::new(),
            replace_header_map_value: Vec::new(),
            remove_header_map_value: Vec::new(),
            add_header_map_value: Vec::new(),
            send_local_response: Vec::new(),
            http_call: Vec::new(),
            metrics_create: Vec::new(),
            metrics_increment: Vec::new(),
            metrics_record: Vec::new(),
            metrics_get: Vec::new(),
        };
        proof {
            assert(e@ =~~= empty_model(allow_unexpected));
        }
        e
    }

    /// Queues an expectation for one "emit log line" call; `None` in an
    /// argument position is a wildcard.
    pub fn set_expect_log(&mut self, log_level: Option<i32>, log_string: Option<&str>)
        requires
            old(self).wf(),
            old(self)@.balance < i32::MAX,
        ensures
            final(self).wf(),
            final(self)@ == m_enqueue(
                old(self)@,
                RecordV::Log(log_level, opt_str_view(log_string)),
            ),
    {
        let rec = Record::Log(log_level, opt_str_owned(log_string));
        proof {
            lemma_enqueue_preserves_wf(old(self)@, rec@);
            lemma_views_push(self.log_message@, rec);
        }
        enqueue_into(&mut self.log_message, &mut self.expect_count, rec);
        proof {
            assert(self@ =~~= m_enqueue(old(self)@, rec@));
        }
    }

    /// Consumes one real "emit log line" call against the front queued
    /// expectation, reporting the verdict.
    pub fn get_expect_log(&mut self, log_level: i32, log_string: &str) -> (status: ExpectStatus)
        requires
            old(self).wf(),
            old(self)@.balance > i32::MIN,
        ensures
            final(self).wf(),
            final(self)@ == m_consume(old(self)@, ActualV::Log(log_level, log_string@)),
            status == consume_status(old(self)@, ActualV::Log(log_level, log_string@)),
    {
        let actual = Actual::Log(log_level, log_string.to_owned());
        proof {
            lemma_consume_preserves_wf(old(self)@, actual@);
            if self.log_message@.len() > 0 {
                lemma_views_drop_first(self.log_message@);
            }
        }
        let r = consume_from(
            &mut self.log_message,
            &mut self.expect_count,
            self.allow_unexpected,
            &actual,
        );
        proof {
            assert(self@ =~~= m_consume(old(self)@, actual@));
        }
        r.0
    }

    /// Queues an expectation for one "set timer period" call, the period
    /// in milliseconds.
    pub fn set_expect_set_tick_period_millis(&mut self, tick_period_millis: Option<u64>)
        requires
            old(self).wf(),
            old(self)@.balance < i32::MAX,
        ensures
            final(self).wf(),
            final(self)@ == m_enqueue(old(self)@, RecordV::TickPeriod(tick_period_millis)),
    {
        let rec = Record::TickPeriod(tick_period_millis);
        proof {
            lemma_enqueue_preserves_wf(old(self)@, rec@);
            lemma_views_push(self.tick_period_millis@, rec);
        }
        enqueue_into(&mut self.tick_period_millis, &mut self.expect_count, rec);
        proof {
            assert(self@ =~~= m_enqueue(old(self)@, rec@));
        }
    }

    /// Consumes one real "set timer period" call, reporting the verdict.
    pub fn get_expect_set_tick_period_millis(&mut self, tick_period_millis: u128) -> (status:
        ExpectStatus)
        requires
            old(self).wf(),
            old(self)@.balance > i32::MIN,
        ensures
            final(self).wf(),
            final(self)@ == m_consume(old(self)@, ActualV::TickPeriod(tick_period_millis)),
            status == consume_status(old(self)@, ActualV::TickPeriod(tick_period_millis)),
    {
        let actual = Actual::TickPeriod(tick_period_millis);
        proof {
            lemma_consume_preserves_wf(old(self)@, actual@);
            if self.tick_period_millis@.len() > 0 {
                lemma_views_drop_first(self.tick_period_millis@);
            }
        }
        let r = consume_from(
            &mut self.tick_period_millis,
            &mut self.expect_count,
            self.allow_unexpected,
            &actual,
        );
        proof {
            assert(self@ =~~= m_consume(old(self)@, actual@));
        }
        r.0
    }

    /// Queues an expectation for one "read the current time" call,
    /// carrying the timestamp to stub back in nanoseconds since the epoch.
    pub fn set_expect_get_current_time_nanos(&mut self, current_time_nanos: Option<u64>)
        requires
            old(self).wf(),
            old(self)@.balance < i32::MAX,
        ensures
            final(self).wf(),
            final(self)@ == m_enqueue(old(self)@, RecordV::CurrentTime(current_time_nanos)),
    {
        let rec = Record::CurrentTime(current_time_nanos);
        proof {
            lemma_enqueue_preserves_wf(old(self)@, rec@);
            lemma_views_push(self.current_time_nanos@, rec);
        }
        enqueue_into(&mut self.current_time_nanos, &mut self.expect_count, rec);
        proof {
            assert(self@ =~~= m_enqueue(old(self)@, rec@));
        }
    }

    /// Consumes one real "read the current time" call, reporting the
    /// verdict and handing back the stubbed timestamp, if one was queued.
    pub fn get_expect_get_current_time_nanos(&mut self) -> (r: (ExpectStatus, Option<u128>))
        requires
            old(self).wf(),
            old(self)@.balance > i32::MIN,
        ensures
            final(self).wf(),
            final(self)@ == m_consume(old(self)@, ActualV::CurrentTime),
            r.0 == consume_status(old(self)@, ActualV::CurrentTime),
            r.1 == time_stub(consume_popped(old(self)@, ActualV::CurrentTime)),
    {
        let actual = Actual::CurrentTime;
        proof {
            lemma_consume_preserves_wf(old(self)@, actual@);
            if self.current_time_nanos@.len() > 0 {
                lemma_views_drop_first(self.current_time_nanos@);
            }
        }
        let (status, popped) = consume_from(
            &mut self.current_time_nanos,
            &mut self.expect_count,
            self.allow_unexpected,
            &actual,
        );
        proof {
            assert(self@ =~~= m_consume(old(self)@, actual@));
        }
        let stub = match popped {
            Some(Record::CurrentTime(Some(n))) => Some(n as u128),
            _ => None,
        };
        (status, stub)
    }

    /// Queues an expectation for one "read buffer" call, carrying the
    /// buffer contents to stub back.
    pub fn set_expect_get_buffer_bytes(&mut self, buffer_type: Option<i32>, buffer_data: Option<
        &str,
    >)
        requires
            old(self).wf(),
            old(self)@.balance < i32::MAX,
        ensures
            final(self).wf(),
            final(self)@ == m_enqueue(
                old(self)@,
                RecordV::GetBufferBytes(buffer_type, opt_str_bytes_view(buffer_data)),
            ),
    {
        let rec = Record::GetBufferBytes(buffer_type, opt_str_bytes(buffer_data));
        proof {
            lemma_enqueue_preserves_wf(old(self)@, rec@);
            lemma_views_push(self.get_buffer_bytes@, rec);
        }
        enqueue_into(&mut self.get_buffer_bytes, &mut self.expect_count, rec);
        proof {
            assert(self@ =~~= m_enqueue(old(self)@, rec@));
        }
    }

    /// Consumes one real "read buffer" call, reporting the verdict and
    /// handing back the stubbed buffer contents, if any were queued.
    pub fn get_expect_get_buffer_bytes(&mut self, buffer_type: i32) -> (r: (
        ExpectStatus,
        Option<Vec<u8>>,
    ))
        requires
            old(self).wf(),
            old(self)@.balance > i32::MIN,
        ensures
            final(self).wf(),
            final(self)@ == m_consume(old(self)@, ActualV::GetBufferBytes(buffer_type)),
            r.0 == consume_status(old(self)@, ActualV::GetBufferBytes(buffer_type)),
            opt_vec_view(r.1) == buffer_stub(consume_popped(old(self)@, ActualV::GetBufferBytes(buffer_type))),
    {
        let actual = Actual::GetBufferBytes(buffer_type);
        proof {
            lemma_consume_preserves_wf(old(self)@, actual@);
            if self.get_buffer_bytes@.len() > 0 {
                lemma_views_drop_first(self.get_buffer_bytes@);
            }
        }
        let (status, popped) = consume_from(
            &mut self.get_buffer_bytes,
            &mut self.expect_count,
            self.allow_unexpected,
            &actual,
        );
        proof {
            assert(self@ =~~= m_consume(old(self)@, actual@));
        }
        let stub = match popped {
            Some(Record::GetBufferBytes(_, d)) => d,
            _ => None,
        };
        (status, stub)
    }

    /// Queues an expectation for one "write buffer" call.
    pub fn set_expect_set_buffer_bytes(&mut self, buffer_type: Option<i32>, buffer_data: Option<
        &str,
    >)
        requires
            old(self).wf(),
            old(self)@.balance < i32::MAX,
        ensures
            final(self).wf(),
            final(self)@ == m_enqueue(
                old(self)@,
                RecordV::SetBufferBytes(buffer_type, opt_str_bytes_view(buffer_data)),
            ),
    {
        let rec = Record::SetBufferBytes(buffer_type, opt_str_bytes(buffer_data));
        proof {
            lemma_enqueue_preserves_wf(old(self)@, rec@);
            lemma_views_push(self.set_buffer_bytes@, rec);
        }
        enqueue_into(&mut self.set_buffer_bytes, &mut self.expect_count, rec);
        proof {
            assert(self@ =~~= m_enqueue(old(self)@, rec@));
        }
    }

    /// Consumes one real "write buffer" call, reporting the verdict.
    pub fn get_expect_set_buffer_bytes(&mut self, buffer_type: i32, buffer_data: &[u8]) -> (status:
        ExpectStatus)
        requires
            old(self).wf(),
            old(self)@.balance > i32::MIN,
        ensures
            final(self).wf(),
            final(self)@ == m_consume(
                old(self)@,
                ActualV::SetBufferBytes(buffer_type, buffer_data@),
            ),
            status == consume_status(
                old(self)@,
                ActualV::SetBufferBytes(buffer_type, buffer_data@),
            ),
    {
        let actual = Actual::SetBufferBytes(buffer_type, slice_to_vec(buffer_data));
        proof {
            lemma_consume_preserves_wf(old(self)@, actual@);
            if self.set_buffer_bytes@.len() > 0 {
                lemma_views_drop_first(self.set_buffer_bytes@);
            }
        }
        let r = consume_from(
            &mut self.set_buffer_bytes,
            &mut self.expect_count,
            self.allow_unexpected,
            &actual,
        );
        proof {
            assert(self@ =~~= m_consume(old(self)@, actual@));
        }
        r.0
    }

    /// Queues an expectation for one "read a header map as pairs" call,
    /// carrying the pairs to stub back; the pairs are pre-encoded so the
    /// composite is handled as one byte span.
    pub fn set_expect_get_header_map_pairs(
        &mut self,
        map_type: Option<i32>,
        header_map_pairs: Option<Vec<(&str, &str)>>,
    )
        requires
            old(self).wf(),
            old(self)@.balance < i32::MAX,
        ensures
            final(self).wf(),
            final(self)@ == m_enqueue(
                old(self)@,
                RecordV::GetHeaderMapPairs(map_type, opt_pairs_enc_view(header_map_pairs)),
            ),
    {
        let rec = Record::GetHeaderMapPairs(map_type, opt_pairs_encoded(header_map_pairs));
        proof {
            lemma_enqueue_preserves_wf(old(self)@, rec@);
            lemma_views_push(self.get_header_map_pairs@, rec);
        }
        enqueue_into(&mut self.get_header_map_pairs, &mut self.expect_count, rec);
        proof {
            assert(self@ =~~= m_enqueue(old(self)@, rec@));
        }
    }

    /// Consumes one real "read a header map as pairs" call, reporting the
    /// verdict and handing back the stubbed encoded pairs, if any.
    pub fn get_expect_get_header_map_pairs(&mut self, map_type: i32) -> (r: (
        ExpectStatus,
        Option<Vec<u8>>,
    ))
        requires
            old(self).wf(),
            old(self)@.balance > i32::MIN,
        ensures
            final(self).wf(),
            final(self)@ == m_consume(old(self)@, ActualV::GetHeaderMapPairs(map_type)),
            r.0 == consume_status(old(self)@, ActualV::GetHeaderMapPairs(map_type)),
            opt_vec_view(r.1) == header_pairs_stub(
                consume_popped(old(self)@, ActualV::GetHeaderMapPairs(map_type)),
            ),
    {
        let actual = Actual::GetHeaderMapPairs(map_type);
        proof {
            lemma_consume_preserves_wf(old(self)@, actual@);
            if self.get_header_map_pairs@.len() > 0 {
                lemma_views_drop_first(self.get_header_map_pairs@);
            }
        }
        let (status, popped) = consume_from(
            &mut self.get_header_map_pairs,
            &mut self.expect_count,
            self.allow_unexpected,
            &actual,
        );
        proof {
            assert(self@ =~~= m_consume(old(self)@, actual@));
        }
        let stub = match popped {
            Some(Record::GetHeaderMapPairs(_, d)) => d,
            _ => None,
        };
        (status, stub)
    }

    /// Queues an expectation for one "replace a header map by pairs" call;
    /// the expected pairs are pre-encoded so the comparison is byte-exact
    /// in pair order.
    pub fn set_expect_set_header_map_pairs(
        &mut self,
        map_type: Option<i32>,
        header_map_pairs: Option<Vec<(&str, &str)>>,
    )
        requires
            old(self).wf(),
            old(self)@.balance < i32::MAX,
        ensures
            final(self).wf(),
            final(self)@ == m_enqueue(
                old(self)@,
                RecordV::SetHeaderMapPairs(map_type, opt_pairs_enc_view(header_map_pairs)),
            ),
    {
        let rec = Record::SetHeaderMapPairs(map_type, opt_pairs_encoded(header_map_pairs));
        proof {
            lemma_enqueue_preserves_wf(old(self)@, rec@);
            lemma_views_push(self.set_header_map_pairs@, rec);
        }
        enqueue_into(&mut self.set_header_map_pairs, &mut self.expect_count, rec);
        proof {
            assert(self@ =~~= m_enqueue(old(self)@, rec@));
        }
    }

    /// Consumes one real "replace a header map by pairs" call, whose
    /// actual pairs arrive already encoded, reporting the verdict.
    pub fn get_expect_set_header_map_pairs(&mut self, map_type: i32, header_map_pairs: &[u8]) -> (
        status: ExpectStatus)
        requires
            old(self).wf(),
            old(self)@.balance > i32::MIN,
        ensures
            final(self).wf(),
            final(self)@ == m_consume(
                old(self)@,
                ActualV::SetHeaderMapPairs(map_type, header_map_pairs@),
            ),
            status == consume_status(
                old(self)@,
                ActualV::SetHeaderMapPairs(map_type, header_map_pairs@),
            ),
    {
        let actual = Actual::SetHeaderMapPairs(map_type, slice_to_vec(header_map_pairs));
        proof {
            lemma_consume_preserves_wf(old(self)@, actual@);
            if self.set_header_map_pairs@.len() > 0 {
                lemma_views_drop_first(self.set_header_map_pairs@);
            }
        }
        let r = consume_from(
            &mut self.set_header_map_pairs,
            &mut self.expect_count,
            self.allow_unexpected,
            &actual,
        );
        proof {
            assert(self@ =~~= m_consume(old(self)@, actual@));
        }
        r.0
    }

    /// Queues an expectation for one "read a single header value" call,
    /// carrying the value to stub back.
    pub fn set_expect_get_header_map_value(
        &mut self,
        map_type: Option<i32>,
        header_map_key: Option<&str>,
        header_map_value: Option<&str>,
    )
        requires
            old(self).wf(),
            old(self)@.balance < i32::MAX,
        ensures
            final(self).wf(),
            final(self)@ == m_enqueue(
                old(self)@,
                RecordV::GetHeaderMapValue(
                    map_type,
                    opt_str_view(header_map_key),
                    opt_str_view(header_map_value),
                ),
            ),
    {
        let rec = Record::GetHeaderMapValue(
            map_type,
            opt_str_owned(header_map_key),
            opt_str_owned(header_map_value),
        );
        proof {
            lemma_enqueue_preserves_wf(old(self)@, rec@);
            lemma_views_push(self.get_header_map_value@, rec);
        }
        enqueue_into(&mut self.get_header_map_value, &mut self.expect_count, rec);
        proof {
            assert(self@ =~~= m_enqueue(old(self)@, rec@));
        }
    }

    /// Consumes one real "read a single header value" call, reporting the
    /// verdict and handing back the stubbed value, if one was queued.
    pub fn get_expect_get_header_map_value(&mut self, map_type: i32, header_map_key: &str) -> (r: (
        ExpectStatus,
        Option<String>,
    ))
        requires
            old(self).wf(),
            old(self)@.balance > i32::MIN,
        ensures
            final(self).wf(),
            final(self)@ == m_consume(
                old(self)@,
                ActualV::GetHeaderMapValue(map_type, header_map_key@),
            ),
            r.0 == consume_status(
                old(self)@,
                ActualV::GetHeaderMapValue(map_type, header_map_key@),
            ),
            opt_string_view(r.1) == header_value_stub(
                consume_popped(old(self)@, ActualV::GetHeaderMapValue(map_type, header_map_key@)),
            ),
    {
        let actual = Actual::GetHeaderMapValue(map_type, header_map_key.to_owned());
        proof {
            lemma_consume_preserves_wf(old(self)@, actual@);
            if self.get_header_map_value@.len() > 0 {
                lemma_views_drop_first(self.get_header_map_value@);
            }
        }
        let (status, popped) = consume_from(
            &mut self.get_header_map_value,
            &mut self.expect_count,
            self.allow_unexpected,
            &actual,
        );
        proof {
            assert(self@ =~~= m_consume(old(self)@, actual@));
        }
        let stub = match popped {
            Some(Record::GetHeaderMapValue(_, _, v)) => v,
            _ => None,
        };
        (status, stub)
    }

    /// Queues an expectation for one "replace a single header value" call.
    pub fn set_expect_replace_header_map_value(
        &mut self,
        map_type: Option<i32>,
        header_map_key: Option<&str>,
        header_map_value: Option<&str>,
    )
        requires
            old(self).wf(),
            old(self)@.balance < i32::MAX,
        ensures
            final(self).wf(),
            final(self)@ == m_enqueue(
                old(self)@,
                RecordV::ReplaceHeaderMapValue(
                    map_type,
                    opt_str_view(header_map_key),
                    opt_str_view(header_map_value),
                ),
            ),
    {
        let rec = Record::ReplaceHeaderMapValue(
            map_type,
            opt_str_owned(header_map_key),
            opt_str_owned(header_map_value),
        );
        proof {
            lemma_enqueue_preserves_wf(old(self)@, rec@);
            lemma_views_push(self.replace_header_map_value@, rec);
        }
        enqueue_into(&mut self.replace_header_map_value, &mut self.expect_count, rec);
        proof {
            assert(self@ =~~= m_enqueue(old(self)@, rec@));
        }
    }

    /// Consumes one real "replace a single header value" call, reporting
    /// the verdict.
    pub fn get_expect_replace_header_map_value(
        &mut self,
        map_type: i32,
        header_map_key: &str,
        header_map_value: &str,
    ) -> (status: ExpectStatus)
        requires
            old(self).wf(),
            old(self)@.balance > i32::MIN,
        ensures
            final(self).wf(),
            final(self)@ == m_consume(
                old(self)@,
                ActualV::ReplaceHeaderMapValue(map_type, header_map_key@, header_map_value@),
            ),
            status == consume_status(
                old(self)@,
                ActualV::ReplaceHeaderMapValue(map_type, header_map_key@, header_map_value@),
            ),
    {
        let actual = Actual::ReplaceHeaderMapValue(
            map_type,
            header_map_key.to_owned(),
            header_map_value.to_owned(),
        );
        proof {
            lemma_consume_preserves_wf(old(self)@, actual@);
            if self.replace_header_map_value@.len() > 0 {
                lemma_views_drop_first(self.replace_header_map_value@);
            }
        }
        let r = consume_from(
            &mut self.replace_header_map_value,
            &mut self.expect_count,
            self.allow_unexpected,
            &actual,
        );
        proof {
            assert(self@ =~~= m_consume(old(self)@, actual@));
        }
        r.0
    }

    /// Queues an expectation for one "remove a single header" call.
    pub fn set_expect_remove_header_map_value(
        &mut self,
        map_type: Option<i32>,
        header_map_key: Option<&str>,
    )
        requires
            old(self).wf(),
            old(self)@.balance < i32::MAX,
        ensures
            final(self).wf(),
            final(self)@ == m_enqueue(
                old(self)@,
                RecordV::RemoveHeaderMapValue(map_type, opt_str_view(header_map_key)),
            ),
    {
        let rec = Record::RemoveHeaderMapValue(map_type, opt_str_owned(header_map_key));
        proof {
            lemma_enqueue_preserves_wf(old(self)@, rec@);
            lemma_views_push(self.remove_header_map_value@, rec);
        }
        enqueue_into(&mut self.remove_header_map_value, &mut self.expect_count, rec);
        proof {
            assert(self@ =~~= m_enqueue(old(self)@, rec@));
        }
    }

    /// Consumes one real "remove a single header" call, reporting the
    /// verdict.
    pub fn get_expect_remove_header_map_value(&mut self, map_type: i32, header_map_key: &str) -> (
        status: ExpectStatus)
        requires
            old(self).wf(),
            old(self)@.balance > i32::MIN,
        ensures
            final(self).wf(),
            final(self)@ == m_consume(
                old(self)@,
                ActualV::RemoveHeaderMapValue(map_type, header_map_key@),
            ),
            status == consume_status(
                old(self)@,
                ActualV::RemoveHeaderMapValue(map_type, header_map_key@),
            ),
    {
        let actual = Actual::RemoveHeaderMapValue(map_type, header_map_key.to_owned());
        proof {
            lemma_consume_preserves_wf(old(self)@, actual@);
            if self.remove_header_map_value@.len() > 0 {
                lemma_views_drop_first(self.remove_header_map_value@);
            }
        }
        let r = consume_from(
            &mut self.remove_header_map_value,
            &mut self.expect_count,
            self.allow_unexpected,
            &actual,
        );
        proof {
            assert(self@ =~~= m_consume(old(self)@, actual@));
        }
        r.0
    }

    /// Queues an expectation for one "append a single header" call.
    pub fn set_expect_add_header_map_value(
        &mut self,
        map_type: Option<i32>,
        header_map_key: Option<&str>,
        header_map_value: Option<&str>,
    )
        requires
            old(self).wf(),
            old(self)@.balance < i32::MAX,
        ensures
            final(self).wf(),
            final(self)@ == m_enqueue(
                old(self)@,
                RecordV::AddHeaderMapValue(
                    map_type,
                    opt_str_view(header_map_key),
                    opt_str_view(header_map_value),
                ),
            ),
    {
        let rec = Record::AddHeaderMapValue(
            map_type,
            opt_str_owned(header_map_key),
            opt_str_owned(header_map_value),
        );
        proof {
            lemma_enqueue_preserves_wf(old(self)@, rec@);
            lemma_views_push(self.add_header_map_value@, rec);
        }
        enqueue_into(&mut self.add_header_map_value, &mut self.expect_count, rec);
        proof {
            assert(self@ =~~= m_enqueue(old(self)@, rec@));
        }
    }

    /// Consumes one real "append a single header" call, reporting the
    /// verdict.
    pub fn get_expect_add_header_map_value(
        &mut self,
        map_type: i32,
        header_map_key: &str,
        header_map_value: &str,
    ) -> (status: ExpectStatus)
        requires
            old(self).wf(),
            old(self)@.balance > i32::MIN,
        ensures
            final(self).wf(),
            final(self)@ == m_consume(
                old(self)@,
                ActualV::AddHeaderMapValue(map_type, header_map_key@, header_map_value@),
            ),
            status == consume_status(
                old(self)@,
                ActualV::AddHeaderMapValue(map_type, header_map_key@, header_map_value@),
            ),
    {
        let actual = Actual::AddHeaderMapValue(
            map_type,
            header_map_key.to_owned(),
            header_map_value.to_owned(),
        );
        proof {
            lemma_consume_preserves_wf(old(self)@, actual@);
            if self.add_header_map_value@.len() > 0 {
                lemma_views_drop_first(self.add_header_map_value@);
            }
        }
        let r = consume_from(
            &mut self.add_header_map_value,
            &mut self.expect_count,
            self.allow_unexpected,
            &actual,
        );
        proof {
            assert(self@ =~~= m_consume(old(self)@, actual@));
        }
        r.0
    }

    /// Queues an expectation for one "send local response" call; expected
    /// headers are pre-encoded so the composite is compared byte-exactly.
    pub fn set_expect_send_local_response(
        &mut self,
        status_code: Option<i32>,
        body: Option<&str>,
        headers: Option<Vec<(&str, &str)>>,
        grpc_status: Option<i32>,
    )
        requires
            old(self).wf(),
            old(self)@.balance < i32::MAX,
        ensures
            final(self).wf(),
            final(self)@ == m_enqueue(
                old(self)@,
                RecordV::SendLocalResponse(
                    status_code,
                    opt_str_view(body),
                    opt_pairs_enc_view(headers),
                    grpc_status,
                ),
            ),
    {
        let rec = Record::SendLocalResponse(
            status_code,
            opt_str_owned(body),
            opt_pairs_encoded(headers),
            grpc_status,
        );
        proof {
            lemma_enqueue_preserves_wf(old(self)@, rec@);
            lemma_views_push(self.send_local_response@, rec);
        }
        enqueue_into(&mut self.send_local_response, &mut self.expect_count, rec);
        proof {
            assert(self@ =~~= m_enqueue(old(self)@, rec@));
        }
    }

    /// Consumes one real "send local response" call, whose actual headers
    /// arrive already encoded, reporting the verdict.
    pub fn get_expect_send_local_response(
        &mut self,
        status_code: i32,
        body: Option<&str>,
        headers: &[u8],
        grpc_status: i32,
    ) -> (status: ExpectStatus)
        requires
            old(self).wf(),
            old(self)@.balance > i32::MIN,
        ensures
            final(self).wf(),
            final(self)@ == m_consume(
                old(self)@,
                ActualV::SendLocalResponse(status_code, opt_str_view(body), headers@, grpc_status),
            ),
            status == consume_status(
                old(self)@,
                ActualV::SendLocalResponse(status_code, opt_str_view(body), headers@, grpc_status),
            ),
    {
        let actual = Actual::SendLocalResponse(
            status_code,
            opt_str_owned(body),
            slice_to_vec(headers),
            grpc_status,
        );
        proof {
            lemma_consume_preserves_wf(old(self)@, actual@);
            if self.send_local_response@.len() > 0 {
                lemma_views_drop_first(self.send_local_response@);
            }
        }
        let r = consume_from(
            &mut self.send_local_response,
            &mut self.expect_count,
            self.allow_unexpected,
            &actual,
        );
        proof {
            assert(self@ =~~= m_consume(old(self)@, actual@));
        }
        r.0
    }

    /// Queues an expectation for one "make outbound call" call: upstream,
    /// pre-encoded headers and trailers, body, timeout in milliseconds,
    /// and the token id to stub back.
    pub fn set_expect_http_call(
        &mut self,
        upstream: Option<&str>,
        headers: Option<Vec<(&str, &str)>>,
        body: Option<&str>,
        trailers: Option<Vec<(&str, &str)>>,
        timeout: Option<u64>,
        token_id: Option<u32>,
    )
        requires
            old(self).wf(),
            old(self)@.balance < i32::MAX,
        ensures
            final(self).wf(),
            final(self)@ == m_enqueue(
                old(self)@,
                RecordV::HttpCall(
                    opt_str_view(upstream),
                    opt_pairs_enc_view(headers),
                    opt_str_view(body),
                    opt_pairs_enc_view(trailers),
                    timeout,
                    token_id,
                ),
            ),
    {
        let rec = Record::HttpCall(
            opt_str_owned(upstream),
            opt_pairs_encoded(headers),
            opt_str_owned(body),
            opt_pairs_encoded(trailers),
            timeout,
            token_id,
        );
        proof {
            lemma_enqueue_preserves_wf(old(self)@, rec@);
            lemma_views_push(self.http_call@, rec);
        }
        enqueue_into(&mut self.http_call, &mut self.expect_count, rec);
        proof {
            assert(self@ =~~= m_enqueue(old(self)@, rec@));
        }
    }

    /// Consumes one real "make outbound call" call, whose actual headers
    /// and trailers arrive already encoded, reporting the verdict and
    /// handing back the stubbed token id, if one was queued.
    pub fn get_expect_http_call(
        &mut self,
        upstream: &str,
        headers: &[u8],
        body: Option<&str>,
        trailers: &[u8],
        timeout: i32,
    ) -> (r: (ExpectStatus, Option<u32>))
        requires
            old(self).wf(),
            old(self)@.balance > i32::MIN,
        ensures
            final(self).wf(),
            final(self)@ == m_consume(
                old(self)@,
                ActualV::HttpCall(upstream@, headers@, opt_str_view(body), trailers@, timeout),
            ),
            r.0 == consume_status(
                old(self)@,
                ActualV::HttpCall(upstream@, headers@, opt_str_view(body), trailers@, timeout),
            ),
            r.1 == token_stub(
                consume_popped(
                    old(self)@,
                    ActualV::HttpCall(upstream@, headers@, opt_str_view(body), trailers@, timeout),
                ),
            ),
    {
        let actual = Actual::HttpCall(
            upstream.to_owned(),
            slice_to_vec(headers),
            opt_str_owned(body),
            slice_to_vec(trailers),
            timeout,
        );
        proof {
            lemma_consume_preserves_wf(old(self)@, actual@);
            if self.http_call@.len() > 0 {
                lemma_views_drop_first(self.http_call@);
            }
        }
        let (status, popped) = consume_from(
            &mut self.http_call,
            &mut self.expect_count,
            self.allow_unexpected,
            &actual,
        );
        proof {
            assert(self@ =~~= m_consume(old(self)@, actual@));
        }
        let stub = match popped {
            Some(Record::HttpCall(_, _, _, _, _, t)) => t,
            _ => None,
        };
        (status, stub)
    }

    /// Queues an expectation for one "create metric" call; both arguments
    /// are concrete, this kind has no wildcard positions.
    pub fn set_expect_metric_create(&mut self, metric_type: i32, name: &str)
        requires
            old(self).wf(),
            old(self)@.balance < i32::MAX,
        ensures
            final(self).wf(),
            final(self)@ == m_enqueue(old(self)@, RecordV::MetricCreate(metric_type, name@)),
    {
        let rec = Record::MetricCreate(metric_type, name.to_owned());
        proof {
            lemma_enqueue_preserves_wf(old(self)@, rec@);
            lemma_views_push(self.metrics_create@, rec);
        }
        enqueue_into(&mut self.metrics_create, &mut self.expect_count, rec);
        proof {
            assert(self@ =~~= m_enqueue(old(self)@, rec@));
        }
    }

    /// Consumes one real "create metric" call, reporting the verdict.
    pub fn get_expect_metric_create(&mut self, metric_type: i32, name: &str) -> (status:
        ExpectStatus)
        requires
            old(self).wf(),
            old(self)@.balance > i32::MIN,
        ensures
            final(self).wf(),
            final(self)@ == m_consume(old(self)@, ActualV::MetricCreate(metric_type, name@)),
            status == consume_status(old(self)@, ActualV::MetricCreate(metric_type, name@)),
    {
        let actual = Actual::MetricCreate(metric_type, name.to_owned());
        proof {
            lemma_consume_preserves_wf(old(self)@, actual@);
            if self.metrics_create@.len() > 0 {
                lemma_views_drop_first(self.metrics_create@);
            }
        }
        let r = consume_from(
            &mut self.metrics_create,
            &mut self.expect_count,
            self.allow_unexpected,
            &actual,
        );
        proof {
            assert(self@ =~~= m_consume(old(self)@, actual@));
        }
        r.0
    }

    /// Queues an expectation for one "increment metric" call.
    pub fn set_expect_metric_increment(&mut self, metric_id: i32, offset: i64)
        requires
            old(self).wf(),
            old(self)@.balance < i32::MAX,
        ensures
            final(self).wf(),
            final(self)@ == m_enqueue(old(self)@, RecordV::MetricIncrement(metric_id, offset)),
    {
        let rec = Record::MetricIncrement(metric_id, offset);
        proof {
            lemma_enqueue_preserves_wf(old(self)@, rec@);
            lemma_views_push(self.metrics_increment@, rec);
        }
        enqueue_into(&mut self.metrics_increment, &mut self.expect_count, rec);
        proof {
            assert(self@ =~~= m_enqueue(old(self)@, rec@));
        }
    }

    /// Consumes one real "increment metric" call, reporting the verdict.
    pub fn get_expect_metric_increment(&mut self, metric_id: i32, offset: i64) -> (status:
        ExpectStatus)
        requires
            old(self).wf(),
            old(self)@.balance > i32::MIN,
        ensures
            final(self).wf(),
            final(self)@ == m_consume(old(self)@, ActualV::MetricIncrement(metric_id, offset)),
            status == consume_status(old(self)@, ActualV::MetricIncrement(metric_id, offset)),
    {
        let actual = Actual::MetricIncrement(metric_id, offset);
        proof {
            lemma_consume_preserves_wf(old(self)@, actual@);
            if self.metrics_increment@.len() > 0 {
                lemma_views_drop_first(self.metrics_increment@);
            }
        }
        let r = consume_from(
            &mut self.metrics_increment,
            &mut self.expect_count,
            self.allow_unexpected,
            &actual,
        );
        proof {
            assert(self@ =~~= m_consume(old(self)@, actual@));
        }
        r.0
    }

    /// Queues an expectation for one "record metric value" call.
    pub fn set_expect_metric_record(&mut self, metric_id: i32, value: u64)
        requires
            old(self).wf(),
            old(self)@.balance < i32::MAX,
        ensures
            final(self).wf(),
            final(self)@ == m_enqueue(old(self)@, RecordV::MetricRecord(metric_id, value)),
    {
        let rec = Record::MetricRecord(metric_id, value);
        proof {
            lemma_enqueue_preserves_wf(old(self)@, rec@);
            lemma_views_push(self.metrics_record@, rec);
        }
        enqueue_into(&mut self.metrics_record, &mut self.expect_count, rec);
        proof {
            assert(self@ =~~= m_enqueue(old(self)@, rec@));
        }
    }

    /// Consumes one real "record metric value" call, reporting the verdict.
    pub fn get_expect_metric_record(&mut self, metric_id: i32, value: u64) -> (status:
        ExpectStatus)
        requires
            old(self).wf(),
            old(self)@.balance > i32::MIN,
        ensures
            final(self).wf(),
            final(self)@ == m_consume(old(self)@, ActualV::MetricRecord(metric_id, value)),
            status == consume_status(old(self)@, ActualV::MetricRecord(metric_id, value)),
    {
        let actual = Actual::MetricRecord(metric_id, value);
        proof {
            lemma_consume_preserves_wf(old(self)@, actual@);
            if self.metrics_record@.len() > 0 {
                lemma_views_drop_first(self.metrics_record@);
            }
        }
        let r = consume_from(
            &mut self.metrics_record,
            &mut self.expect_count,
            self.allow_unexpected,
            &actual,
        );
        proof {
            assert(self@ =~~= m_consume(old(self)@, actual@));
        }
        r.0
    }

    /// Queues an expectation for one "read metric value" call.
    pub fn set_expect_metric_get(&mut self, metric_id: i32, value: u64)
        requires
            old(self).wf(),
            old(self)@.balance < i32::MAX,
        ensures
            final(self).wf(),
            final(self)@ == m_enqueue(old(self)@, RecordV::MetricGet(metric_id, value)),
    {
        let rec = Record::MetricGet(metric_id, value);
        proof {
            lemma_enqueue_preserves_wf(old(self)@, rec@);
            lemma_views_push(self.metrics_get@, rec);
        }
        enqueue_into(&mut self.metrics_get, &mut self.expect_count, rec);
        proof {
            assert(self@ =~~= m_enqueue(old(self)@, rec@));
        }
    }

    /// Consumes one real "read metric value" call, reporting the verdict.
    pub fn get_expect_metric_get(&mut self, metric_id: i32, value: u64) -> (status: ExpectStatus)
        requires
            old(self).wf(),
            old(self)@.balance > i32::MIN,
        ensures
            final(self).wf(),
            final(self)@ == m_consume(old(self)@, ActualV::MetricGet(metric_id, value)),
            status == consume_status(old(self)@, ActualV::MetricGet(metric_id, value)),
    {
        let actual = Actual::MetricGet(metric_id, value);
        proof {
            lemma_consume_preserves_wf(old(self)@, actual@);
            if self.metrics_get@.len() > 0 {
                lemma_views_drop_first(self.metrics_get@);
            }
        }
        let r = consume_from(
            &mut self.metrics_get,
            &mut self.expect_count,
            self.allow_unexpected,
            &actual,
        );
        proof {
            assert(self@ =~~= m_consume(old(self)@, actual@));
        }
        r.0
    }
}

} // verus!

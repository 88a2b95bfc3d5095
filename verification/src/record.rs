//! Expectation records and actual-call arguments, one variant per call
//! kind, together with the wildcard matching algorithm that compares them.

use vstd::prelude::*;
use crate::kinds::CallKind;

verus! {

/// One queued expectation. For each argument position it holds either a
/// concrete expected value or `None`, a wildcard that matches any actual
/// value at that position. Variants of kinds that return data to the unit
/// under test also carry the stubbed result to hand back when the
/// expectation is consumed (`None` there means no stubbed value).
///
/// Durations and points in time are carried as plain integers: a tick
/// period in milliseconds, a timestamp in nanoseconds since the epoch, an
/// outbound-call timeout in milliseconds. Ordered key/value header pairs
/// are carried already encoded as one byte span, so that composites are
/// compared byte-for-byte in pair order.
#[derive(Debug)]
pub enum Record {
    /// level, message
    Log(Option<i32>, Option<String>),
    /// period in milliseconds
    TickPeriod(Option<u64>),
    /// stub: nanoseconds since the epoch (no argument is matched)
    CurrentTime(Option<u64>),
    /// buffer type; stub: buffer contents
    GetBufferBytes(Option<i32>, Option<Vec<u8>>),
    /// buffer type, buffer contents
    SetBufferBytes(Option<i32>, Option<Vec<u8>>),
    /// map type; stub: encoded pairs
    GetHeaderMapPairs(Option<i32>, Option<Vec<u8>>),
    /// map type, encoded pairs
    SetHeaderMapPairs(Option<i32>, Option<Vec<u8>>),
    /// map type, key; stub: value
    GetHeaderMapValue(Option<i32>, Option<String>, Option<String>),
    /// map type, key, value
    ReplaceHeaderMapValue(Option<i32>, Option<String>, Option<String>),
    /// map type, key
    RemoveHeaderMapValue(Option<i32>, Option<String>),
    /// map type, key, value
    AddHeaderMapValue(Option<i32>, Option<String>, Option<String>),
    /// status code, body, encoded headers, grpc status
    SendLocalResponse(Option<i32>, Option<String>, Option<Vec<u8>>, Option<i32>),
    /// upstream, encoded headers, body, encoded trailers, timeout in
    /// milliseconds; stub: token id
    HttpCall(
        Option<String>,
        Option<Vec<u8>>,
        Option<String>,
        Option<Vec<u8>>,
        Option<u64>,
        Option<u32>,
    ),
    /// metric type, name (no wildcards: both must match)
    MetricCreate(i32, String),
    /// metric id, offset
    MetricIncrement(i32, i64),
    /// metric id, value
    MetricRecord(i32, u64),
    /// metric id, value
    MetricGet(i32, u64),
}

/// Mathematical image of a `Record`: the same shape with strings and byte
/// buffers replaced by their sequences.
#[verifier::ext_equal]
pub enum RecordV {
    Log(Option<i32>, Option<Seq<char>>),
    TickPeriod(Option<u64>),
    CurrentTime(Option<u64>),
    GetBufferBytes(Option<i32>, Option<Seq<u8>>),
    SetBufferBytes(Option<i32>, Option<Seq<u8>>),
    GetHeaderMapPairs(Option<i32>, Option<Seq<u8>>),
    SetHeaderMapPairs(Option<i32>, Option<Seq<u8>>),
    GetHeaderMapValue(Option<i32>, Option<Seq<char>>, Option<Seq<char>>),
    ReplaceHeaderMapValue(Option<i32>, Option<Seq<char>>, Option<Seq<char>>),
    RemoveHeaderMapValue(Option<i32>, Option<Seq<char>>),
    AddHeaderMapValue(Option<i32>, Option<Seq<char>>, Option<Seq<char>>),
    SendLocalResponse(Option<i32>, Option<Seq<char>>, Option<Seq<u8>>, Option<i32>),
    HttpCall(
        Option<Seq<char>>,
        Option<Seq<u8>>,
        Option<Seq<char>>,
        Option<Seq<u8>>,
        Option<u64>,
        Option<u32>,
    ),
    MetricCreate(i32, Seq<char>),
    MetricIncrement(i32, i64),
    MetricRecord(i32, u64),
    MetricGet(i32, u64),
}

/// The arguments of one real call intercepted during the exercise phase,
/// one variant per call kind. Composite header-pair arguments arrive
/// already encoded as one byte span.
#[derive(Debug)]
pub enum Actual {
    Log(i32, String),
    TickPeriod(u128),
    CurrentTime,
    GetBufferBytes(i32),
    SetBufferBytes(i32, Vec<u8>),
    GetHeaderMapPairs(i32),
    SetHeaderMapPairs(i32, Vec<u8>),
    GetHeaderMapValue(i32, String),
    ReplaceHeaderMapValue(i32, String, String),
    RemoveHeaderMapValue(i32, String),
    AddHeaderMapValue(i32, String, String),
    SendLocalResponse(i32, Option<String>, Vec<u8>, i32),
    HttpCall(String, Vec<u8>, Option<String>, Vec<u8>, i32),
    MetricCreate(i32, String),
    MetricIncrement(i32, i64),
    MetricRecord(i32, u64),
    MetricGet(i32, u64),
}

/// Mathematical image of an `Actual`.
#[verifier::ext_equal]
pub enum ActualV {
    Log(i32, Seq<char>),
    TickPeriod(u128),
    CurrentTime,
    GetBufferBytes(i32),
    SetBufferBytes(i32, Seq<u8>),
    GetHeaderMapPairs(i32),
    SetHeaderMapPairs(i32, Seq<u8>),
    GetHeaderMapValue(i32, Seq<char>),
    ReplaceHeaderMapValue(i32, Seq<char>, Seq<char>),
    RemoveHeaderMapValue(i32, Seq<char>),
    AddHeaderMapValue(i32, Seq<char>, Seq<char>),
    SendLocalResponse(i32, Option<Seq<char>>, Seq<u8>, i32),
    HttpCall(Seq<char>, Seq<u8>, Option<Seq<char>>, Seq<u8>, i32),
    MetricCreate(i32, Seq<char>),
    MetricIncrement(i32, i64),
    MetricRecord(i32, u64),
    MetricGet(i32, u64),
}

pub open spec fn opt_string_view(o: Option<String>) -> Option<Seq<char>> {
    match o {
        Some(s) => Some(s@),
        None => None,
    }
}

pub open spec fn opt_str_view(o: Option<&str>) -> Option<Seq<char>> {
    match o {
        Some(s) => Some(s@),
        None => None,
    }
}

pub open spec fn opt_vec_view(o: Option<Vec<u8>>) -> Option<Seq<u8>> {
    match o {
        Some(v) => Some(v@),
        None => None,
    }
}

impl View for Record {
    type V = RecordV;

    open spec fn view(&self) -> RecordV {
        match *self {
            Record::Log(l, m) => RecordV::Log(l, opt_string_view(m)),
            Record::TickPeriod(p) => RecordV::TickPeriod(p),
            Record::CurrentTime(t) => RecordV::CurrentTime(t),
            Record::GetBufferBytes(t, d) => RecordV::GetBufferBytes(t, opt_vec_view(d)),
            Record::SetBufferBytes(t, d) => RecordV::SetBufferBytes(t, opt_vec_view(d)),
            Record::GetHeaderMapPairs(t, d) => RecordV::GetHeaderMapPairs(t, opt_vec_view(d)),
            Record::SetHeaderMapPairs(t, d) => RecordV::SetHeaderMapPairs(t, opt_vec_view(d)),
            Record::GetHeaderMapValue(t, k, v) => RecordV::GetHeaderMapValue(
                t,
                opt_string_view(k),
                opt_string_view(v),
            ),
            Record::ReplaceHeaderMapValue(t, k, v) => RecordV::ReplaceHeaderMapValue(
                t,
                opt_string_view(k),
                opt_string_view(v),
            ),
            Record::RemoveHeaderMapValue(t, k) => RecordV::RemoveHeaderMapValue(
                t,
                opt_string_view(k),
            ),
            Record::AddHeaderMapValue(t, k, v) => RecordV::AddHeaderMapValue(
                t,
                opt_string_view(k),
                opt_string_view(v),
            ),
            Record::SendLocalResponse(c, b, h, g) => RecordV::SendLocalResponse(
                c,
                opt_string_view(b),
                opt_vec_view(h),
                g,
            ),
            Record::HttpCall(u, h, b, tr, to, tok) => RecordV::HttpCall(
                opt_string_view(u),
                opt_vec_view(h),
                opt_string_view(b),
                opt_vec_view(tr),
                to,
                tok,
            ),
            Record::MetricCreate(t, n) => RecordV::MetricCreate(t, n@),
            Record::MetricIncrement(i, o) => RecordV::MetricIncrement(i, o),
            Record::MetricRecord(i, v) => RecordV::MetricRecord(i, v),
            Record::MetricGet(i, v) => RecordV::MetricGet(i, v),
        }
    }
}

impl View for Actual {
    type V = ActualV;

    open spec fn view(&self) -> ActualV {
        match *self {
            Actual::Log(l, m) => ActualV::Log(l, m@),
            Actual::TickPeriod(p) => ActualV::TickPeriod(p),
            Actual::CurrentTime => ActualV::CurrentTime,
            Actual::GetBufferBytes(t) => ActualV::GetBufferBytes(t),
            Actual::SetBufferBytes(t, d) => ActualV::SetBufferBytes(t, d@),
            Actual::GetHeaderMapPairs(t) => ActualV::GetHeaderMapPairs(t),
            Actual::SetHeaderMapPairs(t, d) => ActualV::SetHeaderMapPairs(t, d@),
            Actual::GetHeaderMapValue(t, k) => ActualV::GetHeaderMapValue(t, k@),
            Actual::ReplaceHeaderMapValue(t, k, v) => ActualV::ReplaceHeaderMapValue(t, k@, v@),
            Actual::RemoveHeaderMapValue(t, k) => ActualV::RemoveHeaderMapValue(t, k@),
            Actual::AddHeaderMapValue(t, k, v) => ActualV::AddHeaderMapValue(t, k@, v@),
            Actual::SendLocalResponse(c, b, h, g) => ActualV::SendLocalResponse(
                c,
                opt_string_view(b),
                h@,
                g,
            ),
            Actual::HttpCall(u, h, b, tr, to) => ActualV::HttpCall(
                u@,
                h@,
                opt_string_view(b),
                tr@,
                to,
            ),
            Actual::MetricCreate(t, n) => ActualV::MetricCreate(t, n@),
            Actual::MetricIncrement(i, o) => ActualV::MetricIncrement(i, o),
            Actual::MetricRecord(i, v) => ActualV::MetricRecord(i, v),
            Actual::MetricGet(i, v) => ActualV::MetricGet(i, v),
        }
    }
}

/// The kind whose queue an expectation belongs to.
pub open spec fn rec_kind(r: RecordV) -> CallKind {
    match r {
        RecordV::Log(..) => CallKind::Log,
        RecordV::TickPeriod(..) => CallKind::TickPeriod,
        RecordV::CurrentTime(..) => CallKind::CurrentTime,
        RecordV::GetBufferBytes(..) => CallKind::GetBufferBytes,
        RecordV::SetBufferBytes(..) => CallKind::SetBufferBytes,
        RecordV::GetHeaderMapPairs(..) => CallKind::GetHeaderMapPairs,
        RecordV::SetHeaderMapPairs(..) => CallKind::SetHeaderMapPairs,
        RecordV::GetHeaderMapValue(..) => CallKind::GetHeaderMapValue,
        RecordV::ReplaceHeaderMapValue(..) => CallKind::ReplaceHeaderMapValue,
        RecordV::RemoveHeaderMapValue(..) => CallKind::RemoveHeaderMapValue,
        RecordV::AddHeaderMapValue(..) => CallKind::AddHeaderMapValue,
        RecordV::SendLocalResponse(..) => CallKind::SendLocalResponse,
        RecordV::HttpCall(..) => CallKind::HttpCall,
        RecordV::MetricCreate(..) => CallKind::MetricCreate,
        RecordV::MetricIncrement(..) => CallKind::MetricIncrement,
        RecordV::MetricRecord(..) => CallKind::MetricRecord,
        RecordV::MetricGet(..) => CallKind::MetricGet,
    }
}

/// The kind of the call an `Actual` came from.
pub open spec fn av_kind(a: ActualV) -> CallKind {
    match a {
        ActualV::Log(..) => CallKind::Log,
        ActualV::TickPeriod(..) => CallKind::TickPeriod,
        ActualV::CurrentTime => CallKind::CurrentTime,
        ActualV::GetBufferBytes(..) => CallKind::GetBufferBytes,
        ActualV::SetBufferBytes(..) => CallKind::SetBufferBytes,
        ActualV::GetHeaderMapPairs(..) => CallKind::GetHeaderMapPairs,
        ActualV::SetHeaderMapPairs(..) => CallKind::SetHeaderMapPairs,
        ActualV::GetHeaderMapValue(..) => CallKind::GetHeaderMapValue,
        ActualV::ReplaceHeaderMapValue(..) => CallKind::ReplaceHeaderMapValue,
        ActualV::RemoveHeaderMapValue(..) => CallKind::RemoveHeaderMapValue,
        ActualV::AddHeaderMapValue(..) => CallKind::AddHeaderMapValue,
        ActualV::SendLocalResponse(..) => CallKind::SendLocalResponse,
        ActualV::HttpCall(..) => CallKind::HttpCall,
        ActualV::MetricCreate(..) => CallKind::MetricCreate,
        ActualV::MetricIncrement(..) => CallKind::MetricIncrement,
        ActualV::MetricRecord(..) => CallKind::MetricRecord,
        ActualV::MetricGet(..) => CallKind::MetricGet,
    }
}

/// One argument position: a concrete expected value must equal the actual
/// value; a wildcard always matches.
pub open spec fn wildcard_matches<T>(expected: Option<T>, actual: T) -> bool {
    match expected {
        Some(v) => v == actual,
        None => true,
    }
}

/// A response body position: the actual body is taken as the literal
/// `"default"` when absent, and a concrete expected body must equal it.
pub open spec fn body_matches(expected: Option<Seq<char>>, actual: Option<Seq<char>>) -> bool {
    match expected {
        Some(e) => e == (match actual {
            Some(a) => a,
            None => "default"@,
        }),
        None => true,
    }
}

/// A timeout position: the expected period in milliseconds is narrowed to
/// the actual argument's width before the comparison.
pub open spec fn timeout_matches(expected: Option<u64>, actual: i32) -> bool {
    match expected {
        Some(ms) => actual == ms as i32,
        None => true,
    }
}

/// Whether a queued expectation accepts the arguments of a real call:
/// every concrete position must equal the corresponding actual value and
/// every wildcard position is skipped; the per-position comparisons are
/// ANDed. A record never accepts a call of another kind.
pub open spec fn record_matches(r: RecordV, a: ActualV) -> bool {
    match (r, a) {
        (RecordV::Log(el, em), ActualV::Log(al, am)) => wildcard_matches(el, al)
            && wildcard_matches(em, am),
        (RecordV::TickPeriod(ep), ActualV::TickPeriod(ap)) => match ep {
            Some(ms) => ap == ms as u128,
            None => true,
        },
        (RecordV::CurrentTime(_), ActualV::CurrentTime) => true,
        (RecordV::GetBufferBytes(et, _), ActualV::GetBufferBytes(at)) => wildcard_matches(et, at),
        (RecordV::SetBufferBytes(et, ed), ActualV::SetBufferBytes(at, ad)) => wildcard_matches(
            et,
            at,
        ) && wildcard_matches(ed, ad),
        (RecordV::GetHeaderMapPairs(et, _), ActualV::GetHeaderMapPairs(at)) => wildcard_matches(
            et,
            at,
        ),
        (RecordV::SetHeaderMapPairs(et, ed), ActualV::SetHeaderMapPairs(at, ad)) =>
            wildcard_matches(et, at) && wildcard_matches(ed, ad),
        (RecordV::GetHeaderMapValue(et, ek, _), ActualV::GetHeaderMapValue(at, ak)) =>
            wildcard_matches(et, at) && wildcard_matches(ek, ak),
        (
            RecordV::ReplaceHeaderMapValue(et, ek, ev),
            ActualV::ReplaceHeaderMapValue(at, ak, avl),
        ) => wildcard_matches(et, at) && wildcard_matches(ek, ak) && wildcard_matches(ev, avl),
        (RecordV::RemoveHeaderMapValue(et, ek), ActualV::RemoveHeaderMapValue(at, ak)) =>
            wildcard_matches(et, at) && wildcard_matches(ek, ak),
        (RecordV::AddHeaderMapValue(et, ek, ev), ActualV::AddHeaderMapValue(at, ak, avl)) =>
            wildcard_matches(et, at) && wildcard_matches(ek, ak) && wildcard_matches(ev, avl),
        (
            RecordV::SendLocalResponse(ec, eb, eh, eg),
            ActualV::SendLocalResponse(ac, ab, ah, ag),
        ) => wildcard_matches(ec, ac) && body_matches(eb, ab) && wildcard_matches(eh, ah)
            && wildcard_matches(eg, ag),
        (RecordV::HttpCall(eu, eh, eb, etr, eto, _), ActualV::HttpCall(au, ah, ab, atr, ato)) =>
            wildcard_matches(eu, au) && wildcard_matches(eh, ah) && body_matches(eb, ab)
            && wildcard_matches(etr, atr) && timeout_matches(eto, ato),
        (RecordV::MetricCreate(et, en), ActualV::MetricCreate(at, an)) => et == at && en == an,
        (RecordV::MetricIncrement(ei, eo), ActualV::MetricIncrement(ai, ao)) => ei == ai
            && eo == ao,
        (RecordV::MetricRecord(ei, ev), ActualV::MetricRecord(ai, avl)) => ei == ai && ev == avl,
        (RecordV::MetricGet(ei, ev), ActualV::MetricGet(ai, avl)) => ei == ai && ev == avl,
        _ => false,
    }
}

/// Byte-for-byte equality of two buffers.
pub fn bytes_eq(a: &Vec<u8>, b: &Vec<u8>) -> (r: bool)
    ensures
        r == (a@ == b@),
{
    if a.len() != b.len() {
        return false;
    }
    let mut i: usize = 0;
    while i < a.len()
        invariant
            i <= a@.len(),
            a@.len() == b@.len(),
            forall|j: int| 0 <= j < i ==> a@[j] == b@[j],
        decreases a@.len() - i,
    {
        if a[i] != b[i] {
            return false;
        }
        i = i + 1;
    }
    proof {
        assert(a@ =~= b@);
    }
    true
}

/// Computes whether a queued expectation accepts a real call's arguments.
pub fn compute_match(r: &Record, a: &Actual) -> (b: bool)
    ensures
        b == record_matches(r@, a@),
{
    match (r, a) {
        (Record::Log(el, em), Actual::Log(al, am)) => {
            let ok_level = match el {
                Some(v) => *v == *al,
                None => true,
            };
            let ok_msg = match em {
                Some(s) => *s == *am,
                None => true,
            };
            ok_level && ok_msg
        },
        (Record::TickPeriod(ep), Actual::TickPeriod(ap)) => match ep {
            Some(ms) => *ap == (*ms as u128),
            None => true,
        },
        (Record::CurrentTime(_), Actual::CurrentTime) => true,
        (Record::GetBufferBytes(et, _), Actual::GetBufferBytes(at)) => match et {
            Some(v) => *v == *at,
            None => true,
        },
        (Record::SetBufferBytes(et, ed), Actual::SetBufferBytes(at, ad)) => {
            let ok_type = match et {
                Some(v) => *v == *at,
                None => true,
            };
            let ok_data = match ed {
                Some(d) => bytes_eq(d, ad),
                None => true,
            };
            ok_type && ok_data
        },
        (Record::GetHeaderMapPairs(et, _), Actual::GetHeaderMapPairs(at)) => match et {
            Some(v) => *v == *at,
            None => true,
        },
        (Record::SetHeaderMapPairs(et, ed), Actual::SetHeaderMapPairs(at, ad)) => {
            let ok_type = match et {
                Some(v) => *v == *at,
                None => true,
            };
            let ok_data = match ed {
                Some(d) => bytes_eq(d, ad),
                None => true,
            };
            ok_type && ok_data
        },
        (Record::GetHeaderMapValue(et, ek, _), Actual::GetHeaderMapValue(at, ak)) => {
            let ok_type = match et {
                Some(v) => *v == *at,
                None => true,
            };
            let ok_key = match ek {
                Some(k) => *k == *ak,
                None => true,
            };
            ok_type && ok_key
        },
        (
            Record::ReplaceHeaderMapValue(et, ek, ev),
            Actual::ReplaceHeaderMapValue(at, ak, av),
        ) => {
            let ok_type = match et {
                Some(v) => *v == *at,
                None => true,
            };
            let ok_key = match ek {
                Some(k) => *k == *ak,
                None => true,
            };
            let ok_value = match ev {
                Some(v) => *v == *av,
                None => true,
            };
            ok_type && ok_key && ok_value
        },
        (Record::RemoveHeaderMapValue(et, ek), Actual::RemoveHeaderMapValue(at, ak)) => {
            let ok_type = match et {
                Some(v) => *v == *at,
                None => true,
            };
            let ok_key = match ek {
                Some(k) => *k == *ak,
                None => true,
            };
            ok_type && ok_key
        },
        (Record::AddHeaderMapValue(et, ek, ev), Actual::AddHeaderMapValue(at, ak, av)) => {
            let ok_type = match et {
                Some(v) => *v == *at,
                None => true,
            };
            let ok_key = match ek {
                Some(k) => *k == *ak,
                None => true,
            };
            let ok_value = match ev {
                Some(v) => *v == *av,
                None => true,
            };
            ok_type && ok_key && ok_value
        },
        (Record::SendLocalResponse(ec, eb, eh, eg), Actual::SendLocalResponse(ac, ab, ah, ag)) => {
            let ok_code = match ec {
                Some(v) => *v == *ac,
                None => true,
            };
            let ok_body = body_match_exec(eb, ab);
            let ok_headers = match eh {
                Some(h) => bytes_eq(h, ah),
                None => true,
            };
            let ok_grpc = match eg {
                Some(v) => *v == *ag,
                None => true,
            };
            ok_code && ok_body && ok_headers && ok_grpc
        },
        (Record::HttpCall(eu, eh, eb, etr, eto, _), Actual::HttpCall(au, ah, ab, atr, ato)) => {
            let ok_upstream = match eu {
                Some(u) => *u == *au,
                None => true,
            };
            let ok_headers = match eh {
                Some(h) => bytes_eq(h, ah),
                None => true,
            };
            let ok_body = body_match_exec(eb, ab);
            let ok_trailers = match etr {
                Some(t) => bytes_eq(t, atr),
                None => true,
            };
            let ok_timeout = match eto {
                Some(ms) => *ato == #[verifier::truncate] (*ms as i32),
                None => true,
            };
            ok_upstream && ok_headers && ok_body && ok_trailers && ok_timeout
        },
        (Record::MetricCreate(et, en), Actual::MetricCreate(at, an)) => *et == *at && *en == *an,
        (Record::MetricIncrement(ei, eo), Actual::MetricIncrement(ai, ao)) => *ei == *ai
            && *eo == *ao,
        (Record::MetricRecord(ei, ev), Actual::MetricRecord(ai, av)) => *ei == *ai && *ev == *av,
        (Record::MetricGet(ei, ev), Actual::MetricGet(ai, av)) => *ei == *ai && *ev == *av,
        (_, _) => false,
    }
}

/// Computes a response-body comparison: an absent actual body stands in as
/// the literal `"default"`.
fn body_match_exec(expected: &Option<String>, actual: &Option<String>) -> (b: bool)
    ensures
        b == body_matches(opt_string_view(*expected), opt_string_view(*actual)),
{
    match expected {
        Some(e) => match actual {
            Some(a) => *e == *a,
            None => {
                let d: String = "default".to_owned();
                *e == d
            },
        },
        None => true,
    }
}

/// The stubbed timestamp a consumed `CurrentTime` expectation hands back,
/// in nanoseconds since the epoch.
pub open spec fn time_stub(p: Option<RecordV>) -> Option<u128> {
    match p {
        Some(RecordV::CurrentTime(Some(n))) => Some(n as u128),
        _ => None,
    }
}

/// The stubbed buffer contents a consumed `GetBufferBytes` expectation
/// hands back.
pub open spec fn buffer_stub(p: Option<RecordV>) -> Option<Seq<u8>> {
    match p {
        Some(RecordV::GetBufferBytes(_, d)) => d,
        _ => None,
    }
}

/// The stubbed encoded pairs a consumed `GetHeaderMapPairs` expectation
/// hands back.
pub open spec fn header_pairs_stub(p: Option<RecordV>) -> Option<Seq<u8>> {
    match p {
        Some(RecordV::GetHeaderMapPairs(_, d)) => d,
        _ => None,
    }
}

/// The stubbed header value a consumed `GetHeaderMapValue` expectation
/// hands back.
pub open spec fn header_value_stub(p: Option<RecordV>) -> Option<Seq<char>> {
    match p {
        Some(RecordV::GetHeaderMapValue(_, _, v)) => v,
        _ => None,
    }
}

/// The stubbed token id a consumed `HttpCall` expectation hands back.
pub open spec fn token_stub(p: Option<RecordV>) -> Option<u32> {
    match p {
        Some(RecordV::HttpCall(_, _, _, _, _, t)) => t,
        _ => None,
    }
}

} // verus!

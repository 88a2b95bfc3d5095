use expectations::encoding::serialize_map;
use expectations::expect::Expect;
use expectations::handle::{ExpectHandle, StageError};
use expectations::status::ExpectStatus;

#[test]
fn enqueue_then_consume_returns_balance() {
    let mut e = Expect::new(false);
    e.set_expect_metric_record(7, 100);
    e.set_expect_metric_record(7, 200);
    e.set_expect_metric_record(8, 300);
    assert_eq!(e.expect_count, 3);
    assert_eq!(e.get_expect_metric_record(7, 100), ExpectStatus::Expected);
    assert_eq!(e.get_expect_metric_record(7, 200), ExpectStatus::Expected);
    assert_eq!(e.get_expect_metric_record(8, 300), ExpectStatus::Expected);
    assert_eq!(e.expect_count, 0);
}

#[test]
fn all_wildcard_record_matches_anything() {
    let mut e = Expect::new(false);
    e.set_expect_log(None, None);
    assert_eq!(e.get_expect_log(99, "anything at all"), ExpectStatus::Expected);
    assert_eq!(e.expect_count, 0);

    e.set_expect_http_call(None, None, None, None, None, None);
    let (st, token) = e.get_expect_http_call("cluster", b"hdrs", Some("body"), b"trls", 123);
    assert_eq!(st, ExpectStatus::Expected);
    assert_eq!(token, None);
    assert_eq!(e.expect_count, 0);
}

#[test]
fn fifo_consumption_order() {
    let mut e = Expect::new(false);
    e.set_expect_log(Some(1), Some("first"));
    e.set_expect_log(Some(2), Some("second"));
    assert_eq!(e.get_expect_log(1, "first"), ExpectStatus::Expected);
    assert_eq!(e.get_expect_log(2, "second"), ExpectStatus::Expected);
    assert_eq!(e.expect_count, 0);
}

#[test]
fn fifo_never_matches_out_of_order() {
    let mut e = Expect::new(false);
    e.set_expect_log(Some(1), Some("first"));
    e.set_expect_log(Some(2), Some("second"));
    // The front record is (1, "first"); consuming (2, "second") first must
    // be judged against it, not against the second record.
    assert_eq!(e.get_expect_log(2, "second"), ExpectStatus::Failed);
    assert_eq!(e.get_expect_log(1, "first"), ExpectStatus::Failed);
    assert_eq!(e.expect_count, 0);
}

#[test]
fn strict_deficit_decrements_balance() {
    let mut e = Expect::new(false);
    assert_eq!(e.get_expect_metric_get(1, 10), ExpectStatus::Unexpected);
    assert_eq!(e.expect_count, -1);
}

#[test]
fn lenient_deficit_leaves_balance() {
    let mut e = Expect::new(true);
    assert_eq!(e.get_expect_metric_get(1, 10), ExpectStatus::Unexpected);
    assert_eq!(e.expect_count, 0);
}

#[test]
fn reset_discards_contents_and_balance() {
    let mut h = ExpectHandle::new();
    h.staged.set_expect_log(Some(1), Some("stale"));
    h.staged.set_expect_metric_create(1, "stale_metric");
    assert_eq!(h.staged.expect_count, 2);
    h.update_stage(false);
    assert_eq!(h.staged.expect_count, 0);
    // The discarded expectations are gone: the next consume is unexpected.
    assert_eq!(h.staged.get_expect_log(1, "stale"), ExpectStatus::Unexpected);
}

#[test]
fn finish_after_reset_succeeds() {
    let mut h = ExpectHandle::new();
    assert_eq!(h.assert_stage(), Ok(()));
    h.staged.set_expect_log(None, None);
    h.update_stage(true);
    assert_eq!(h.assert_stage(), Ok(()));
}

#[test]
fn log_partial_mismatch_is_failed() {
    let mut e = Expect::new(false);
    e.set_expect_log(Some(2), Some("boot"));
    // level matches, message mismatches
    assert_eq!(e.get_expect_log(2, "wrong"), ExpectStatus::Failed);
    assert_eq!(e.expect_count, 0);
}

#[test]
fn unconsumed_expectation_fails_finish() {
    let mut h = ExpectHandle::new();
    h.update_stage(false);
    h.staged.set_expect_metric_create(1, "req_count");
    assert_eq!(h.assert_stage(), Err(StageError::Unconsumed(1)));
}

#[test]
fn lenient_unexpected_call_still_finishes() {
    let mut h = ExpectHandle::new();
    h.update_stage(true);
    assert_eq!(
        h.staged.get_expect_set_tick_period_millis(500),
        ExpectStatus::Unexpected
    );
    assert_eq!(h.staged.expect_count, 0);
    assert_eq!(h.assert_stage(), Ok(()));
}

#[test]
fn strict_overcall_fails_finish() {
    let mut h = ExpectHandle::new();
    h.update_stage(false);
    h.staged.get_expect_metric_increment(1, 5);
    h.staged.get_expect_metric_increment(1, 5);
    assert_eq!(h.assert_stage(), Err(StageError::Unaccounted(2)));
}

#[test]
fn tick_period_concrete_match() {
    let mut e = Expect::new(false);
    e.set_expect_set_tick_period_millis(Some(250));
    assert_eq!(e.get_expect_set_tick_period_millis(250), ExpectStatus::Expected);
    e.set_expect_set_tick_period_millis(Some(250));
    assert_eq!(e.get_expect_set_tick_period_millis(251), ExpectStatus::Failed);
}

#[test]
fn current_time_stub_comes_back() {
    let mut e = Expect::new(false);
    e.set_expect_get_current_time_nanos(Some(123_456_789));
    let (st, t) = e.get_expect_get_current_time_nanos();
    assert_eq!(st, ExpectStatus::Expected);
    assert_eq!(t, Some(123_456_789u128));
    assert_eq!(e.expect_count, 0);
    // With no expectation queued there is no stub either.
    let (st2, t2) = e.get_expect_get_current_time_nanos();
    assert_eq!(st2, ExpectStatus::Unexpected);
    assert_eq!(t2, None);
}

#[test]
fn buffer_stub_and_type_match() {
    let mut e = Expect::new(false);
    e.set_expect_get_buffer_bytes(Some(3), Some("payload"));
    let (st, data) = e.get_expect_get_buffer_bytes(3);
    assert_eq!(st, ExpectStatus::Expected);
    assert_eq!(data, Some(b"payload".to_vec()));

    e.set_expect_get_buffer_bytes(Some(3), Some("payload"));
    let (st2, data2) = e.get_expect_get_buffer_bytes(4);
    assert_eq!(st2, ExpectStatus::Failed);
    // A failed match still pops the record and hands its stub back.
    assert_eq!(data2, Some(b"payload".to_vec()));
}

#[test]
fn set_buffer_bytes_compares_contents() {
    let mut e = Expect::new(false);
    e.set_expect_set_buffer_bytes(Some(1), Some("abc"));
    assert_eq!(e.get_expect_set_buffer_bytes(1, b"abc"), ExpectStatus::Expected);
    e.set_expect_set_buffer_bytes(Some(1), Some("abc"));
    assert_eq!(e.get_expect_set_buffer_bytes(1, b"abd"), ExpectStatus::Failed);
}

#[test]
fn header_map_pairs_compare_encoded() {
    let mut e = Expect::new(false);
    let expected = vec![(":path", "/ok"), (":method", "GET")];
    e.set_expect_set_header_map_pairs(Some(0), Some(expected));
    let same = serialize_map(&vec![(":path", "/ok"), (":method", "GET")]);
    assert_eq!(e.get_expect_set_header_map_pairs(0, &same), ExpectStatus::Expected);

    // Same pairs in a different order encode differently and do not match.
    let expected2 = vec![(":path", "/ok"), (":method", "GET")];
    e.set_expect_set_header_map_pairs(Some(0), Some(expected2));
    let reordered = serialize_map(&vec![(":method", "GET"), (":path", "/ok")]);
    assert_eq!(e.get_expect_set_header_map_pairs(0, &reordered), ExpectStatus::Failed);
}

#[test]
fn header_pairs_stub_comes_back_encoded() {
    let mut e = Expect::new(false);
    e.set_expect_get_header_map_pairs(Some(0), Some(vec![("k", "v")]));
    let (st, data) = e.get_expect_get_header_map_pairs(0);
    assert_eq!(st, ExpectStatus::Expected);
    assert_eq!(data, Some(serialize_map(&vec![("k", "v")])));
}

#[test]
fn header_value_wildcards_and_stub() {
    let mut e = Expect::new(false);
    e.set_expect_get_header_map_value(None, Some(":path"), Some("/index"));
    let (st, v) = e.get_expect_get_header_map_value(2, ":path");
    assert_eq!(st, ExpectStatus::Expected);
    assert_eq!(v, Some("/index".to_string()));

    e.set_expect_get_header_map_value(Some(1), Some(":path"), None);
    let (st2, v2) = e.get_expect_get_header_map_value(1, ":authority");
    assert_eq!(st2, ExpectStatus::Failed);
    assert_eq!(v2, None);
}

#[test]
fn replace_remove_add_header_values() {
    let mut e = Expect::new(false);
    e.set_expect_replace_header_map_value(Some(0), Some("k"), Some("v"));
    assert_eq!(
        e.get_expect_replace_header_map_value(0, "k", "v"),
        ExpectStatus::Expected
    );
    e.set_expect_remove_header_map_value(Some(0), Some("k"));
    assert_eq!(e.get_expect_remove_header_map_value(0, "other"), ExpectStatus::Failed);
    e.set_expect_add_header_map_value(None, None, Some("v"));
    assert_eq!(e.get_expect_add_header_map_value(5, "any", "v"), ExpectStatus::Expected);
    assert_eq!(e.expect_count, 0);
}

#[test]
fn send_local_response_default_body() {
    let mut e = Expect::new(false);
    let headers = serialize_map(&vec![("h", "1")]);
    e.set_expect_send_local_response(Some(200), Some("default"), Some(vec![("h", "1")]), Some(0));
    // An absent actual body stands in as the literal "default".
    assert_eq!(
        e.get_expect_send_local_response(200, None, &headers, 0),
        ExpectStatus::Expected
    );
    e.set_expect_send_local_response(Some(200), Some("hello"), None, None);
    assert_eq!(
        e.get_expect_send_local_response(200, Some("bye"), &headers, 7),
        ExpectStatus::Failed
    );
}

#[test]
fn http_call_concrete_match_and_token() {
    let mut e = Expect::new(false);
    let headers = serialize_map(&vec![(":authority", "up")]);
    let trailers = serialize_map(&Vec::new());
    e.set_expect_http_call(
        Some("cluster"),
        Some(vec![(":authority", "up")]),
        Some("ping"),
        Some(Vec::new()),
        Some(5000),
        Some(42),
    );
    let (st, token) = e.get_expect_http_call("cluster", &headers, Some("ping"), &trailers, 5000);
    assert_eq!(st, ExpectStatus::Expected);
    assert_eq!(token, Some(42));

    e.set_expect_http_call(Some("cluster"), None, None, None, Some(5000), Some(43));
    let (st2, token2) = e.get_expect_http_call("other", &headers, None, &trailers, 5000);
    assert_eq!(st2, ExpectStatus::Failed);
    assert_eq!(token2, Some(43));
}

#[test]
fn metric_kinds_need_exact_arguments() {
    let mut e = Expect::new(false);
    e.set_expect_metric_create(1, "req_count");
    assert_eq!(e.get_expect_metric_create(1, "req_count"), ExpectStatus::Expected);
    e.set_expect_metric_create(1, "req_count");
    assert_eq!(e.get_expect_metric_create(2, "req_count"), ExpectStatus::Failed);
    e.set_expect_metric_increment(3, -4);
    assert_eq!(e.get_expect_metric_increment(3, -4), ExpectStatus::Expected);
    e.set_expect_metric_get(9, 1000);
    assert_eq!(e.get_expect_metric_get(9, 999), ExpectStatus::Failed);
}

#[test]
fn kinds_are_independent_queues() {
    let mut e = Expect::new(false);
    e.set_expect_log(Some(1), Some("a"));
    e.set_expect_metric_record(1, 1);
    // Consuming the metric first does not disturb the log queue.
    assert_eq!(e.get_expect_metric_record(1, 1), ExpectStatus::Expected);
    assert_eq!(e.get_expect_log(1, "a"), ExpectStatus::Expected);
    assert_eq!(e.expect_count, 0);
}

#[test]
fn encoder_is_deterministic_and_order_preserving() {
    let a = serialize_map(&vec![("x", "1"), ("y", "2")]);
    let b = serialize_map(&vec![("x", "1"), ("y", "2")]);
    let c = serialize_map(&vec![("y", "2"), ("x", "1")]);
    assert_eq!(a, b);
    assert_ne!(a, c);
    assert_ne!(serialize_map(&Vec::new()), a);
}

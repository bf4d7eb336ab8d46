//! The query builders.

use imbh_c::error::LastError;
use imbh_c::filters::{KeyValue, TimeRange};
use imbh_c::{
    imbh_aggregation, imbh_bytes, imbh_bytes_free, imbh_direction, imbh_error, imbh_label_op,
    imbh_last_error_message,
    imbh_log_query_add_attr_eq, imbh_log_query_add_attr_exists, imbh_log_query_add_attr_in,
    imbh_log_query_add_attr_matches, imbh_log_query_add_attr_not_in, imbh_log_query_add_attr_num,
    imbh_log_query_add_attr_regex, imbh_log_query_free, imbh_log_query_new,
    imbh_log_query_set_direction,
    imbh_log_query_set_limit, imbh_log_query_set_min_severity, imbh_log_query_set_offset,
    imbh_log_query_set_range, imbh_log_query_set_service, imbh_log_query_set_text,
    imbh_metric_point_kind, imbh_metric_points_query_add_filter, imbh_metric_points_query_free,
    imbh_metric_points_query_new, imbh_metric_points_query_set_limit,
    imbh_metric_points_query_set_metric, imbh_metric_points_query_set_range,
    imbh_metric_query_add_filter, imbh_metric_query_add_group_by, imbh_metric_query_free,
    imbh_metric_query_new, imbh_metric_query_set_aggregation, imbh_metric_query_set_metric,
    imbh_metric_query_set_range, imbh_metric_query_set_rate, imbh_metric_query_set_step_nanos,
    imbh_metric_table, imbh_num_op, imbh_rate_mode, imbh_span_metrics_query_add_attr_eq,
    imbh_span_metrics_query_add_group_by, imbh_span_metrics_query_free,
    imbh_span_metrics_query_new, imbh_span_metrics_query_set_kind,
    imbh_span_metrics_query_set_name, imbh_span_metrics_query_set_range,
    imbh_span_metrics_query_set_service, imbh_span_metrics_query_set_status,
    imbh_span_metrics_query_set_step_nanos, imbh_trace_query_add_attr_eq,
    imbh_trace_query_add_attr_exists, imbh_trace_query_add_attr_in,
    imbh_trace_query_add_attr_matches, imbh_trace_query_add_attr_not_in,
    imbh_trace_query_add_attr_num, imbh_trace_query_add_attr_regex, imbh_trace_query_free,
    imbh_trace_query_new,
    imbh_trace_query_set_kind, imbh_trace_query_set_limit,
    imbh_trace_query_set_max_duration_nanos, imbh_trace_query_set_min_duration_nanos,
    imbh_trace_query_set_name, imbh_trace_query_set_range, imbh_trace_query_set_service,
    imbh_trace_query_set_status, imbh_trace_query_set_text,
};

fn pairs(list: &[KeyValue]) -> Vec<(&str, &str)> {
    list.iter().map(|p| (p.key.as_str(), p.value.as_str())).collect()
}

#[test]
fn log_queries_hold_what_was_set() {
    let mut last = LastError::new();
    let l = &mut last;
    let mut q = imbh_log_query_new(l);
    assert_eq!(q.limit, 0);
    assert_eq!(q.direction, 0);
    assert!(q.service.is_none());
    let ok = imbh_error::Success;
    assert_eq!(imbh_log_query_set_service(Some(&mut q), Some(b"first"), l), ok);
    assert_eq!(imbh_log_query_set_service(Some(&mut q), Some(b"checkout"), l), ok);
    assert_eq!(imbh_log_query_set_min_severity(Some(&mut q), 9, l), ok);
    assert_eq!(imbh_log_query_set_text(Some(&mut q), Some(b"timeout"), l), ok);
    assert_eq!(imbh_log_query_set_range(Some(&mut q), i64::MIN, 5, l), ok);
    assert_eq!(imbh_log_query_set_limit(Some(&mut q), 10, l), ok);
    assert_eq!(imbh_log_query_set_direction(Some(&mut q), imbh_direction::Forward, l), ok);
    assert_eq!(imbh_log_query_set_offset(Some(&mut q), 20, l), ok);
    assert_eq!(imbh_log_query_add_attr_eq(Some(&mut q), Some(b"a"), Some(b"1"), l), ok);
    assert_eq!(imbh_log_query_add_attr_eq(Some(&mut q), Some(b"b"), Some(b"2"), l), ok);
    assert_eq!(imbh_log_query_add_attr_exists(Some(&mut q), Some(b"c"), l), ok);
    assert_eq!(imbh_log_query_add_attr_matches(Some(&mut q), Some(b"d"), Some(b"x"), l), ok);
    assert_eq!(imbh_log_query_add_attr_regex(Some(&mut q), Some(b"e"), Some(b".*"), l), ok);
    let values: [Option<&[u8]>; 2] = [Some(b"v1"), Some(b"v2")];
    assert_eq!(imbh_log_query_add_attr_in(Some(&mut q), Some(b"f"), Some(&values), 2, l), ok);
    assert_eq!(imbh_log_query_add_attr_not_in(Some(&mut q), Some(b"g"), None, 0, l), ok);
    let bits = 0.25f64.to_bits();
    assert_eq!(
        imbh_log_query_add_attr_num(Some(&mut q), Some(b"h"), imbh_num_op::Le, bits, l),
        ok
    );

    assert_eq!(q.service.as_deref(), Some("checkout"));
    assert_eq!(q.min_severity, Some(9));
    assert_eq!(q.text.as_deref(), Some("timeout"));
    assert_eq!(q.range, Some(TimeRange { start: i64::MIN, end: 5 }));
    assert_eq!(q.limit, 10);
    assert_eq!(q.direction, 1);
    assert_eq!(q.offset, 20);
    assert_eq!(pairs(&q.attr_eq), vec![("a", "1"), ("b", "2")]);
    assert_eq!(q.attr_exists, vec!["c"]);
    assert_eq!(pairs(&q.attr_matches), vec![("d", "x")]);
    assert_eq!(pairs(&q.attr_regex), vec![("e", ".*")]);
    assert_eq!(q.attr_in.len(), 1);
    assert_eq!(q.attr_in[0].key, "f");
    assert_eq!(q.attr_in[0].values, vec!["v1", "v2"]);
    assert_eq!(q.attr_not_in[0].key, "g");
    assert!(q.attr_not_in[0].values.is_empty());
    assert_eq!((q.attr_num[0].op, q.attr_num[0].value_bits), (3, bits));
}

#[test]
fn a_refused_argument_leaves_the_builder_alone() {
    let mut last = LastError::new();
    let mut q = imbh_log_query_new(&mut last);
    let bad = imbh_error::InvalidArg;
    assert_eq!(imbh_log_query_set_service(Some(&mut q), Some(b"\xff\xfe"), &mut last), bad);
    assert_eq!(imbh_last_error_message(&last), Some("string is not valid UTF-8"));
    assert!(q.service.is_none());
    assert_eq!(imbh_log_query_add_attr_eq(Some(&mut q), Some(b"k"), None, &mut last), bad);
    assert_eq!(imbh_last_error_message(&last), Some("null string pointer"));
    assert!(q.attr_eq.is_empty());
    assert_eq!(imbh_log_query_add_attr_in(Some(&mut q), Some(b"k"), None, 1, &mut last), bad);
    assert_eq!(imbh_last_error_message(&last), Some("null values array"));
    assert!(q.attr_in.is_empty());
    // The key is read before the values.
    assert_eq!(imbh_log_query_add_attr_in(Some(&mut q), None, None, 1, &mut last), bad);
    assert_eq!(imbh_last_error_message(&last), Some("null string pointer"));
}

#[test]
fn null_builders_are_named_in_the_message() {
    let mut last = LastError::new();
    let bad = imbh_error::InvalidArg;
    assert_eq!(imbh_log_query_set_limit(None, 1, &mut last), bad);
    assert_eq!(imbh_last_error_message(&last), Some("null imbh_log_query"));
    assert_eq!(imbh_metric_query_set_metric(None, None, &mut last), bad);
    assert_eq!(imbh_last_error_message(&last), Some("null imbh_metric_query"));
    assert_eq!(imbh_span_metrics_query_set_name(None, None, &mut last), bad);
    assert_eq!(imbh_last_error_message(&last), Some("null imbh_span_metrics_query"));
    assert_eq!(imbh_trace_query_set_limit(None, 1, &mut last), bad);
    assert_eq!(imbh_last_error_message(&last), Some("null imbh_trace_query"));
    assert_eq!(imbh_metric_points_query_set_limit(None, 1, &mut last), bad);
    assert_eq!(imbh_last_error_message(&last), Some("null imbh_metric_points_query"));
}

#[test]
fn metric_queries_hold_what_was_set() {
    let mut last = LastError::new();
    let l = &mut last;
    let ok = imbh_error::Success;
    let mut slot = Some(imbh_metric_query_new(imbh_metric_table::Sum, l));
    let agg = imbh_aggregation::Count;
    assert_eq!(imbh_metric_query_set_metric(slot.as_mut(), Some(b"cpu"), l), ok);
    assert_eq!(imbh_metric_query_set_aggregation(slot.as_mut(), agg, l), ok);
    assert_eq!(imbh_metric_query_add_group_by(slot.as_mut(), Some(b"host"), l), ok);
    let op = imbh_label_op::NotRegex;
    assert_eq!(imbh_metric_query_add_filter(slot.as_mut(), Some(b"k"), op, Some(b"v"), l), ok);
    assert_eq!(imbh_metric_query_set_range(slot.as_mut(), 1, 2, l), ok);
    assert_eq!(imbh_metric_query_set_step_nanos(slot.as_mut(), -7, l), ok);
    assert_eq!(imbh_metric_query_set_rate(slot.as_mut(), imbh_rate_mode::Counter, l), ok);
    {
        let q = slot.as_ref().unwrap();
        assert_eq!(q.table, 1);
        assert_eq!(q.metric, "cpu");
        assert_eq!(q.aggregation, Some(4));
        assert_eq!(q.group_by, vec!["host"]);
        assert_eq!((q.filters[0].key.as_str(), q.filters[0].op), ("k", 3));
        assert_eq!(q.filters[0].value, "v");
        assert_eq!(q.range, Some(TimeRange { start: 1, end: 2 }));
        assert_eq!(q.step_nanos, Some(-7));
        assert_eq!(q.rate, 2);
    }
    imbh_metric_query_free(&mut slot, l);
    assert!(slot.is_none());
    imbh_metric_query_free(&mut slot, l);
    assert!(slot.is_none());
}

#[test]
fn span_metrics_queries_hold_what_was_set() {
    let mut last = LastError::new();
    let l = &mut last;
    let ok = imbh_error::Success;
    let mut q = Some(imbh_span_metrics_query_new(l));
    assert_eq!(imbh_span_metrics_query_set_service(q.as_mut(), Some(b"s"), l), ok);
    assert_eq!(imbh_span_metrics_query_set_name(q.as_mut(), Some(b"n"), l), ok);
    assert_eq!(imbh_span_metrics_query_set_kind(q.as_mut(), Some(b"SERVER"), l), ok);
    assert_eq!(imbh_span_metrics_query_set_status(q.as_mut(), Some(b"ERROR"), l), ok);
    assert_eq!(imbh_span_metrics_query_add_attr_eq(q.as_mut(), Some(b"k"), Some(b"v"), l), ok);
    assert_eq!(imbh_span_metrics_query_add_group_by(q.as_mut(), Some(b"g"), l), ok);
    assert_eq!(imbh_span_metrics_query_set_range(q.as_mut(), 3, 4, l), ok);
    assert_eq!(imbh_span_metrics_query_set_step_nanos(q.as_mut(), 60, l), ok);
    {
        let q = q.as_ref().unwrap();
        assert_eq!(q.service.as_deref(), Some("s"));
        assert_eq!(q.name.as_deref(), Some("n"));
        assert_eq!(q.kind.as_deref(), Some("SERVER"));
        assert_eq!(q.status.as_deref(), Some("ERROR"));
        assert_eq!(pairs(&q.attr_eq), vec![("k", "v")]);
        assert_eq!(q.group_by, vec!["g"]);
        assert_eq!(q.range, Some(TimeRange { start: 3, end: 4 }));
        assert_eq!(q.step_nanos, Some(60));
    }
    imbh_span_metrics_query_free(&mut q, l);
    assert!(q.is_none());
}

#[test]
fn trace_queries_hold_what_was_set() {
    let mut last = LastError::new();
    let l = &mut last;
    let ok = imbh_error::Success;
    let mut q = imbh_trace_query_new(l);
    assert_eq!(imbh_trace_query_set_service(Some(&mut q), Some(b"s"), l), ok);
    assert_eq!(imbh_trace_query_set_name(Some(&mut q), Some(b"n"), l), ok);
    assert_eq!(imbh_trace_query_set_text(Some(&mut q), Some(b"t"), l), ok);
    assert_eq!(imbh_trace_query_set_status(Some(&mut q), Some(b"OK"), l), ok);
    assert_eq!(imbh_trace_query_set_kind(Some(&mut q), Some(b"CLIENT"), l), ok);
    assert_eq!(imbh_trace_query_set_min_duration_nanos(Some(&mut q), 1, l), ok);
    assert_eq!(imbh_trace_query_set_max_duration_nanos(Some(&mut q), u64::MAX, l), ok);
    assert_eq!(imbh_trace_query_set_range(Some(&mut q), 5, 6, l), ok);
    assert_eq!(imbh_trace_query_set_limit(Some(&mut q), 20, l), ok);
    assert_eq!(imbh_trace_query_add_attr_eq(Some(&mut q), Some(b"a"), Some(b"1"), l), ok);
    assert_eq!(imbh_trace_query_add_attr_exists(Some(&mut q), Some(b"b"), l), ok);
    assert_eq!(imbh_trace_query_add_attr_matches(Some(&mut q), Some(b"c"), Some(b"2"), l), ok);
    assert_eq!(imbh_trace_query_add_attr_regex(Some(&mut q), Some(b"d"), Some(b"3"), l), ok);
    let values: [Option<&[u8]>; 1] = [Some(b"v")];
    assert_eq!(imbh_trace_query_add_attr_in(Some(&mut q), Some(b"e"), Some(&values), 1, l), ok);
    assert_eq!(
        imbh_trace_query_add_attr_not_in(Some(&mut q), Some(b"f"), Some(&values), 1, l),
        ok
    );
    assert_eq!(
        imbh_trace_query_add_attr_num(Some(&mut q), Some(b"g"), imbh_num_op::Gt, 0, l),
        ok
    );
    assert_eq!(q.service.as_deref(), Some("s"));
    assert_eq!(q.name.as_deref(), Some("n"));
    assert_eq!(q.text.as_deref(), Some("t"));
    assert_eq!(q.status.as_deref(), Some("OK"));
    assert_eq!(q.kind.as_deref(), Some("CLIENT"));
    assert_eq!((q.min_duration_ns, q.max_duration_ns), (Some(1), Some(u64::MAX)));
    assert_eq!(q.range, Some(TimeRange { start: 5, end: 6 }));
    assert_eq!(q.limit, 20);
    assert_eq!(pairs(&q.attr_eq), vec![("a", "1")]);
    assert_eq!(q.attr_exists, vec!["b"]);
    assert_eq!(pairs(&q.attr_matches), vec![("c", "2")]);
    assert_eq!(pairs(&q.attr_regex), vec![("d", "3")]);
    assert_eq!(q.attr_in[0].values, vec!["v"]);
    assert_eq!(q.attr_not_in[0].key, "f");
    assert_eq!(q.attr_num[0].op, 0);
}

#[test]
fn metric_points_queries_hold_what_was_set() {
    let mut last = LastError::new();
    let l = &mut last;
    let ok = imbh_error::Success;
    let mut q = Some(imbh_metric_points_query_new(imbh_metric_point_kind::Histogram, l));
    assert_eq!(imbh_metric_points_query_set_metric(q.as_mut(), Some(b"latency"), l), ok);
    assert_eq!(imbh_metric_points_query_add_filter(q.as_mut(), Some(b"k"), Some(b"v"), l), ok);
    assert_eq!(imbh_metric_points_query_set_range(q.as_mut(), -1, 1, l), ok);
    assert_eq!(imbh_metric_points_query_set_limit(q.as_mut(), 3, l), ok);
    {
        let q = q.as_ref().unwrap();
        assert_eq!(q.kind, imbh_metric_point_kind::Histogram);
        assert_eq!(q.kind.code(), 2);
        assert_eq!(q.metric, "latency");
        assert_eq!(pairs(&q.filters), vec![("k", "v")]);
        assert_eq!(q.range, Some(TimeRange { start: -1, end: 1 }));
        assert_eq!(q.limit, 3);
    }
    imbh_metric_points_query_free(&mut q, l);
    assert!(q.is_none());
}

#[test]
fn constructors_and_frees_leave_no_message() {
    let mut last = LastError::new();
    let fail = |last: &mut LastError| {
        assert_eq!(imbh_log_query_set_limit(None, 1, last), imbh_error::InvalidArg);
        assert_eq!(imbh_last_error_message(last), Some("null imbh_log_query"));
    };

    fail(&mut last);
    let mut log = Some(imbh_log_query_new(&mut last));
    assert_eq!(imbh_last_error_message(&last), None);
    fail(&mut last);
    imbh_log_query_free(&mut log, &mut last);
    assert_eq!(imbh_last_error_message(&last), None);

    fail(&mut last);
    let mut metric = Some(imbh_metric_query_new(imbh_metric_table::Sum, &mut last));
    assert_eq!(imbh_last_error_message(&last), None);
    fail(&mut last);
    imbh_metric_query_free(&mut metric, &mut last);
    assert_eq!(imbh_last_error_message(&last), None);

    fail(&mut last);
    let mut spans = Some(imbh_span_metrics_query_new(&mut last));
    assert_eq!(imbh_last_error_message(&last), None);
    fail(&mut last);
    imbh_span_metrics_query_free(&mut spans, &mut last);
    assert_eq!(imbh_last_error_message(&last), None);

    fail(&mut last);
    let mut traces = Some(imbh_trace_query_new(&mut last));
    assert_eq!(imbh_last_error_message(&last), None);
    fail(&mut last);
    imbh_trace_query_free(&mut traces, &mut last);
    assert_eq!(imbh_last_error_message(&last), None);

    fail(&mut last);
    let mut points = Some(imbh_metric_points_query_new(imbh_metric_point_kind::Gauge, &mut last));
    assert_eq!(imbh_last_error_message(&last), None);
    fail(&mut last);
    imbh_metric_points_query_free(&mut points, &mut last);
    assert_eq!(imbh_last_error_message(&last), None);

    // Freeing nothing succeeds too.
    fail(&mut last);
    imbh_metric_points_query_free(&mut points, &mut last);
    assert_eq!(imbh_last_error_message(&last), None);
    fail(&mut last);
    imbh_bytes_free(&mut imbh_bytes { data: Vec::new(), len: 0 }, &mut last);
    assert_eq!(imbh_last_error_message(&last), None);
}

//! The C header.

use imbh_c::header::header;
use imbh_c::{
    imbh_aggregation, imbh_compression, imbh_direction, imbh_error, imbh_label_op,
    imbh_metric_point_kind, imbh_metric_table, imbh_num_op, imbh_rate_mode, imbh_refresh_mode,
    imbh_table, imbh_wal_mode,
};

#[test]
fn committed_header_has_key_symbols() {
    let header = header();
    for sym in [
        "imbh_db_open_memory",
        "imbh_db_ingest_logs",
        "imbh_db_query_sql",
        "imbh_db_logs_query",
        "imbh_db_query_promql",
        "imbh_db_query_logql",
        "imbh_db_query_traceql",
        "imbh_db_get_trace",
        "imbh_db_attr_names",
        "imbh_db_attr_values",
        "imbh_db_metric_catalog",
        "imbh_db_metric_series",
        "imbh_db_metric_exemplars",
        "imbh_db_metrics_instant",
        "imbh_db_logs_volume",
        "imbh_db_logs_page",
        "imbh_db_traces_search",
        "imbh_trace_query_set_service",
        "imbh_db_metrics_points",
        "imbh_metric_points_query_new",
        "imbh_db_logs_count",
        "imbh_db_export",
        "imbh_db_query_sql_ipc",
        "imbh_db_snapshot",
        "imbh_db_segments",
        "imbh_db_durable_through",
        "imbh_db_open_read_only",
        "imbh_bytes_free",
        "imbh_log_query_set_service",
        "imbh_query_stats",
        "#include <arrow/c/abi.h>",
        "struct ArrowArrayStream *out",
        "IMBH_ERROR_OK",
    ] {
        assert!(header.contains(sym), "header missing `{sym}`");
    }
}

#[test]
fn header_numbers_are_those_of_the_enumerations() {
    let header = header();
    let numbers = [
        ("IMBH_ERROR_OK", imbh_error::Success.code()),
        ("IMBH_ERROR_INVALID_ARG", imbh_error::InvalidArg.code()),
        ("IMBH_ERROR_PANIC", imbh_error::Panic.code()),
        ("IMBH_ERROR_NOT_FOUND", imbh_error::NotFound.code()),
        ("IMBH_ERROR_BACKPRESSURE", imbh_error::Backpressure.code()),
        ("IMBH_ERROR_OPEN", imbh_error::Open.code()),
        ("IMBH_ERROR_INGEST", imbh_error::Ingest.code()),
        ("IMBH_ERROR_QUERY", imbh_error::Query.code()),
        ("IMBH_ERROR_STORAGE", imbh_error::Storage.code()),
        ("IMBH_ERROR_CONFIG", imbh_error::Config.code()),
        ("IMBH_ERROR_CLOSED", imbh_error::Closed.code()),
        ("IMBH_WAL_MODE_OFF", imbh_wal_mode::Off.code()),
        ("IMBH_WAL_MODE_INTERVAL", imbh_wal_mode::Interval.code()),
        ("IMBH_WAL_MODE_ALWAYS", imbh_wal_mode::Always.code()),
        ("IMBH_COMPRESSION_NONE", imbh_compression::Uncompressed.code()),
        ("IMBH_COMPRESSION_LZ4", imbh_compression::Lz4.code()),
        ("IMBH_COMPRESSION_ZSTD", imbh_compression::Zstd.code()),
        ("IMBH_TABLE_LOGS", imbh_table::Logs.code()),
        ("IMBH_TABLE_SPANS", imbh_table::Spans.code()),
        ("IMBH_TABLE_METRICS_GAUGE", imbh_table::MetricsGauge.code()),
        ("IMBH_TABLE_METRICS_SUM", imbh_table::MetricsSum.code()),
        ("IMBH_TABLE_METRICS_HISTOGRAM", imbh_table::MetricsHistogram.code()),
        ("IMBH_TABLE_METRICS_EXP_HISTOGRAM", imbh_table::MetricsExpHistogram.code()),
        ("IMBH_TABLE_METRICS_SUMMARY", imbh_table::MetricsSummary.code()),
        ("IMBH_REFRESH_MODE_DEFAULT", imbh_refresh_mode::Default.code()),
        ("IMBH_REFRESH_MODE_ON_QUERY", imbh_refresh_mode::OnQuery.code()),
        ("IMBH_REFRESH_MODE_MANUAL", imbh_refresh_mode::Manual.code()),
        ("IMBH_REFRESH_MODE_TTL", imbh_refresh_mode::Ttl.code()),
        ("IMBH_DIRECTION_BACKWARD", imbh_direction::Backward.code()),
        ("IMBH_DIRECTION_FORWARD", imbh_direction::Forward.code()),
        ("IMBH_NUM_OP_GT", imbh_num_op::Gt.code()),
        ("IMBH_NUM_OP_GE", imbh_num_op::Ge.code()),
        ("IMBH_NUM_OP_LT", imbh_num_op::Lt.code()),
        ("IMBH_NUM_OP_LE", imbh_num_op::Le.code()),
        ("IMBH_LABEL_OP_EQ", imbh_label_op::Eq.code()),
        ("IMBH_LABEL_OP_NE", imbh_label_op::Ne.code()),
        ("IMBH_LABEL_OP_REGEX", imbh_label_op::Regex.code()),
        ("IMBH_LABEL_OP_NOT_REGEX", imbh_label_op::NotRegex.code()),
        ("IMBH_AGGREGATION_SUM", imbh_aggregation::Sum.code()),
        ("IMBH_AGGREGATION_AVG", imbh_aggregation::Avg.code()),
        ("IMBH_AGGREGATION_MIN", imbh_aggregation::Min.code()),
        ("IMBH_AGGREGATION_MAX", imbh_aggregation::Max.code()),
        ("IMBH_AGGREGATION_COUNT", imbh_aggregation::Count.code()),
        ("IMBH_RATE_MODE_OFF", imbh_rate_mode::Off.code()),
        ("IMBH_RATE_MODE_DELTA", imbh_rate_mode::Delta.code()),
        ("IMBH_RATE_MODE_COUNTER", imbh_rate_mode::Counter.code()),
        ("IMBH_METRIC_TABLE_GAUGE", imbh_metric_table::Gauge.code()),
        ("IMBH_METRIC_TABLE_SUM", imbh_metric_table::Sum.code()),
        ("IMBH_METRIC_POINT_KIND_GAUGE", imbh_metric_point_kind::Gauge.code()),
        ("IMBH_METRIC_POINT_KIND_SUM", imbh_metric_point_kind::Sum.code()),
        ("IMBH_METRIC_POINT_KIND_HISTOGRAM", imbh_metric_point_kind::Histogram.code()),
    ];
    for (name, number) in numbers {
        let line = format!("    {name} = {number},\n");
        assert!(header.contains(&line), "header missing `{line}`");
    }
}

//! C/C++ bindings for the IMBH observability database: the logic behind the C ABI.
//!
//! A caller on the C side opens a database, ingests OTLP, runs SQL, typed queries or one of the
//! query languages, and takes results as Arrow streams or Arrow-IPC bytes. Everything that the
//! binding decides is here: reading and refusing arguments, building queries and options, shaping
//! replies into record batches, and turning every outcome into a code and a message. The engine's
//! part of a call comes in as a closure, and every contract holds for whatever the engine replies.
//!
//! On this side of the boundary a pointer that may be null is an `Option`, a C string is the bytes
//! before its NUL, and the thread's record of the last failure is a [`LastError`](error::LastError)
//! that each call is handed.

#![allow(non_camel_case_types)]

pub mod args;
pub mod arrow_stream;
pub mod batches;
pub mod buffer;
pub mod columnar;
pub mod db;
pub mod discovery;
pub mod error;
pub mod filters;
pub mod header;
pub mod ids;
pub mod languages;
pub mod log_query;
pub mod metric_points_query;
pub mod metric_query;
pub mod operators;
pub mod ops;
pub mod options;
pub mod query;
pub mod span_metrics_query;
pub mod sql;
pub mod stats;
pub mod table;
pub mod text;
pub mod trace_query;

pub use buffer::{imbh_bytes, imbh_bytes_free};
pub use db::{
    imbh_db, imbh_db_close, imbh_db_free, imbh_db_open, imbh_db_open_memory,
    imbh_db_open_read_only,
};
pub use discovery::{
    imbh_db_attr_names, imbh_db_attr_values, imbh_db_metric_catalog, imbh_db_metric_exemplars,
    imbh_db_metric_series, imbh_db_segment_files, imbh_db_segments,
};
pub use error::{imbh_error, imbh_last_error_message};
pub use languages::{
    imbh_db_get_trace, imbh_db_query_logql, imbh_db_query_promql, imbh_db_query_traceql,
};
pub use log_query::{
    imbh_log_query, imbh_log_query_add_attr_eq, imbh_log_query_add_attr_exists,
    imbh_log_query_add_attr_in, imbh_log_query_add_attr_matches, imbh_log_query_add_attr_not_in,
    imbh_log_query_add_attr_num, imbh_log_query_add_attr_regex, imbh_log_query_free,
    imbh_log_query_new, imbh_log_query_set_direction, imbh_log_query_set_limit,
    imbh_log_query_set_min_severity, imbh_log_query_set_offset, imbh_log_query_set_range,
    imbh_log_query_set_service, imbh_log_query_set_text,
};
pub use metric_points_query::{
    imbh_metric_points_query, imbh_metric_points_query_add_filter,
    imbh_metric_points_query_free, imbh_metric_points_query_new,
    imbh_metric_points_query_set_limit, imbh_metric_points_query_set_metric,
    imbh_metric_points_query_set_range,
};
pub use metric_query::{
    imbh_metric_query, imbh_metric_query_add_filter, imbh_metric_query_add_group_by,
    imbh_metric_query_free, imbh_metric_query_new, imbh_metric_query_set_aggregation,
    imbh_metric_query_set_metric, imbh_metric_query_set_range, imbh_metric_query_set_rate,
    imbh_metric_query_set_step_nanos,
};
pub use operators::{
    imbh_aggregation, imbh_direction, imbh_label_op, imbh_metric_point_kind, imbh_metric_table,
    imbh_num_op, imbh_rate_mode,
};
pub use ops::{
    imbh_db_compact, imbh_db_durable_through, imbh_db_export, imbh_db_flush,
    imbh_db_ingest_logs, imbh_db_ingest_metrics, imbh_db_ingest_traces, imbh_db_maintain,
    imbh_db_snapshot, imbh_db_stats, imbh_db_table_stats,
};
pub use options::{imbh_compression, imbh_open_options, imbh_refresh_mode, imbh_wal_mode};
pub use query::{
    imbh_db_logs_count, imbh_db_logs_page, imbh_db_logs_query, imbh_db_logs_volume,
    imbh_db_metrics_instant, imbh_db_metrics_points, imbh_db_metrics_range,
    imbh_db_traces_search, imbh_db_traces_span_metrics,
};
pub use span_metrics_query::{
    imbh_span_metrics_query, imbh_span_metrics_query_add_attr_eq,
    imbh_span_metrics_query_add_group_by, imbh_span_metrics_query_free,
    imbh_span_metrics_query_new, imbh_span_metrics_query_set_kind,
    imbh_span_metrics_query_set_name, imbh_span_metrics_query_set_range,
    imbh_span_metrics_query_set_service, imbh_span_metrics_query_set_status,
    imbh_span_metrics_query_set_step_nanos,
};
pub use sql::{imbh_db_query_sql, imbh_db_query_sql_ipc};
pub use stats::{
    imbh_compaction_report, imbh_ingest_receipt, imbh_maintenance_report, imbh_query_stats,
    imbh_snapshot_info, imbh_stats, imbh_table_stats,
};
pub use table::imbh_table;
pub use trace_query::{
    imbh_trace_query, imbh_trace_query_add_attr_eq, imbh_trace_query_add_attr_exists,
    imbh_trace_query_add_attr_in, imbh_trace_query_add_attr_matches,
    imbh_trace_query_add_attr_not_in, imbh_trace_query_add_attr_num,
    imbh_trace_query_add_attr_regex, imbh_trace_query_free, imbh_trace_query_new,
    imbh_trace_query_set_kind, imbh_trace_query_set_limit,
    imbh_trace_query_set_max_duration_nanos, imbh_trace_query_set_min_duration_nanos,
    imbh_trace_query_set_name, imbh_trace_query_set_range, imbh_trace_query_set_service,
    imbh_trace_query_set_status, imbh_trace_query_set_text,
};

//! The C header of the library.
//!
//! A C or C++ caller compiles against [`header`]. Its numbers are those of the enumerations of this
//! crate, and its structs and calls mirror the ones that the C ABI exports.

use vstd::prelude::*;
use vstd::string::StringExecFns;

verus! {

/// Guard, standard headers and the Arrow stream type.
pub const PREAMBLE: &'static str = "#ifndef IMBH_H
#define IMBH_H

#include <stdarg.h>
#include <stdbool.h>
#include <stdint.h>
#include <stdlib.h>
#include <arrow/c/abi.h>

";

/// The enumerations, with the numbers that cross the boundary.
pub const ENUMS: &'static str = "typedef enum imbh_error {
    IMBH_ERROR_OK = 0,
    IMBH_ERROR_INVALID_ARG = 1,
    IMBH_ERROR_PANIC = 2,
    IMBH_ERROR_NOT_FOUND = 3,
    IMBH_ERROR_BACKPRESSURE = 4,
    IMBH_ERROR_OPEN = 5,
    IMBH_ERROR_INGEST = 6,
    IMBH_ERROR_QUERY = 7,
    IMBH_ERROR_STORAGE = 8,
    IMBH_ERROR_CONFIG = 9,
    IMBH_ERROR_CLOSED = 10,
} imbh_error;

typedef enum imbh_wal_mode {
    IMBH_WAL_MODE_OFF = 0,
    IMBH_WAL_MODE_INTERVAL = 1,
    IMBH_WAL_MODE_ALWAYS = 2,
} imbh_wal_mode;

typedef enum imbh_compression {
    IMBH_COMPRESSION_NONE = 0,
    IMBH_COMPRESSION_LZ4 = 1,
    IMBH_COMPRESSION_ZSTD = 2,
} imbh_compression;

typedef enum imbh_table {
    IMBH_TABLE_LOGS = 0,
    IMBH_TABLE_SPANS = 1,
    IMBH_TABLE_METRICS_GAUGE = 2,
    IMBH_TABLE_METRICS_SUM = 3,
    IMBH_TABLE_METRICS_HISTOGRAM = 4,
    IMBH_TABLE_METRICS_EXP_HISTOGRAM = 5,
    IMBH_TABLE_METRICS_SUMMARY = 6,
} imbh_table;

typedef enum imbh_refresh_mode {
    IMBH_REFRESH_MODE_DEFAULT = 0,
    IMBH_REFRESH_MODE_ON_QUERY = 1,
    IMBH_REFRESH_MODE_MANUAL = 2,
    IMBH_REFRESH_MODE_TTL = 3,
} imbh_refresh_mode;

typedef enum imbh_direction {
    IMBH_DIRECTION_BACKWARD = 0,
    IMBH_DIRECTION_FORWARD = 1,
} imbh_direction;

typedef enum imbh_num_op {
    IMBH_NUM_OP_GT = 0,
    IMBH_NUM_OP_GE = 1,
    IMBH_NUM_OP_LT = 2,
    IMBH_NUM_OP_LE = 3,
} imbh_num_op;

typedef enum imbh_label_op {
    IMBH_LABEL_OP_EQ = 0,
    IMBH_LABEL_OP_NE = 1,
    IMBH_LABEL_OP_REGEX = 2,
    IMBH_LABEL_OP_NOT_REGEX = 3,
} imbh_label_op;

typedef enum imbh_aggregation {
    IMBH_AGGREGATION_SUM = 0,
    IMBH_AGGREGATION_AVG = 1,
    IMBH_AGGREGATION_MIN = 2,
    IMBH_AGGREGATION_MAX = 3,
    IMBH_AGGREGATION_COUNT = 4,
} imbh_aggregation;

typedef enum imbh_rate_mode {
    IMBH_RATE_MODE_OFF = 0,
    IMBH_RATE_MODE_DELTA = 1,
    IMBH_RATE_MODE_COUNTER = 2,
} imbh_rate_mode;

typedef enum imbh_metric_table {
    IMBH_METRIC_TABLE_GAUGE = 0,
    IMBH_METRIC_TABLE_SUM = 1,
} imbh_metric_table;

typedef enum imbh_metric_point_kind {
    IMBH_METRIC_POINT_KIND_GAUGE = 0,
    IMBH_METRIC_POINT_KIND_SUM = 1,
    IMBH_METRIC_POINT_KIND_HISTOGRAM = 2,
} imbh_metric_point_kind;

";

/// The opaque handles.
pub const HANDLES: &'static str = "typedef struct imbh_db imbh_db;

typedef struct imbh_log_query imbh_log_query;

typedef struct imbh_metric_query imbh_metric_query;

typedef struct imbh_span_metrics_query imbh_span_metrics_query;

typedef struct imbh_trace_query imbh_trace_query;

typedef struct imbh_metric_points_query imbh_metric_points_query;

";

/// The plain structs.
pub const STRUCTS: &'static str = "typedef struct imbh_open_options {
    imbh_wal_mode wal_mode;
    uint64_t wal_interval_ms;
    imbh_compression compression;
    int32_t zstd_level;
    bool read_only;
    bool allow_stale_reads;
    uint64_t memory_budget_bytes;
    uint64_t retention_days;
    uint64_t max_disk_bytes;
    imbh_refresh_mode refresh;
    uint64_t refresh_ttl_ms;
    uint64_t maintenance_background_ms;
    const char *const *promote_keys;
    uintptr_t promote_keys_len;
} imbh_open_options;

typedef struct imbh_ingest_receipt {
    uint64_t accepted;
    uint64_t rejected;
    uint64_t lsn;
    bool durable;
    bool queued;
} imbh_ingest_receipt;

typedef struct imbh_stats {
    uint64_t buffer_bytes;
    uint64_t wal_bytes;
    uint64_t durable_lsn;
    uint64_t ingest_queue_depth;
    uint64_t ingest_dropped;
    uint64_t ingest_errors;
    uint64_t total_segment_count;
    uint64_t total_segment_rows;
    uint64_t total_buffer_rows;
} imbh_stats;

typedef struct imbh_table_stats {
    imbh_table table;
    uint64_t segment_count;
    uint64_t segment_rows;
    uint64_t buffer_rows;
    int64_t min_time_unix_nano;
    int64_t max_time_unix_nano;
    bool has_time_bounds;
} imbh_table_stats;

typedef struct imbh_maintenance_report {
    bool sealed;
    uint64_t segments_dropped;
    uint64_t bytes_freed;
} imbh_maintenance_report;

typedef struct imbh_compaction_report {
    uint64_t segments_merged;
    uint64_t segments_created;
} imbh_compaction_report;

typedef struct imbh_snapshot_info {
    uint64_t segments;
} imbh_snapshot_info;

typedef struct imbh_bytes {
    uint8_t *data;
    uintptr_t len;
} imbh_bytes;

typedef struct imbh_query_stats {
    uint64_t segments_scanned;
    uint64_t segments_pruned;
    uint64_t rows_scanned;
    uint64_t rows_returned;
    uint64_t bytes_scanned;
    uint64_t elapsed_ns;
    bool used_index;
} imbh_query_stats;

";

/// Errors, lifecycle, ingest, SQL and operations.
pub const DATABASE_CALLS: &'static str = "#ifdef __cplusplus
extern \"C\" {
#endif

const char *imbh_last_error_message(void);

void imbh_bytes_free(imbh_bytes buf);

imbh_error imbh_db_open_memory(imbh_db **out);

imbh_error imbh_db_open(const char *path, const imbh_open_options *opts, imbh_db **out);

imbh_error imbh_db_open_read_only(const char *path, imbh_db **out);

imbh_error imbh_db_close(imbh_db *db);

void imbh_db_free(imbh_db *db);

imbh_error imbh_db_ingest_logs(imbh_db *db,
                               const uint8_t *otlp,
                               uintptr_t len,
                               imbh_ingest_receipt *receipt);

imbh_error imbh_db_ingest_traces(imbh_db *db,
                                 const uint8_t *otlp,
                                 uintptr_t len,
                                 imbh_ingest_receipt *receipt);

imbh_error imbh_db_ingest_metrics(imbh_db *db,
                                  const uint8_t *otlp,
                                  uintptr_t len,
                                  imbh_ingest_receipt *receipt);

imbh_error imbh_db_query_sql(imbh_db *db, const char *sql, struct ArrowArrayStream *out);

imbh_error imbh_db_flush(imbh_db *db);

imbh_error imbh_db_maintain(imbh_db *db, imbh_maintenance_report *report);

imbh_error imbh_db_compact(imbh_db *db, imbh_compaction_report *report);

imbh_error imbh_db_stats(imbh_db *db, imbh_stats *out);

imbh_error imbh_db_table_stats(imbh_db *db, imbh_table table, imbh_table_stats *out);

imbh_error imbh_db_snapshot(imbh_db *db, const char *dir, imbh_snapshot_info *info);

imbh_error imbh_db_durable_through(imbh_db *db, uint64_t *lsn);

imbh_error imbh_db_segments(imbh_db *db, struct ArrowArrayStream *out);

imbh_error imbh_db_segment_files(imbh_db *db, imbh_table table, struct ArrowArrayStream *out);

imbh_error imbh_db_export(imbh_db *db,
                          imbh_table table,
                          int64_t start_unix_nanos,
                          int64_t end_unix_nanos,
                          imbh_bytes *out);

imbh_error imbh_db_query_sql_ipc(imbh_db *db, const char *sql, imbh_bytes *out);

";

/// The query builders.
pub const BUILDER_CALLS: &'static str = "imbh_log_query *imbh_log_query_new(void);

void imbh_log_query_free(imbh_log_query *q);

imbh_error imbh_log_query_set_service(imbh_log_query *q, const char *service);

imbh_error imbh_log_query_set_min_severity(imbh_log_query *q, uint32_t min);

imbh_error imbh_log_query_set_text(imbh_log_query *q, const char *text);

imbh_error imbh_log_query_set_range(imbh_log_query *q,
                                    int64_t start_unix_nanos,
                                    int64_t end_unix_nanos);

imbh_error imbh_log_query_set_limit(imbh_log_query *q, uint64_t limit);

imbh_error imbh_log_query_set_direction(imbh_log_query *q, imbh_direction direction);

imbh_error imbh_log_query_set_offset(imbh_log_query *q, uint64_t offset);

imbh_error imbh_log_query_add_attr_eq(imbh_log_query *q, const char *key, const char *value);

imbh_error imbh_log_query_add_attr_exists(imbh_log_query *q, const char *key);

imbh_error imbh_log_query_add_attr_matches(imbh_log_query *q, const char *key, const char *value);

imbh_error imbh_log_query_add_attr_regex(imbh_log_query *q, const char *key, const char *value);

imbh_error imbh_log_query_add_attr_in(imbh_log_query *q,
                                      const char *key,
                                      const char *const *values,
                                      uintptr_t n);

imbh_error imbh_log_query_add_attr_not_in(imbh_log_query *q,
                                          const char *key,
                                          const char *const *values,
                                          uintptr_t n);

imbh_error imbh_log_query_add_attr_num(imbh_log_query *q,
                                       const char *key,
                                       imbh_num_op op,
                                       double value);

imbh_metric_query *imbh_metric_query_new(imbh_metric_table table);

void imbh_metric_query_free(imbh_metric_query *q);

imbh_error imbh_metric_query_set_metric(imbh_metric_query *q, const char *metric);

imbh_error imbh_metric_query_set_aggregation(imbh_metric_query *q, imbh_aggregation aggregation);

imbh_error imbh_metric_query_add_group_by(imbh_metric_query *q, const char *label);

imbh_error imbh_metric_query_add_filter(imbh_metric_query *q,
                                        const char *key,
                                        imbh_label_op op,
                                        const char *value);

imbh_error imbh_metric_query_set_range(imbh_metric_query *q,
                                       int64_t start_unix_nanos,
                                       int64_t end_unix_nanos);

imbh_error imbh_metric_query_set_step_nanos(imbh_metric_query *q, int64_t step_nanos);

imbh_error imbh_metric_query_set_rate(imbh_metric_query *q, imbh_rate_mode rate);

imbh_span_metrics_query *imbh_span_metrics_query_new(void);

void imbh_span_metrics_query_free(imbh_span_metrics_query *q);

imbh_error imbh_span_metrics_query_set_service(imbh_span_metrics_query *q, const char *service);

imbh_error imbh_span_metrics_query_set_name(imbh_span_metrics_query *q, const char *name);

imbh_error imbh_span_metrics_query_set_kind(imbh_span_metrics_query *q, const char *kind);

imbh_error imbh_span_metrics_query_set_status(imbh_span_metrics_query *q, const char *status);

imbh_error imbh_span_metrics_query_add_attr_eq(imbh_span_metrics_query *q,
                                               const char *key,
                                               const char *value);

imbh_error imbh_span_metrics_query_add_group_by(imbh_span_metrics_query *q, const char *label);

imbh_error imbh_span_metrics_query_set_range(imbh_span_metrics_query *q,
                                             int64_t start_unix_nanos,
                                             int64_t end_unix_nanos);

imbh_error imbh_span_metrics_query_set_step_nanos(imbh_span_metrics_query *q, int64_t step_nanos);

imbh_trace_query *imbh_trace_query_new(void);

void imbh_trace_query_free(imbh_trace_query *q);

imbh_error imbh_trace_query_set_service(imbh_trace_query *q, const char *service);

imbh_error imbh_trace_query_set_name(imbh_trace_query *q, const char *name);

imbh_error imbh_trace_query_set_text(imbh_trace_query *q, const char *text);

imbh_error imbh_trace_query_set_status(imbh_trace_query *q, const char *status);

imbh_error imbh_trace_query_set_kind(imbh_trace_query *q, const char *kind);

imbh_error imbh_trace_query_set_min_duration_nanos(imbh_trace_query *q,
                                                   uint64_t min_duration_nanos);

imbh_error imbh_trace_query_set_max_duration_nanos(imbh_trace_query *q,
                                                   uint64_t max_duration_nanos);

imbh_error imbh_trace_query_set_range(imbh_trace_query *q,
                                      int64_t start_unix_nanos,
                                      int64_t end_unix_nanos);

imbh_error imbh_trace_query_set_limit(imbh_trace_query *q, uint64_t limit);

imbh_error imbh_trace_query_add_attr_eq(imbh_trace_query *q, const char *key, const char *value);

imbh_error imbh_trace_query_add_attr_exists(imbh_trace_query *q, const char *key);

imbh_error imbh_trace_query_add_attr_matches(imbh_trace_query *q,
                                             const char *key,
                                             const char *value);

imbh_error imbh_trace_query_add_attr_regex(imbh_trace_query *q, const char *key, const char *value);

imbh_error imbh_trace_query_add_attr_in(imbh_trace_query *q,
                                        const char *key,
                                        const char *const *values,
                                        uintptr_t n);

imbh_error imbh_trace_query_add_attr_not_in(imbh_trace_query *q,
                                            const char *key,
                                            const char *const *values,
                                            uintptr_t n);

imbh_error imbh_trace_query_add_attr_num(imbh_trace_query *q,
                                         const char *key,
                                         imbh_num_op op,
                                         double value);

imbh_metric_points_query *imbh_metric_points_query_new(imbh_metric_point_kind kind);

void imbh_metric_points_query_free(imbh_metric_points_query *q);

imbh_error imbh_metric_points_query_set_metric(imbh_metric_points_query *q, const char *metric);

imbh_error imbh_metric_points_query_add_filter(imbh_metric_points_query *q,
                                               const char *key,
                                               const char *value);

imbh_error imbh_metric_points_query_set_range(imbh_metric_points_query *q,
                                              int64_t start_unix_nanos,
                                              int64_t end_unix_nanos);

imbh_error imbh_metric_points_query_set_limit(imbh_metric_points_query *q, uint64_t limit);

";

/// The typed queries, the discovery surfaces and the query languages.
pub const QUERY_CALLS: &'static str = "imbh_error imbh_db_logs_query(imbh_db *db,
                              const imbh_log_query *query,
                              struct ArrowArrayStream *out,
                              imbh_query_stats *stats);

imbh_error imbh_db_metrics_range(imbh_db *db,
                                 const imbh_metric_query *query,
                                 struct ArrowArrayStream *out,
                                 imbh_query_stats *stats);

imbh_error imbh_db_traces_span_metrics(imbh_db *db,
                                       const imbh_span_metrics_query *query,
                                       struct ArrowArrayStream *out,
                                       imbh_query_stats *stats);

imbh_error imbh_db_metrics_instant(imbh_db *db,
                                   const imbh_metric_query *query,
                                   struct ArrowArrayStream *out);

imbh_error imbh_db_logs_volume(imbh_db *db,
                               const imbh_log_query *query,
                               uint64_t step_nanos,
                               const char *const *group_by,
                               uintptr_t group_by_len,
                               struct ArrowArrayStream *out);

imbh_error imbh_db_logs_page(imbh_db *db,
                             const imbh_log_query *query,
                             uint64_t after,
                             struct ArrowArrayStream *out,
                             imbh_query_stats *stats,
                             uint64_t *next_offset,
                             bool *has_more);

imbh_error imbh_db_logs_count(imbh_db *db, const imbh_log_query *query, uint64_t *count);

imbh_error imbh_db_traces_search(imbh_db *db,
                                 const imbh_trace_query *query,
                                 struct ArrowArrayStream *out);

imbh_error imbh_db_metrics_points(imbh_db *db,
                                  const imbh_metric_points_query *query,
                                  struct ArrowArrayStream *out);

imbh_error imbh_db_attr_names(imbh_db *db, struct ArrowArrayStream *out);

imbh_error imbh_db_attr_values(imbh_db *db, const char *key, struct ArrowArrayStream *out);

imbh_error imbh_db_metric_catalog(imbh_db *db, struct ArrowArrayStream *out);

imbh_error imbh_db_metric_series(imbh_db *db, const char *metric, struct ArrowArrayStream *out);

imbh_error imbh_db_metric_exemplars(imbh_db *db, const char *metric, struct ArrowArrayStream *out);

imbh_error imbh_db_query_promql(imbh_db *db,
                                const char *query,
                                int64_t start,
                                int64_t end,
                                int64_t step,
                                struct ArrowArrayStream *out);

imbh_error imbh_db_query_logql(imbh_db *db,
                               const char *query,
                               int64_t start,
                               int64_t end,
                               int64_t step,
                               int64_t limit,
                               struct ArrowArrayStream *out);

imbh_error imbh_db_query_traceql(imbh_db *db,
                                 const char *query,
                                 int64_t start,
                                 int64_t end,
                                 struct ArrowArrayStream *out);

imbh_error imbh_db_get_trace(imbh_db *db, const char *trace_id, struct ArrowArrayStream *out);

";

/// The end of the guard.
pub const CLOSING: &'static str = "#ifdef __cplusplus
}
#endif

#endif /* IMBH_H */
";

/// The text of the header: its sections in order.
pub open spec fn header_text() -> Seq<char> {
    PREAMBLE@ + ENUMS@ + HANDLES@ + STRUCTS@ + DATABASE_CALLS@ + BUILDER_CALLS@ + QUERY_CALLS@ + CLOSING@
}

/// The header as it is written to `include/imbh.h`.
pub fn header() -> (text: String)
    ensures
        text@ == header_text(),
{
    let mut text = PREAMBLE.to_owned();
    text.append(ENUMS);
    text.append(HANDLES);
    text.append(STRUCTS);
    text.append(DATABASE_CALLS);
    text.append(BUILDER_CALLS);
    text.append(QUERY_CALLS);
    text.append(CLOSING);
    text
}

/// The header is its sections, in the order in which a C compiler needs them.
pub proof fn the_header_is_its_sections_in_order(text: String)
    requires
        call_ensures(header, (), text),
    ensures
        text@ == PREAMBLE@ + ENUMS@ + HANDLES@ + STRUCTS@ + DATABASE_CALLS@ + BUILDER_CALLS@
            + QUERY_CALLS@ + CLOSING@,
{
}

} // verus!

//! Plain records that cross the boundary: receipts, statistics and reports.

use vstd::prelude::*;

use crate::table::{engine_table, imbh_table, table_to_c, Table};

verus! {

/// Outcome of an ingest call. `lsn` is `0` where there is no log sequence number yet.
#[derive(Debug, Clone, Copy, PartialEq, Eq, Structural)]
pub struct imbh_ingest_receipt {
    pub accepted: u64,
    pub rejected: u64,
    pub lsn: u64,
    pub durable: bool,
    pub queued: bool,
}

/// Engine-wide gauges plus cross-table totals.
#[derive(Debug, Clone, Copy, PartialEq, Eq, Structural)]
pub struct imbh_stats {
    pub buffer_bytes: u64,
    pub wal_bytes: u64,
    pub durable_lsn: u64,
    pub ingest_queue_depth: u64,
    pub ingest_dropped: u64,
    pub ingest_errors: u64,
    pub total_segment_count: u64,
    pub total_segment_rows: u64,
    pub total_buffer_rows: u64,
}

/// Per-table statistics. A bound that is not known is `0`; `has_time_bounds` tells whether both
/// are.
#[derive(Debug, Clone, Copy, PartialEq, Eq, Structural)]
pub struct imbh_table_stats {
    pub table: imbh_table,
    pub segment_count: u64,
    pub segment_rows: u64,
    pub buffer_rows: u64,
    pub min_time_unix_nano: i64,
    pub max_time_unix_nano: i64,
    pub has_time_bounds: bool,
}

/// Result of a maintenance pass.
#[derive(Debug, Clone, Copy, PartialEq, Eq, Structural)]
pub struct imbh_maintenance_report {
    pub sealed: bool,
    pub segments_dropped: u64,
    pub bytes_freed: u64,
}

/// Result of a compaction.
#[derive(Debug, Clone, Copy, PartialEq, Eq, Structural)]
pub struct imbh_compaction_report {
    pub segments_merged: u64,
    pub segments_created: u64,
}

/// Result of a snapshot: the number of segment files in it.
#[derive(Debug, Clone, Copy, PartialEq, Eq, Structural)]
pub struct imbh_snapshot_info {
    pub segments: u64,
}

/// Read-side scan statistics of a typed query.
#[derive(Debug, Clone, Copy, PartialEq, Eq, Structural)]
pub struct imbh_query_stats {
    pub segments_scanned: u64,
    pub segments_pruned: u64,
    pub rows_scanned: u64,
    pub rows_returned: u64,
    pub bytes_scanned: u64,
    pub elapsed_ns: u64,
    pub used_index: bool,
}

/// The engine's receipt for an ingest call: `lsn` is absent until the records are logged, and
/// `queued` says whether they wait for the ingest worker.
#[derive(Debug, Clone, Copy, PartialEq, Eq, Structural)]
pub struct IngestReceipt {
    pub accepted: u64,
    pub rejected: u64,
    pub lsn: Option<u64>,
    pub durable: bool,
    pub queued: bool,
}

/// The engine's statistics for one table.
#[derive(Debug, Clone, Copy, PartialEq, Eq, Structural)]
pub struct TableStats {
    pub table: Table,
    pub segment_count: u64,
    pub segment_rows: u64,
    pub buffer_rows: u64,
    pub min_time_unix_nano: Option<i64>,
    pub max_time_unix_nano: Option<i64>,
}

/// The engine's statistics.
#[derive(Debug)]
pub struct DbStats {
    pub tables: Vec<TableStats>,
    pub buffer_bytes: usize,
    pub wal_bytes: u64,
    pub durable_lsn: Option<u64>,
    pub ingest_queue_depth: usize,
    pub ingest_dropped: u64,
    pub ingest_errors: u64,
}

/// A log sequence number on the C side, where `0` stands for "none yet".
pub open spec fn lsn_number(lsn: Option<u64>) -> u64 {
    match lsn {
        Some(n) => n,
        None => 0,
    }
}

/// The receipt handed to the caller.
pub open spec fn receipt_of(r: IngestReceipt) -> imbh_ingest_receipt {
    imbh_ingest_receipt {
        accepted: r.accepted,
        rejected: r.rejected,
        lsn: lsn_number(r.lsn),
        durable: r.durable,
        queued: r.queued,
    }
}

/// The three counters that are summed over the tables.
pub open spec fn counter(t: TableStats, which: int) -> nat {
    if which == 0 {
        t.segment_count as nat
    } else if which == 1 {
        t.segment_rows as nat
    } else {
        t.buffer_rows as nat
    }
}

/// The sum of one counter over the tables.
pub open spec fn total(tables: Seq<TableStats>, which: int) -> nat
    decreases tables.len(),
{
    if tables.len() == 0 {
        0
    } else {
        total(tables.drop_last(), which) + counter(tables.last(), which)
    }
}

/// Every sum over the tables is a number the C side can hold.
pub open spec fn totals_fit(tables: Seq<TableStats>) -> bool {
    forall|which: int| 0 <= which < 3 ==> #[trigger] total(tables, which) <= u64::MAX
}

/// The statistics handed to the caller.
pub open spec fn stats_of(s: DbStats) -> imbh_stats {
    imbh_stats {
        buffer_bytes: s.buffer_bytes as u64,
        wal_bytes: s.wal_bytes,
        durable_lsn: lsn_number(s.durable_lsn),
        ingest_queue_depth: s.ingest_queue_depth as u64,
        ingest_dropped: s.ingest_dropped,
        ingest_errors: s.ingest_errors,
        total_segment_count: total(s.tables@, 0) as u64,
        total_segment_rows: total(s.tables@, 1) as u64,
        total_buffer_rows: total(s.tables@, 2) as u64,
    }
}

/// A time bound on the C side.
pub open spec fn bound_or_zero(bound: Option<i64>) -> i64 {
    match bound {
        Some(n) => n,
        None => 0,
    }
}

/// `out` is the record of one table's statistics.
pub open spec fn describes_table(t: TableStats, out: imbh_table_stats) -> bool {
    &&& engine_table(out.table) == t.table
    &&& out.segment_count == t.segment_count
    &&& out.segment_rows == t.segment_rows
    &&& out.buffer_rows == t.buffer_rows
    &&& out.min_time_unix_nano == bound_or_zero(t.min_time_unix_nano)
    &&& out.max_time_unix_nano == bound_or_zero(t.max_time_unix_nano)
    &&& out.has_time_bounds == (t.min_time_unix_nano is Some && t.max_time_unix_nano is Some)
}

/// `i` is the first entry for the table.
pub open spec fn first_entry(tables: Seq<TableStats>, want: Table, i: int) -> bool {
    &&& 0 <= i < tables.len()
    &&& tables[i].table == want
    &&& forall|j: int| 0 <= j < i ==> (#[trigger] tables[j]).table != want
}

/// `out` is the record of the first entry for the table.
pub open spec fn answers_table(
    tables: Seq<TableStats>,
    want: Table,
    out: imbh_table_stats,
) -> bool {
    exists|i: int| #[trigger] first_entry(tables, want, i) && describes_table(tables[i], out)
}

/// No entry is for the table.
pub open spec fn no_entry(tables: Seq<TableStats>, want: Table) -> bool {
    forall|j: int| 0 <= j < tables.len() ==> (#[trigger] tables[j]).table != want
}

/// A log sequence number for the C side.
pub fn lsn_or_zero(lsn: Option<u64>) -> (n: u64)
    ensures
        n == lsn_number(lsn),
{
    match lsn {
        Some(n) => n,
        None => 0,
    }
}

/// Hand a receipt to the caller, who may not want it.
pub fn write_receipt(out: Option<&mut imbh_ingest_receipt>, r: IngestReceipt)
    ensures
        out matches Some(o) ==> *final(o) == receipt_of(r),
{
    if let Some(o) = out {
        *o =
        imbh_ingest_receipt {
            accepted: r.accepted,
            rejected: r.rejected,
            lsn: lsn_or_zero(r.lsn),
            durable: r.durable,
            queued: r.queued,
        };
    }
}

/// Hand scan statistics to the caller, who may not want them.
pub fn write_query_stats(out: Option<&mut imbh_query_stats>, s: imbh_query_stats)
    ensures
        out matches Some(o) ==> *final(o) == s,
{
    if let Some(o) = out {
        *o = s;
    }
}

/// A sum never shrinks as tables are added.
proof fn lemma_total_grows(tables: Seq<TableStats>, i: int, which: int)
    requires
        0 <= i <= tables.len(),
    ensures
        total(tables.take(i), which) <= total(tables, which),
    decreases tables.len() - i,
{
    if i < tables.len() {
        lemma_total_grows(tables, i + 1, which);
        assert(tables.take(i + 1).drop_last() =~= tables.take(i));
    } else {
        assert(tables.take(i) =~= tables);
    }
}

/// The statistics for the caller, or `None` when a total over the tables does not fit.
pub fn summed_stats(s: &DbStats) -> (r: Option<imbh_stats>)
    ensures
        r is Some <==> totals_fit(s.tables@),
        r matches Some(out) ==> out == stats_of(*s),
{
    let mut segment_count: u64 = 0;
    let mut segment_rows: u64 = 0;
    let mut buffer_rows: u64 = 0;
    for i in 0..s.tables.len()
        invariant
            segment_count == total(s.tables@.take(i as int), 0),
            segment_rows == total(s.tables@.take(i as int), 1),
            buffer_rows == total(s.tables@.take(i as int), 2),
    {
        let t: TableStats = s.tables[i];
        proof {
            assert(s.tables@.take(i + 1).drop_last() =~= s.tables@.take(i as int));
            lemma_total_grows(s.tables@, i + 1, 0);
            lemma_total_grows(s.tables@, i + 1, 1);
            lemma_total_grows(s.tables@, i + 1, 2);
        }
        if segment_count > u64::MAX - t.segment_count || segment_rows > u64::MAX - t.segment_rows
            || buffer_rows > u64::MAX - t.buffer_rows {
            proof {
                if totals_fit(s.tables@) {
                    assert(total(s.tables@, 0) <= u64::MAX);
                    assert(total(s.tables@, 1) <= u64::MAX);
                    assert(total(s.tables@, 2) <= u64::MAX);
                }
            }
            return None;
        }
        segment_count = segment_count + t.segment_count;
        segment_rows = segment_rows + t.segment_rows;
        buffer_rows = buffer_rows + t.buffer_rows;
    }
    assert(s.tables@.take(s.tables@.len() as int) =~= s.tables@);
    Some(
        imbh_stats {
            buffer_bytes: s.buffer_bytes as u64,
            wal_bytes: s.wal_bytes,
            durable_lsn: lsn_or_zero(s.durable_lsn),
            ingest_queue_depth: s.ingest_queue_depth as u64,
            ingest_dropped: s.ingest_dropped,
            ingest_errors: s.ingest_errors,
            total_segment_count: segment_count,
            total_segment_rows: segment_rows,
            total_buffer_rows: buffer_rows,
        },
    )
}

/// The statistics of the first entry for a table, or `None` when there is none.
pub fn stats_of_table(tables: &Vec<TableStats>, want: Table) -> (r: Option<imbh_table_stats>)
    ensures
        match r {
            Some(out) => answers_table(tables@, want, out),
            None => no_entry(tables@, want),
        },
{
    for i in 0..tables.len()
        invariant
            forall|j: int| 0 <= j < i ==> (#[trigger] tables@[j]).table != want,
    {
        let t: TableStats = tables[i];
        if t.table == want {
            assert(first_entry(tables@, want, i as int));
            return Some(
                imbh_table_stats {
                    table: table_to_c(t.table),
                    segment_count: t.segment_count,
                    segment_rows: t.segment_rows,
                    buffer_rows: t.buffer_rows,
                    min_time_unix_nano: match t.min_time_unix_nano {
                        Some(n) => n,
                        None => 0,
                    },
                    max_time_unix_nano: match t.max_time_unix_nano {
                        Some(n) => n,
                        None => 0,
                    },
                    has_time_bounds: t.min_time_unix_nano.is_some()
                        && t.max_time_unix_nano.is_some(),
                },
            );
        }
    }
    None
}

/// A real log sequence number is never `0`, so on the C side `0` says exactly that there is none.
/// Where the engine queues exactly the records that have no number yet, a receipt with `lsn` `0` is
/// the receipt of queued records.
pub proof fn zero_lsn_means_none(r: IngestReceipt)
    requires
        r.lsn matches Some(n) ==> n >= 1,
    ensures
        receipt_of(r).lsn == 0 <==> r.lsn is None,
        (r.queued <==> r.lsn is None) ==> (receipt_of(r).lsn == 0 <==> receipt_of(r).queued),
{
}

/// A table without rows has no time bounds: the record says so, and its bounds are `0`.
pub proof fn absent_bounds_are_zero(t: TableStats, out: imbh_table_stats)
    requires
        describes_table(t, out),
        t.min_time_unix_nano is None,
        t.max_time_unix_nano is None,
    ensures
        !out.has_time_bounds,
        out.min_time_unix_nano == 0,
        out.max_time_unix_nano == 0,
{
}

/// The sum of one counter over the records of tables.
pub open spec fn record_total(records: Seq<imbh_table_stats>, which: int) -> nat
    decreases records.len(),
{
    if records.len() == 0 {
        0
    } else {
        record_total(records.drop_last(), which) + record_counter(records.last(), which)
    }
}

/// The three counters of a table's record.
pub open spec fn record_counter(r: imbh_table_stats, which: int) -> nat {
    if which == 0 {
        r.segment_count as nat
    } else if which == 1 {
        r.segment_rows as nat
    } else {
        r.buffer_rows as nat
    }
}

/// Every table selector, in the order of their numbers.
pub open spec fn selectors() -> Seq<imbh_table> {
    seq![
        imbh_table::Logs,
        imbh_table::Spans,
        imbh_table::MetricsGauge,
        imbh_table::MetricsSum,
        imbh_table::MetricsHistogram,
        imbh_table::MetricsExpHistogram,
        imbh_table::MetricsSummary,
    ]
}

/// What one counter sums to over the entries for one table.
spec fn share(tables: Seq<TableStats>, want: Table, which: int) -> nat
    decreases tables.len(),
{
    if tables.len() == 0 {
        0
    } else {
        share(tables.drop_last(), want, which) + (if tables.last().table == want {
            counter(tables.last(), which)
        } else {
            0
        })
    }
}

/// A total is the sum of the shares of the tables.
proof fn lemma_total_is_shared_out(tables: Seq<TableStats>, which: int)
    ensures
        total(tables, which) == share(tables, Table::Logs, which) + share(
            tables,
            Table::Spans,
            which,
        ) + share(tables, Table::MetricsGauge, which) + share(tables, Table::MetricsSum, which)
            + share(tables, Table::MetricsHistogram, which) + share(
            tables,
            Table::MetricsExpHistogram,
            which,
        ) + share(tables, Table::MetricsSummary, which),
    decreases tables.len(),
{
    if tables.len() > 0 {
        lemma_total_is_shared_out(tables.drop_last(), which);
    }
}

/// A table without an entry has no share.
proof fn lemma_no_entry_no_share(tables: Seq<TableStats>, want: Table, which: int)
    requires
        no_entry(tables, want),
    ensures
        share(tables, want, which) == 0,
    decreases tables.len(),
{
    if tables.len() > 0 {
        assert(tables.last() == tables[tables.len() - 1]);
        assert forall|j: int| 0 <= j < tables.drop_last().len() implies (
        #[trigger] tables.drop_last()[j]).table != want by {
            assert(tables.drop_last()[j] == tables[j]);
        }
        lemma_no_entry_no_share(tables.drop_last(), want, which);
    }
}

/// The share of a table with one entry is what that entry counts.
proof fn lemma_one_entry_is_the_share(tables: Seq<TableStats>, i: int, which: int)
    requires
        one_entry_each(tables),
        0 <= i < tables.len(),
    ensures
        share(tables, tables[i].table, which) == counter(tables[i], which),
    decreases tables.len(),
{
    let rest = tables.drop_last();
    let want = tables[i].table;
    if i == tables.len() - 1 {
        assert forall|j: int| 0 <= j < rest.len() implies (#[trigger] rest[j]).table != want by {
            assert(rest[j] == tables[j]);
        }
        lemma_no_entry_no_share(rest, want, which);
    } else {
        assert(tables.last() == tables[tables.len() - 1]);
        assert(rest[i] == tables[i]);
        assert forall|a: int, b: int| 0 <= a < b < rest.len() implies
            (#[trigger] rest[a]).table != (#[trigger] rest[b]).table by {
            assert(rest[a] == tables[a] && rest[b] == tables[b]);
        }
        lemma_one_entry_is_the_share(rest, i, which);
    }
}

/// The engine lists no table twice.
pub open spec fn one_entry_each(tables: Seq<TableStats>) -> bool {
    forall|i: int, j: int|
        0 <= i < j < tables.len() ==> (#[trigger] tables[i]).table != (#[trigger] tables[j]).table
}

/// The engine-wide totals are the sums of the figures of the seven tables, as they are handed out
/// one by one. The engine lists no table twice; the totals are handed out only where they fit.
pub proof fn totals_are_the_sums_of_the_tables(s: DbStats, records: Seq<imbh_table_stats>)
    requires
        forall|i: int, j: int|
            0 <= i < j < s.tables@.len() ==> (#[trigger] s.tables@[i]).table != (
            #[trigger] s.tables@[j]).table,
        totals_fit(s.tables@),
        records.len() == 7,
        forall|k: int|
            0 <= k < records.len() ==> answers_table(
                s.tables@,
                engine_table(selectors()[k]),
                #[trigger] records[k],
            ),
    ensures
        stats_of(s).total_segment_count == record_total(records, 0),
        stats_of(s).total_segment_rows == record_total(records, 1),
        stats_of(s).total_buffer_rows == record_total(records, 2),
{
    assert forall|which: int| 0 <= which < 3 implies #[trigger] total(s.tables@, which)
        == record_total(records, which) by {
        let tables = s.tables@;
        assert forall|k: int| 0 <= k < 7 implies record_counter(#[trigger] records[k], which)
            == share(tables, engine_table(selectors()[k]), which) by {
            let want = engine_table(selectors()[k]);
            assert(answers_table(tables, want, records[k]));
            let i = choose|i: int| #[trigger]
                first_entry(tables, want, i) && describes_table(tables[i], records[k]);
            lemma_one_entry_is_the_share(tables, i, which);
        }
        lemma_total_is_shared_out(tables, which);
        reveal_with_fuel(record_total, 8);
        assert(record_counter(records[0], which) == share(tables, Table::Logs, which));
        assert(record_counter(records[1], which) == share(tables, Table::Spans, which));
        assert(record_counter(records[2], which) == share(tables, Table::MetricsGauge, which));
        assert(record_counter(records[3], which) == share(tables, Table::MetricsSum, which));
        assert(record_counter(records[4], which) == share(tables, Table::MetricsHistogram, which));
        assert(record_counter(records[5], which) == share(
            tables,
            Table::MetricsExpHistogram,
            which,
        ));
        assert(record_counter(records[6], which) == share(tables, Table::MetricsSummary, which));
    }
    assert(total(s.tables@, 0) <= u64::MAX);
    assert(total(s.tables@, 1) <= u64::MAX);
    assert(total(s.tables@, 2) <= u64::MAX);
}

/// A total over the tables is zero over none of them, and each table adds its own figures to it.
pub proof fn each_table_adds_its_own_figures(tables: Seq<TableStats>, t: TableStats)
    ensures
        total(Seq::empty(), 0) == 0,
        total(Seq::empty(), 1) == 0,
        total(Seq::empty(), 2) == 0,
        total(tables.push(t), 0) == total(tables, 0) + t.segment_count,
        total(tables.push(t), 1) == total(tables, 1) + t.segment_rows,
        total(tables.push(t), 2) == total(tables, 2) + t.buffer_rows,
{
    assert(tables.push(t).drop_last() =~= tables);
}

/// Every record hands on the engine's figures, each under its own name. What the engine has no
/// number for is zero.
pub proof fn records_hold_the_engines_figures(
    r: IngestReceipt,
    receipt: &mut imbh_ingest_receipt,
    scan: imbh_query_stats,
    scanned: &mut imbh_query_stats,
    lsn: Option<u64>,
    n: u64,
    s: &DbStats,
    out: Option<imbh_stats>,
)
    requires
        call_ensures(write_receipt, (Some(receipt), r), ()),
        call_ensures(write_query_stats, (Some(scanned), scan), ()),
        call_ensures(lsn_or_zero, (lsn,), n),
        call_ensures(summed_stats, (s,), out),
    ensures
        final(receipt).accepted == r.accepted,
        final(receipt).rejected == r.rejected,
        r.lsn matches Some(logged) ==> final(receipt).lsn == logged,
        r.lsn is None ==> final(receipt).lsn == 0,
        final(receipt).durable == r.durable,
        final(receipt).queued == r.queued,
        receipt_of(r) == *final(receipt),
        *final(scanned) == scan,
        lsn matches Some(logged) ==> n == logged,
        lsn is None ==> n == 0,
        n == lsn_number(lsn),
        out is Some <==> total(s.tables@, 0) <= u64::MAX && total(s.tables@, 1) <= u64::MAX
            && total(s.tables@, 2) <= u64::MAX,
        out is Some <==> totals_fit(s.tables@),
        out matches Some(o) ==> {
            &&& o == stats_of(*s)
            &&& o.buffer_bytes == s.buffer_bytes
            &&& o.wal_bytes == s.wal_bytes
            &&& s.durable_lsn matches Some(logged) ==> o.durable_lsn == logged
            &&& s.durable_lsn is None ==> o.durable_lsn == 0
            &&& o.ingest_queue_depth == s.ingest_queue_depth
            &&& o.ingest_dropped == s.ingest_dropped
            &&& o.ingest_errors == s.ingest_errors
            &&& o.total_segment_count == total(s.tables@, 0)
            &&& o.total_segment_rows == total(s.tables@, 1)
            &&& o.total_buffer_rows == total(s.tables@, 2)
        },
{
    assert forall|which: int| 0 <= which < 3 implies #[trigger] total(s.tables@, which)
        <= u64::MAX || total(s.tables@, 0) > u64::MAX || total(s.tables@, 1) > u64::MAX || total(
        s.tables@,
        2,
    ) > u64::MAX by {
        assert(which == 0 || which == 1 || which == 2);
    }
    if totals_fit(s.tables@) {
        assert(total(s.tables@, 0) <= u64::MAX);
        assert(total(s.tables@, 1) <= u64::MAX);
        assert(total(s.tables@, 2) <= u64::MAX);
    }
}

/// The record of a table holds the figures of the first entry for it. A bound that is not known is
/// zero, and the record says whether both are known. Without an entry there is no record.
pub proof fn tables_are_answered_by_their_first_entry(
    tables: &Vec<TableStats>,
    want: Table,
    i: int,
    r: Option<imbh_table_stats>,
)
    requires
        call_ensures(stats_of_table, (tables, want), r),
        0 <= i <= tables@.len(),
        forall|j: int| 0 <= j < i ==> (#[trigger] tables@[j]).table != want,
        i < tables@.len() ==> tables@[i].table == want,
    ensures
        i == tables@.len() <==> r is None,
        i == tables@.len() <==> no_entry(tables@, want),
        r matches Some(out) ==> {
            let t = tables@[i];
            &&& engine_table(out.table) == want
            &&& out.segment_count == t.segment_count
            &&& out.segment_rows == t.segment_rows
            &&& out.buffer_rows == t.buffer_rows
            &&& t.min_time_unix_nano matches Some(n) ==> out.min_time_unix_nano == n
            &&& t.min_time_unix_nano is None ==> out.min_time_unix_nano == 0
            &&& t.max_time_unix_nano matches Some(n) ==> out.max_time_unix_nano == n
            &&& t.max_time_unix_nano is None ==> out.max_time_unix_nano == 0
            &&& out.has_time_bounds <==> t.min_time_unix_nano is Some && t.max_time_unix_nano
                is Some
        },
{
}

} // verus!

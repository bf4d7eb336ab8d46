//! The physical tables.

use vstd::prelude::*;

verus! {

/// Physical table selector, in the engine's stable order.
#[derive(Debug, Clone, Copy, PartialEq, Eq, Structural)]
pub enum imbh_table {
    Logs,
    Spans,
    MetricsGauge,
    MetricsSum,
    MetricsHistogram,
    MetricsExpHistogram,
    MetricsSummary,
}

impl imbh_table {
    /// The number of the selector on the C side.
    pub open spec fn number(self) -> i32 {
        match self {
            imbh_table::Logs => 0,
            imbh_table::Spans => 1,
            imbh_table::MetricsGauge => 2,
            imbh_table::MetricsSum => 3,
            imbh_table::MetricsHistogram => 4,
            imbh_table::MetricsExpHistogram => 5,
            imbh_table::MetricsSummary => 6,
        }
    }

    /// The number that crosses the C boundary.
    pub fn code(self) -> (number: i32)
        ensures
            number == self.number(),
    {
        match self {
            imbh_table::Logs => 0,
            imbh_table::Spans => 1,
            imbh_table::MetricsGauge => 2,
            imbh_table::MetricsSum => 3,
            imbh_table::MetricsHistogram => 4,
            imbh_table::MetricsExpHistogram => 5,
            imbh_table::MetricsSummary => 6,
        }
    }
}

/// A table as the engine names it.
#[derive(Debug, Clone, Copy, PartialEq, Eq, Structural)]
pub enum Table {
    Logs,
    Spans,
    MetricsGauge,
    MetricsSum,
    MetricsHistogram,
    MetricsExpHistogram,
    MetricsSummary,
}

/// The engine's table for a selector.
pub open spec fn engine_table(t: imbh_table) -> Table {
    match t {
        imbh_table::Logs => Table::Logs,
        imbh_table::Spans => Table::Spans,
        imbh_table::MetricsGauge => Table::MetricsGauge,
        imbh_table::MetricsSum => Table::MetricsSum,
        imbh_table::MetricsHistogram => Table::MetricsHistogram,
        imbh_table::MetricsExpHistogram => Table::MetricsExpHistogram,
        imbh_table::MetricsSummary => Table::MetricsSummary,
    }
}

impl From<imbh_table> for Table {
    fn from(t: imbh_table) -> (r: Table) {
        match t {
            imbh_table::Logs => Table::Logs,
            imbh_table::Spans => Table::Spans,
            imbh_table::MetricsGauge => Table::MetricsGauge,
            imbh_table::MetricsSum => Table::MetricsSum,
            imbh_table::MetricsHistogram => Table::MetricsHistogram,
            imbh_table::MetricsExpHistogram => Table::MetricsExpHistogram,
            imbh_table::MetricsSummary => Table::MetricsSummary,
        }
    }
}

impl vstd::std_specs::convert::FromSpecImpl<imbh_table> for Table {
    open spec fn obeys_from_spec() -> bool {
        true
    }

    open spec fn from_spec(t: imbh_table) -> Table {
        engine_table(t)
    }
}

/// The selector of one of the engine's tables.
pub fn table_to_c(t: Table) -> (r: imbh_table)
    ensures
        engine_table(r) == t,
{
    match t {
        Table::Logs => imbh_table::Logs,
        Table::Spans => imbh_table::Spans,
        Table::MetricsGauge => imbh_table::MetricsGauge,
        Table::MetricsSum => imbh_table::MetricsSum,
        Table::MetricsHistogram => imbh_table::MetricsHistogram,
        Table::MetricsExpHistogram => imbh_table::MetricsExpHistogram,
        Table::MetricsSummary => imbh_table::MetricsSummary,
    }
}

/// Two selectors of the same engine table are the same selector, so [`table_to_c`] undoes the
/// conversion into [`Table`] and is undone by it. Distinct selectors have distinct numbers.
pub proof fn selectors_and_tables_match_one_to_one(a: imbh_table, b: imbh_table)
    ensures
        engine_table(a) == engine_table(b) ==> a == b,
        a.number() == b.number() ==> a == b,
{
}

/// Every selector asks for the table of its own name, is given back for it, and crosses the
/// boundary as its place in the engine's order.
pub proof fn selectors_name_their_tables(c: imbh_table, n: i32, t: Table, back: imbh_table)
    requires
        call_ensures(imbh_table::code, (c,), n),
        t == engine_table(c),
        call_ensures(table_to_c, (t,), back),
    ensures
        back == c,
        <Table as vstd::std_specs::convert::FromSpec<imbh_table>>::from_spec(c) == t,
        c == imbh_table::Logs <==> t == Table::Logs,
        c == imbh_table::Spans <==> t == Table::Spans,
        c == imbh_table::MetricsGauge <==> t == Table::MetricsGauge,
        c == imbh_table::MetricsSum <==> t == Table::MetricsSum,
        c == imbh_table::MetricsHistogram <==> t == Table::MetricsHistogram,
        c == imbh_table::MetricsExpHistogram <==> t == Table::MetricsExpHistogram,
        c == imbh_table::MetricsSummary <==> t == Table::MetricsSummary,
        c == imbh_table::Logs <==> n == 0,
        c == imbh_table::Spans <==> n == 1,
        c == imbh_table::MetricsGauge <==> n == 2,
        c == imbh_table::MetricsSum <==> n == 3,
        c == imbh_table::MetricsHistogram <==> n == 4,
        c == imbh_table::MetricsExpHistogram <==> n == 5,
        c == imbh_table::MetricsSummary <==> n == 6,
{
}

} // verus!

//! The metric query builder.

use vstd::prelude::*;

use crate::args::{c_string, read_str, says};
use crate::error::{
    clear_last_error, imbh_error, invalid_arg, LastError, rejected, settle, settled, succeeded,
};
use crate::filters::{
    c_pair, LabelText, label_texts, PairText, push_label, push_text, LabelFilter, TimeRange,
};
use crate::operators::{imbh_aggregation, imbh_label_op, imbh_metric_table, imbh_rate_mode};
use crate::text::texts;

verus! {

/// Builder of a typed metric query.
#[derive(Debug)]
pub struct imbh_metric_query {
    /// The metric family, by its number.
    pub table: i32,
    pub metric: String,
    /// The aggregation, by its number.
    pub aggregation: Option<i32>,
    pub group_by: Vec<String>,
    pub filters: Vec<LabelFilter>,
    pub range: Option<TimeRange>,
    pub step_nanos: Option<i64>,
    /// The rate mode, by its number.
    pub rate: i32,
}

/// What a builder asks for.
#[verifier::ext_equal]
pub struct MetricQueryView {
    pub table: i32,
    pub metric: Seq<char>,
    pub aggregation: Option<i32>,
    pub group_by: Seq<Seq<char>>,
    pub filters: Seq<LabelText>,
    pub range: Option<TimeRange>,
    pub step_nanos: Option<i64>,
    pub rate: i32,
}

impl View for imbh_metric_query {
    type V = MetricQueryView;

    open spec fn view(&self) -> MetricQueryView {
        MetricQueryView {
            table: self.table,
            metric: self.metric@,
            aggregation: self.aggregation,
            group_by: texts(self.group_by@),
            filters: label_texts(self.filters@),
            range: self.range,
            step_nanos: self.step_nanos,
            rate: self.rate,
        }
    }
}

/// What a fresh builder asks for.
pub open spec fn empty_metric_query(table: imbh_metric_table) -> MetricQueryView {
    MetricQueryView {
        table: table.number(),
        metric: Seq::empty(),
        aggregation: None,
        group_by: Seq::empty(),
        filters: Seq::empty(),
        range: None,
        step_nanos: None,
        rate: 0,
    }
}

/// A metric-query builder for the given family.
pub fn imbh_metric_query_new(
    table: imbh_metric_table,
    last: &mut LastError,
) -> (q: imbh_metric_query)
    ensures
        q@ == empty_metric_query(table),
        final(last)@ is None,
{
    clear_last_error(last);
    let q = imbh_metric_query {
        table: table.code(),
        metric: String::new(),
        aggregation: None,
        group_by: Vec::new(),
        filters: Vec::new(),
        range: None,
        step_nanos: None,
        rate: 0,
    };
    assert(q@ =~= empty_metric_query(table));
    q
}

/// Free a builder. A slot that holds none stays empty.
pub fn imbh_metric_query_free(q: &mut Option<imbh_metric_query>, last: &mut LastError)
    ensures
        *final(q) is None,
        final(last)@ is None,
{
    clear_last_error(last);
    *q = None;
}

/// Set the metric name.
pub fn imbh_metric_query_set_metric(
    q: Option<&mut imbh_metric_query>,
    metric: Option<&[u8]>,
    last: &mut LastError,
) -> (code: imbh_error)
    ensures
        q is None ==> rejected(code, *final(last), "null imbh_metric_query"@),
        q matches Some(b) ==> match c_string(metric) {
            Ok(text) => {
                &&& succeeded(code, *final(last))
                &&& final(b)@ == (MetricQueryView {
                    metric: text,
                    ..b@
                })
            },
            Err(reason) => {
                &&& rejected(code, *final(last), reason)
                &&& final(b)@ == b@
            },
        },
        settled(code, *final(last)),
{
    match q {
        None => settle(Err(invalid_arg("null imbh_metric_query")), last),
        Some(q) => match read_str(metric) {
            Ok(text) => {
                q.metric = text;
                settle(Ok(()), last)
            },
            Err(e) => settle(Err(e), last),
        },
    }
}

/// Set the aggregation (absent means the default of the family).
pub fn imbh_metric_query_set_aggregation(
    q: Option<&mut imbh_metric_query>,
    aggregation: imbh_aggregation,
    last: &mut LastError,
) -> (code: imbh_error)
    ensures
        q is None ==> rejected(code, *final(last), "null imbh_metric_query"@),
        q matches Some(b) ==> succeeded(code, *final(last)) && final(b)@ == (MetricQueryView {
            aggregation: Some(aggregation.number()),
            ..b@
        }),
        settled(code, *final(last)),
{
    match q {
        None => settle(Err(invalid_arg("null imbh_metric_query")), last),
        Some(q) => {
            q.aggregation = Some(aggregation.code());
            settle(Ok(()), last)
        },
    }
}

/// Add a group-by label.
pub fn imbh_metric_query_add_group_by(
    q: Option<&mut imbh_metric_query>,
    label: Option<&[u8]>,
    last: &mut LastError,
) -> (code: imbh_error)
    ensures
        q is None ==> rejected(code, *final(last), "null imbh_metric_query"@),
        q matches Some(b) ==> match c_string(label) {
            Ok(text) => {
                &&& succeeded(code, *final(last))
                &&& final(b)@ == (MetricQueryView {
                    group_by: b@.group_by.push(text),
                    ..b@
                })
            },
            Err(reason) => {
                &&& rejected(code, *final(last), reason)
                &&& final(b)@ == b@
            },
        },
        settled(code, *final(last)),
{
    match q {
        None => settle(Err(invalid_arg("null imbh_metric_query")), last),
        Some(q) => settle(push_text(&mut q.group_by, label), last),
    }
}

/// Add a label selector `key <op> value`.
pub fn imbh_metric_query_add_filter(
    q: Option<&mut imbh_metric_query>,
    key: Option<&[u8]>,
    op: imbh_label_op,
    value: Option<&[u8]>,
    last: &mut LastError,
) -> (code: imbh_error)
    ensures
        q is None ==> rejected(code, *final(last), "null imbh_metric_query"@),
        q matches Some(b) ==> match c_pair(key, value) {
            Ok(pair) => {
                &&& succeeded(code, *final(last))
                &&& final(b)@ == (MetricQueryView {
                    filters: b@.filters.push(
                        LabelText { key: pair.key, op: op.number(), value: pair.value },
                    ),
                    ..b@
                })
            },
            Err(reason) => {
                &&& rejected(code, *final(last), reason)
                &&& final(b)@ == b@
            },
        },
        settled(code, *final(last)),
{
    match q {
        None => settle(Err(invalid_arg("null imbh_metric_query")), last),
        Some(q) => settle(push_label(&mut q.filters, key, op, value), last),
    }
}

/// Restrict to the half-open time window `[start, end)` in unix-nanos.
pub fn imbh_metric_query_set_range(
    q: Option<&mut imbh_metric_query>,
    start_unix_nanos: i64,
    end_unix_nanos: i64,
    last: &mut LastError,
) -> (code: imbh_error)
    ensures
        q is None ==> rejected(code, *final(last), "null imbh_metric_query"@),
        q matches Some(b) ==> succeeded(code, *final(last)) && final(b)@ == (MetricQueryView {
            range: Some(TimeRange { start: start_unix_nanos, end: end_unix_nanos }),
            ..b@
        }),
        settled(code, *final(last)),
{
    match q {
        None => settle(Err(invalid_arg("null imbh_metric_query")), last),
        Some(q) => {
            q.range = Some(TimeRange { start: start_unix_nanos, end: end_unix_nanos });
            settle(Ok(()), last)
        },
    }
}

/// Set the range step in nanoseconds (absent means the default, 60 s).
pub fn imbh_metric_query_set_step_nanos(
    q: Option<&mut imbh_metric_query>,
    step_nanos: i64,
    last: &mut LastError,
) -> (code: imbh_error)
    ensures
        q is None ==> rejected(code, *final(last), "null imbh_metric_query"@),
        q matches Some(b) ==> succeeded(code, *final(last)) && final(b)@ == (MetricQueryView {
            step_nanos: Some(step_nanos),
            ..b@
        }),
        settled(code, *final(last)),
{
    match q {
        None => settle(Err(invalid_arg("null imbh_metric_query")), last),
        Some(q) => {
            q.step_nanos = Some(step_nanos);
            settle(Ok(()), last)
        },
    }
}

/// Set the rate mode.
pub fn imbh_metric_query_set_rate(
    q: Option<&mut imbh_metric_query>,
    rate: imbh_rate_mode,
    last: &mut LastError,
) -> (code: imbh_error)
    ensures
        q is None ==> rejected(code, *final(last), "null imbh_metric_query"@),
        q matches Some(b) ==> succeeded(code, *final(last)) && final(b)@ == (MetricQueryView {
            rate: rate.number(),
            ..b@
        }),
        settled(code, *final(last)),
{
    match q {
        None => settle(Err(invalid_arg("null imbh_metric_query")), last),
        Some(q) => {
            q.rate = rate.code();
            settle(Ok(()), last)
        },
    }
}

/// A builder asks for what its fields hold, each for its own.
pub proof fn metric_queries_ask_for_what_they_hold(q: imbh_metric_query)
    ensures
        q@.table == q.table,
        q@.metric == q.metric@,
        q@.aggregation == q.aggregation,
        q@.group_by == texts(q.group_by@),
        q@.filters == label_texts(q.filters@),
        q@.range == q.range,
        q@.step_nanos == q.step_nanos,
        q@.rate == q.rate,
{
}

/// A fresh builder asks for nothing but its defaults.
pub proof fn fresh_metric_queries_ask_for_nothing(
    table: imbh_metric_table,
    last: &mut LastError,
    q: imbh_metric_query,
)
    requires
        call_ensures(imbh_metric_query_new, (table, last), q),
    ensures
        table == imbh_metric_table::Gauge <==> q.table == 0,
        table == imbh_metric_table::Sum <==> q.table == 1,
        q.metric@.len() == 0,
        q.aggregation is None,
        q.group_by@.len() == 0,
        q.filters@.len() == 0,
        q.range is None,
        q.step_nanos is None,
        q.rate == 0,
        final(last)@ is None,
{
    assert(texts(q.group_by@).len() == q.group_by@.len());
    assert(label_texts(q.filters@).len() == q.filters@.len());
}

/// Every setter fills its own field with what it is given, and leaves all the others as they were.
pub proof fn metric_setters_fill_their_own_field(
    b: &mut imbh_metric_query,
    text: Option<&[u8]>,
    said: Seq<char>,
    key: Option<&[u8]>,
    value: Option<&[u8]>,
    pair: PairText,
    label_op: imbh_label_op,
    start: i64,
    end: i64,
    signed: i64,
    aggregation: imbh_aggregation,
    rate: imbh_rate_mode,
    last: &mut LastError,
    code: imbh_error,
)
    ensures
        call_ensures(imbh_metric_query_set_metric, (Some(b), text, last), code) && says(text, said)
            ==> code == imbh_error::Success && final(b)@ == (MetricQueryView {
            metric: said,
            ..old(b)@
        }),
        call_ensures(imbh_metric_query_set_aggregation, (Some(b), aggregation, last), code)
            ==> code == imbh_error::Success && final(b)@ == (MetricQueryView {
            aggregation: Some(aggregation.number()),
            ..old(b)@
        }),
        call_ensures(
            imbh_metric_query_add_group_by,
            (Some(b), text, last),
            code,
        ) && says(text, said)
            ==> code == imbh_error::Success && final(b)@ == (MetricQueryView {
            group_by: old(b)@.group_by.push(said),
            ..old(b)@
        }),
        call_ensures(
            imbh_metric_query_add_filter,
            (Some(b), key, label_op, value, last),
            code,
        ) && c_pair(key, value) == Ok::<PairText, Seq<char>>(pair)
            ==> code == imbh_error::Success && final(b)@ == (MetricQueryView {
            filters: old(b)@.filters.push(
                LabelText { key: pair.key, op: label_op.number(), value: pair.value },
            ),
            ..old(b)@
        }),
        call_ensures(imbh_metric_query_set_range, (Some(b), start, end, last), code)
            ==> code == imbh_error::Success && final(b)@ == (MetricQueryView {
            range: Some(TimeRange { start, end }),
            ..old(b)@
        }),
        call_ensures(imbh_metric_query_set_step_nanos, (Some(b), signed, last), code)
            ==> code == imbh_error::Success && final(b)@ == (MetricQueryView {
            step_nanos: Some(signed),
            ..old(b)@
        }),
        call_ensures(imbh_metric_query_set_rate, (Some(b), rate, last), code)
            ==> code == imbh_error::Success && final(b)@ == (MetricQueryView {
            rate: rate.number(),
            ..old(b)@
        }),
{
}

/// A setting that is refused changes nothing, and every setter refuses a null builder. A builder
/// that is freed is gone, and no message stays behind.
pub proof fn refused_metric_settings_change_nothing(
    slot: &mut Option<imbh_metric_query>,
    b: &mut imbh_metric_query,
    text: Option<&[u8]>,
    key: Option<&[u8]>,
    value: Option<&[u8]>,
    label_op: imbh_label_op,
    start: i64,
    end: i64,
    signed: i64,
    aggregation: imbh_aggregation,
    rate: imbh_rate_mode,
    last: &mut LastError,
    code: imbh_error,
)
    ensures
        call_ensures(
            imbh_metric_query_set_metric,
            (Some(b), text, last),
            code,
        ) && code != imbh_error::Success
            ==> code == imbh_error::InvalidArg && final(b)@ == old(b)@,
        call_ensures(
            imbh_metric_query_set_metric,
            (None::<&mut imbh_metric_query>, text, last),
            code,
        )
            ==> rejected(code, *final(last), "null imbh_metric_query"@),
        call_ensures(
            imbh_metric_query_set_aggregation,
            (Some(b), aggregation, last),
            code,
        ) && code != imbh_error::Success
            ==> code == imbh_error::InvalidArg && final(b)@ == old(b)@,
        call_ensures(
            imbh_metric_query_set_aggregation,
            (None::<&mut imbh_metric_query>, aggregation, last),
            code,
        )
            ==> rejected(code, *final(last), "null imbh_metric_query"@),
        call_ensures(
            imbh_metric_query_add_group_by,
            (Some(b), text, last),
            code,
        ) && code != imbh_error::Success
            ==> code == imbh_error::InvalidArg && final(b)@ == old(b)@,
        call_ensures(
            imbh_metric_query_add_group_by,
            (None::<&mut imbh_metric_query>, text, last),
            code,
        )
            ==> rejected(code, *final(last), "null imbh_metric_query"@),
        call_ensures(
            imbh_metric_query_add_filter,
            (Some(b), key, label_op, value, last),
            code,
        ) && code != imbh_error::Success
            ==> code == imbh_error::InvalidArg && final(b)@ == old(b)@,
        call_ensures(
            imbh_metric_query_add_filter,
            (None::<&mut imbh_metric_query>, key, label_op, value, last),
            code,
        )
            ==> rejected(code, *final(last), "null imbh_metric_query"@),
        call_ensures(
            imbh_metric_query_set_range,
            (Some(b), start, end, last),
            code,
        ) && code != imbh_error::Success
            ==> code == imbh_error::InvalidArg && final(b)@ == old(b)@,
        call_ensures(
            imbh_metric_query_set_range,
            (None::<&mut imbh_metric_query>, start, end, last),
            code,
        )
            ==> rejected(code, *final(last), "null imbh_metric_query"@),
        call_ensures(
            imbh_metric_query_set_step_nanos,
            (Some(b), signed, last),
            code,
        ) && code != imbh_error::Success
            ==> code == imbh_error::InvalidArg && final(b)@ == old(b)@,
        call_ensures(
            imbh_metric_query_set_step_nanos,
            (None::<&mut imbh_metric_query>, signed, last),
            code,
        )
            ==> rejected(code, *final(last), "null imbh_metric_query"@),
        call_ensures(
            imbh_metric_query_set_rate,
            (Some(b), rate, last),
            code,
        ) && code != imbh_error::Success
            ==> code == imbh_error::InvalidArg && final(b)@ == old(b)@,
        call_ensures(imbh_metric_query_set_rate, (None::<&mut imbh_metric_query>, rate, last), code)
            ==> rejected(code, *final(last), "null imbh_metric_query"@),
        call_ensures(imbh_metric_query_free, (slot, last), ()) ==> *final(slot) is None
            && final(last)@ is None,
{
}

} // verus!

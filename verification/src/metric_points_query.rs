//! The metric-points query builder.

use vstd::prelude::*;

use crate::args::{c_string, read_str, says};
use crate::error::{
    clear_last_error, imbh_error, invalid_arg, LastError, rejected, settle, settled, succeeded,
};
use crate::filters::{c_pair, PairText, pair_texts, push_pair, KeyValue, TimeRange};
use crate::operators::imbh_metric_point_kind;

verus! {

/// Builder of a metric-points query: raw, unaggregated samples.
#[derive(Debug)]
pub struct imbh_metric_points_query {
    pub kind: imbh_metric_point_kind,
    pub metric: String,
    pub filters: Vec<KeyValue>,
    pub range: Option<TimeRange>,
    pub limit: u64,
}

/// What a builder asks for.
#[verifier::ext_equal]
pub struct MetricPointsQueryView {
    pub kind: imbh_metric_point_kind,
    pub metric: Seq<char>,
    pub filters: Seq<PairText>,
    pub range: Option<TimeRange>,
    pub limit: u64,
}

impl View for imbh_metric_points_query {
    type V = MetricPointsQueryView;

    open spec fn view(&self) -> MetricPointsQueryView {
        MetricPointsQueryView {
            kind: self.kind,
            metric: self.metric@,
            filters: pair_texts(self.filters@),
            range: self.range,
            limit: self.limit,
        }
    }
}

/// What a fresh builder asks for.
pub open spec fn empty_metric_points_query(kind: imbh_metric_point_kind) -> MetricPointsQueryView {
    MetricPointsQueryView {
        kind,
        metric: Seq::empty(),
        filters: Seq::empty(),
        range: None,
        limit: 0,
    }
}

/// A metric-points builder for the given family.
pub fn imbh_metric_points_query_new(
    kind: imbh_metric_point_kind,
    last: &mut LastError,
) -> (q: imbh_metric_points_query)
    ensures
        q@ == empty_metric_points_query(kind),
        final(last)@ is None,
{
    clear_last_error(last);
    let q = imbh_metric_points_query {
        kind,
        metric: String::new(),
        filters: Vec::new(),
        range: None,
        limit: 0,
    };
    assert(q@ =~= empty_metric_points_query(kind));
    q
}

/// Free a builder. A slot that holds none stays empty.
pub fn imbh_metric_points_query_free(q: &mut Option<imbh_metric_points_query>, last: &mut LastError)
    ensures
        *final(q) is None,
        final(last)@ is None,
{
    clear_last_error(last);
    *q = None;
}

/// Set the metric name.
pub fn imbh_metric_points_query_set_metric(
    q: Option<&mut imbh_metric_points_query>,
    metric: Option<&[u8]>,
    last: &mut LastError,
) -> (code: imbh_error)
    ensures
        q is None ==> rejected(code, *final(last), "null imbh_metric_points_query"@),
        q matches Some(b) ==> match c_string(metric) {
            Ok(text) => {
                &&& succeeded(code, *final(last))
                &&& final(b)@ == (MetricPointsQueryView {
                    metric: text,
                    ..b@
                })
            },
            Err(reason) => {
                &&& rejected(code, *final(last), reason)
                &&& final(b)@ == b@
            },
        },
        settled(code, *final(last)),
{
    match q {
        None => settle(Err(invalid_arg("null imbh_metric_points_query")), last),
        Some(q) => match read_str(metric) {
            Ok(text) => {
                q.metric = text;
                settle(Ok(()), last)
            },
            Err(e) => settle(Err(e), last),
        },
    }
}

/// Add an `attribute == value` filter; the filters are AND-ed.
pub fn imbh_metric_points_query_add_filter(
    q: Option<&mut imbh_metric_points_query>,
    key: Option<&[u8]>,
    value: Option<&[u8]>,
    last: &mut LastError,
) -> (code: imbh_error)
    ensures
        q is None ==> rejected(code, *final(last), "null imbh_metric_points_query"@),
        q matches Some(b) ==> match c_pair(key, value) {
            Ok(pair) => {
                &&& succeeded(code, *final(last))
                &&& final(b)@ == (MetricPointsQueryView {
                    filters: b@.filters.push(pair),
                    ..b@
                })
            },
            Err(reason) => {
                &&& rejected(code, *final(last), reason)
                &&& final(b)@ == b@
            },
        },
        settled(code, *final(last)),
{
    match q {
        None => settle(Err(invalid_arg("null imbh_metric_points_query")), last),
        Some(q) => settle(push_pair(&mut q.filters, key, value), last),
    }
}

/// Restrict to the half-open time window `[start, end)` in unix-nanos.
pub fn imbh_metric_points_query_set_range(
    q: Option<&mut imbh_metric_points_query>,
    start_unix_nanos: i64,
    end_unix_nanos: i64,
    last: &mut LastError,
) -> (code: imbh_error)
    ensures
        q is None ==> rejected(code, *final(last), "null imbh_metric_points_query"@),
        q matches Some(b) ==> succeeded(code, *final(last)) && final(b)@ == (MetricPointsQueryView {
            range: Some(TimeRange { start: start_unix_nanos, end: end_unix_nanos }),
            ..b@
        }),
        settled(code, *final(last)),
{
    match q {
        None => settle(Err(invalid_arg("null imbh_metric_points_query")), last),
        Some(q) => {
            q.range = Some(TimeRange { start: start_unix_nanos, end: end_unix_nanos });
            settle(Ok(()), last)
        },
    }
}

/// Cap the number of returned points (0 means the default, 100).
pub fn imbh_metric_points_query_set_limit(
    q: Option<&mut imbh_metric_points_query>,
    limit: u64,
    last: &mut LastError,
) -> (code: imbh_error)
    ensures
        q is None ==> rejected(code, *final(last), "null imbh_metric_points_query"@),
        q matches Some(b) ==> succeeded(code, *final(last)) && final(b)@ == (MetricPointsQueryView {
            limit: limit,
            ..b@
        }),
        settled(code, *final(last)),
{
    match q {
        None => settle(Err(invalid_arg("null imbh_metric_points_query")), last),
        Some(q) => {
            q.limit = limit;
            settle(Ok(()), last)
        },
    }
}

/// A builder asks for what its fields hold, each for its own.
pub proof fn metric_points_queries_ask_for_what_they_hold(q: imbh_metric_points_query)
    ensures
        q@.kind == q.kind,
        q@.metric == q.metric@,
        q@.filters == pair_texts(q.filters@),
        q@.range == q.range,
        q@.limit == q.limit,
{
}

/// A fresh builder asks for nothing but its defaults.
pub proof fn fresh_metric_points_queries_ask_for_nothing(
    kind: imbh_metric_point_kind,
    last: &mut LastError,
    q: imbh_metric_points_query,
)
    requires
        call_ensures(imbh_metric_points_query_new, (kind, last), q),
    ensures
        q.kind == kind,
        q.metric@.len() == 0,
        q.filters@.len() == 0,
        q.range is None,
        q.limit == 0,
        final(last)@ is None,
{
    assert(pair_texts(q.filters@).len() == q.filters@.len());
}

/// Every setter fills its own field with what it is given, and leaves all the others as they were.
pub proof fn metric_points_setters_fill_their_own_field(
    b: &mut imbh_metric_points_query,
    text: Option<&[u8]>,
    said: Seq<char>,
    key: Option<&[u8]>,
    value: Option<&[u8]>,
    pair: PairText,
    start: i64,
    end: i64,
    number: u64,
    last: &mut LastError,
    code: imbh_error,
)
    ensures
        call_ensures(
            imbh_metric_points_query_set_metric,
            (Some(b), text, last),
            code,
        ) && says(text, said)
            ==> code == imbh_error::Success && final(b)@ == (MetricPointsQueryView {
            metric: said,
            ..old(b)@
        }),
        call_ensures(
            imbh_metric_points_query_add_filter,
            (Some(b), key, value, last),
            code,
        ) && c_pair(key, value) == Ok::<PairText, Seq<char>>(pair)
            ==> code == imbh_error::Success && final(b)@ == (MetricPointsQueryView {
            filters: old(b)@.filters.push(pair),
            ..old(b)@
        }),
        call_ensures(imbh_metric_points_query_set_range, (Some(b), start, end, last), code)
            ==> code == imbh_error::Success && final(b)@ == (MetricPointsQueryView {
            range: Some(TimeRange { start, end }),
            ..old(b)@
        }),
        call_ensures(imbh_metric_points_query_set_limit, (Some(b), number, last), code)
            ==> code == imbh_error::Success && final(b)@ == (MetricPointsQueryView {
            limit: number,
            ..old(b)@
        }),
{
}

/// A setting that is refused changes nothing, and every setter refuses a null builder. A builder
/// that is freed is gone, and no message stays behind.
pub proof fn refused_metric_points_settings_change_nothing(
    slot: &mut Option<imbh_metric_points_query>,
    b: &mut imbh_metric_points_query,
    text: Option<&[u8]>,
    key: Option<&[u8]>,
    value: Option<&[u8]>,
    start: i64,
    end: i64,
    number: u64,
    last: &mut LastError,
    code: imbh_error,
)
    ensures
        call_ensures(
            imbh_metric_points_query_set_metric,
            (Some(b), text, last),
            code,
        ) && code != imbh_error::Success
            ==> code == imbh_error::InvalidArg && final(b)@ == old(b)@,
        call_ensures(
            imbh_metric_points_query_set_metric,
            (None::<&mut imbh_metric_points_query>, text, last),
            code,
        )
            ==> rejected(code, *final(last), "null imbh_metric_points_query"@),
        call_ensures(
            imbh_metric_points_query_add_filter,
            (Some(b), key, value, last),
            code,
        ) && code != imbh_error::Success
            ==> code == imbh_error::InvalidArg && final(b)@ == old(b)@,
        call_ensures(
            imbh_metric_points_query_add_filter,
            (None::<&mut imbh_metric_points_query>, key, value, last),
            code,
        )
            ==> rejected(code, *final(last), "null imbh_metric_points_query"@),
        call_ensures(
            imbh_metric_points_query_set_range,
            (Some(b), start, end, last),
            code,
        ) && code != imbh_error::Success
            ==> code == imbh_error::InvalidArg && final(b)@ == old(b)@,
        call_ensures(
            imbh_metric_points_query_set_range,
            (None::<&mut imbh_metric_points_query>, start, end, last),
            code,
        )
            ==> rejected(code, *final(last), "null imbh_metric_points_query"@),
        call_ensures(
            imbh_metric_points_query_set_limit,
            (Some(b), number, last),
            code,
        ) && code != imbh_error::Success
            ==> code == imbh_error::InvalidArg && final(b)@ == old(b)@,
        call_ensures(
            imbh_metric_points_query_set_limit,
            (None::<&mut imbh_metric_points_query>, number, last),
            code,
        )
            ==> rejected(code, *final(last), "null imbh_metric_points_query"@),
        call_ensures(imbh_metric_points_query_free, (slot, last), ()) ==> *final(slot) is None
            && final(last)@ is None,
{
}

} // verus!

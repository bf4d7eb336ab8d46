//! The span-metrics query builder.

use vstd::prelude::*;

use crate::args::{c_string, says};
use crate::error::{
    clear_last_error, imbh_error, invalid_arg, LastError, rejected, settle, settled, succeeded,
};
use crate::filters::{
    c_pair, optional_text, PairText, pair_texts, push_pair, push_text, set_text, KeyValue,
    TimeRange,
};
use crate::text::texts;

verus! {

/// Builder of a typed span-metrics (RED) query.
#[derive(Debug)]
pub struct imbh_span_metrics_query {
    pub service: Option<String>,
    pub name: Option<String>,
    pub kind: Option<String>,
    pub status: Option<String>,
    pub attr_eq: Vec<KeyValue>,
    pub group_by: Vec<String>,
    pub range: Option<TimeRange>,
    pub step_nanos: Option<i64>,
}

/// What a builder asks for.
#[verifier::ext_equal]
pub struct SpanMetricsQueryView {
    pub service: Option<Seq<char>>,
    pub name: Option<Seq<char>>,
    pub kind: Option<Seq<char>>,
    pub status: Option<Seq<char>>,
    pub attr_eq: Seq<PairText>,
    pub group_by: Seq<Seq<char>>,
    pub range: Option<TimeRange>,
    pub step_nanos: Option<i64>,
}

impl View for imbh_span_metrics_query {
    type V = SpanMetricsQueryView;

    open spec fn view(&self) -> SpanMetricsQueryView {
        SpanMetricsQueryView {
            service: optional_text(self.service),
            name: optional_text(self.name),
            kind: optional_text(self.kind),
            status: optional_text(self.status),
            attr_eq: pair_texts(self.attr_eq@),
            group_by: texts(self.group_by@),
            range: self.range,
            step_nanos: self.step_nanos,
        }
    }
}

/// What a fresh builder asks for.
pub open spec fn empty_span_metrics_query() -> SpanMetricsQueryView {
    SpanMetricsQueryView {
        service: None,
        name: None,
        kind: None,
        status: None,
        attr_eq: Seq::empty(),
        group_by: Seq::empty(),
        range: None,
        step_nanos: None,
    }
}

/// An empty span-metrics query builder.
pub fn imbh_span_metrics_query_new(last: &mut LastError) -> (q: imbh_span_metrics_query)
    ensures
        q@ == empty_span_metrics_query(),
        final(last)@ is None,
{
    clear_last_error(last);
    let q = imbh_span_metrics_query {
        service: None,
        name: None,
        kind: None,
        status: None,
        attr_eq: Vec::new(),
        group_by: Vec::new(),
        range: None,
        step_nanos: None,
    };
    assert(q@ =~= empty_span_metrics_query());
    q
}

/// Free a builder. A slot that holds none stays empty.
pub fn imbh_span_metrics_query_free(q: &mut Option<imbh_span_metrics_query>, last: &mut LastError)
    ensures
        *final(q) is None,
        final(last)@ is None,
{
    clear_last_error(last);
    *q = None;
}

/// Restrict to a service.
pub fn imbh_span_metrics_query_set_service(
    q: Option<&mut imbh_span_metrics_query>,
    service: Option<&[u8]>,
    last: &mut LastError,
) -> (code: imbh_error)
    ensures
        q is None ==> rejected(code, *final(last), "null imbh_span_metrics_query"@),
        q matches Some(b) ==> match c_string(service) {
            Ok(text) => {
                &&& succeeded(code, *final(last))
                &&& final(b)@ == (SpanMetricsQueryView {
                    service: Some(text),
                    ..b@
                })
            },
            Err(reason) => {
                &&& rejected(code, *final(last), reason)
                &&& final(b)@ == b@
            },
        },
        settled(code, *final(last)),
{
    match q {
        None => settle(Err(invalid_arg("null imbh_span_metrics_query")), last),
        Some(q) => settle(set_text(&mut q.service, service), last),
    }
}

/// Restrict to a span name.
pub fn imbh_span_metrics_query_set_name(
    q: Option<&mut imbh_span_metrics_query>,
    name: Option<&[u8]>,
    last: &mut LastError,
) -> (code: imbh_error)
    ensures
        q is None ==> rejected(code, *final(last), "null imbh_span_metrics_query"@),
        q matches Some(b) ==> match c_string(name) {
            Ok(text) => {
                &&& succeeded(code, *final(last))
                &&& final(b)@ == (SpanMetricsQueryView {
                    name: Some(text),
                    ..b@
                })
            },
            Err(reason) => {
                &&& rejected(code, *final(last), reason)
                &&& final(b)@ == b@
            },
        },
        settled(code, *final(last)),
{
    match q {
        None => settle(Err(invalid_arg("null imbh_span_metrics_query")), last),
        Some(q) => settle(set_text(&mut q.name, name), last),
    }
}

/// Restrict to a span kind.
pub fn imbh_span_metrics_query_set_kind(
    q: Option<&mut imbh_span_metrics_query>,
    kind: Option<&[u8]>,
    last: &mut LastError,
) -> (code: imbh_error)
    ensures
        q is None ==> rejected(code, *final(last), "null imbh_span_metrics_query"@),
        q matches Some(b) ==> match c_string(kind) {
            Ok(text) => {
                &&& succeeded(code, *final(last))
                &&& final(b)@ == (SpanMetricsQueryView {
                    kind: Some(text),
                    ..b@
                })
            },
            Err(reason) => {
                &&& rejected(code, *final(last), reason)
                &&& final(b)@ == b@
            },
        },
        settled(code, *final(last)),
{
    match q {
        None => settle(Err(invalid_arg("null imbh_span_metrics_query")), last),
        Some(q) => settle(set_text(&mut q.kind, kind), last),
    }
}

/// Restrict to a status.
pub fn imbh_span_metrics_query_set_status(
    q: Option<&mut imbh_span_metrics_query>,
    status: Option<&[u8]>,
    last: &mut LastError,
) -> (code: imbh_error)
    ensures
        q is None ==> rejected(code, *final(last), "null imbh_span_metrics_query"@),
        q matches Some(b) ==> match c_string(status) {
            Ok(text) => {
                &&& succeeded(code, *final(last))
                &&& final(b)@ == (SpanMetricsQueryView {
                    status: Some(text),
                    ..b@
                })
            },
            Err(reason) => {
                &&& rejected(code, *final(last), reason)
                &&& final(b)@ == b@
            },
        },
        settled(code, *final(last)),
{
    match q {
        None => settle(Err(invalid_arg("null imbh_span_metrics_query")), last),
        Some(q) => settle(set_text(&mut q.status, status), last),
    }
}

/// Add an `attribute == value` filter.
pub fn imbh_span_metrics_query_add_attr_eq(
    q: Option<&mut imbh_span_metrics_query>,
    key: Option<&[u8]>,
    value: Option<&[u8]>,
    last: &mut LastError,
) -> (code: imbh_error)
    ensures
        q is None ==> rejected(code, *final(last), "null imbh_span_metrics_query"@),
        q matches Some(b) ==> match c_pair(key, value) {
            Ok(pair) => {
                &&& succeeded(code, *final(last))
                &&& final(b)@ == (SpanMetricsQueryView {
                    attr_eq: b@.attr_eq.push(pair),
                    ..b@
                })
            },
            Err(reason) => {
                &&& rejected(code, *final(last), reason)
                &&& final(b)@ == b@
            },
        },
        settled(code, *final(last)),
{
    match q {
        None => settle(Err(invalid_arg("null imbh_span_metrics_query")), last),
        Some(q) => settle(push_pair(&mut q.attr_eq, key, value), last),
    }
}

/// Add a group-by label.
pub fn imbh_span_metrics_query_add_group_by(
    q: Option<&mut imbh_span_metrics_query>,
    label: Option<&[u8]>,
    last: &mut LastError,
) -> (code: imbh_error)
    ensures
        q is None ==> rejected(code, *final(last), "null imbh_span_metrics_query"@),
        q matches Some(b) ==> match c_string(label) {
            Ok(text) => {
                &&& succeeded(code, *final(last))
                &&& final(b)@ == (SpanMetricsQueryView {
                    group_by: b@.group_by.push(text),
                    ..b@
                })
            },
            Err(reason) => {
                &&& rejected(code, *final(last), reason)
                &&& final(b)@ == b@
            },
        },
        settled(code, *final(last)),
{
    match q {
        None => settle(Err(invalid_arg("null imbh_span_metrics_query")), last),
        Some(q) => settle(push_text(&mut q.group_by, label), last),
    }
}

/// Restrict to the half-open time window `[start, end)` in unix-nanos.
pub fn imbh_span_metrics_query_set_range(
    q: Option<&mut imbh_span_metrics_query>,
    start_unix_nanos: i64,
    end_unix_nanos: i64,
    last: &mut LastError,
) -> (code: imbh_error)
    ensures
        q is None ==> rejected(code, *final(last), "null imbh_span_metrics_query"@),
        q matches Some(b) ==> succeeded(code, *final(last)) && final(b)@ == (SpanMetricsQueryView {
            range: Some(TimeRange { start: start_unix_nanos, end: end_unix_nanos }),
            ..b@
        }),
        settled(code, *final(last)),
{
    match q {
        None => settle(Err(invalid_arg("null imbh_span_metrics_query")), last),
        Some(q) => {
            q.range = Some(TimeRange { start: start_unix_nanos, end: end_unix_nanos });
            settle(Ok(()), last)
        },
    }
}

/// Set the bucket step in nanoseconds (absent means the default, 60 s).
pub fn imbh_span_metrics_query_set_step_nanos(
    q: Option<&mut imbh_span_metrics_query>,
    step_nanos: i64,
    last: &mut LastError,
) -> (code: imbh_error)
    ensures
        q is None ==> rejected(code, *final(last), "null imbh_span_metrics_query"@),
        q matches Some(b) ==> succeeded(code, *final(last)) && final(b)@ == (SpanMetricsQueryView {
            step_nanos: Some(step_nanos),
            ..b@
        }),
        settled(code, *final(last)),
{
    match q {
        None => settle(Err(invalid_arg("null imbh_span_metrics_query")), last),
        Some(q) => {
            q.step_nanos = Some(step_nanos);
            settle(Ok(()), last)
        },
    }
}

/// A builder asks for what its fields hold, each for its own.
pub proof fn span_metrics_queries_ask_for_what_they_hold(q: imbh_span_metrics_query)
    ensures
        q.service matches Some(s) ==> q@.service == Some(s@),
        q.service is None <==> q@.service is None,
        q.name matches Some(s) ==> q@.name == Some(s@),
        q.name is None <==> q@.name is None,
        q.kind matches Some(s) ==> q@.kind == Some(s@),
        q.kind is None <==> q@.kind is None,
        q.status matches Some(s) ==> q@.status == Some(s@),
        q.status is None <==> q@.status is None,
        q@.attr_eq == pair_texts(q.attr_eq@),
        q@.group_by == texts(q.group_by@),
        q@.range == q.range,
        q@.step_nanos == q.step_nanos,
{
}

/// A fresh builder asks for nothing but its defaults.
pub proof fn fresh_span_metrics_queries_ask_for_nothing(
    last: &mut LastError,
    q: imbh_span_metrics_query,
)
    requires
        call_ensures(imbh_span_metrics_query_new, (last,), q),
    ensures
        q.service is None,
        q.name is None,
        q.kind is None,
        q.status is None,
        q.attr_eq@.len() == 0,
        q.group_by@.len() == 0,
        q.range is None,
        q.step_nanos is None,
        final(last)@ is None,
{
    assert(pair_texts(q.attr_eq@).len() == q.attr_eq@.len());
    assert(texts(q.group_by@).len() == q.group_by@.len());
}

/// Every setter fills its own field with what it is given, and leaves all the others as they were.
pub proof fn span_metrics_setters_fill_their_own_field(
    b: &mut imbh_span_metrics_query,
    text: Option<&[u8]>,
    said: Seq<char>,
    key: Option<&[u8]>,
    value: Option<&[u8]>,
    pair: PairText,
    start: i64,
    end: i64,
    signed: i64,
    last: &mut LastError,
    code: imbh_error,
)
    ensures
        call_ensures(
            imbh_span_metrics_query_set_service,
            (Some(b), text, last),
            code,
        ) && says(text, said)
            ==> code == imbh_error::Success && final(b)@ == (SpanMetricsQueryView {
            service: Some(said),
            ..old(b)@
        }),
        call_ensures(
            imbh_span_metrics_query_set_name,
            (Some(b), text, last),
            code,
        ) && says(text, said)
            ==> code == imbh_error::Success && final(b)@ == (SpanMetricsQueryView {
            name: Some(said),
            ..old(b)@
        }),
        call_ensures(
            imbh_span_metrics_query_set_kind,
            (Some(b), text, last),
            code,
        ) && says(text, said)
            ==> code == imbh_error::Success && final(b)@ == (SpanMetricsQueryView {
            kind: Some(said),
            ..old(b)@
        }),
        call_ensures(
            imbh_span_metrics_query_set_status,
            (Some(b), text, last),
            code,
        ) && says(text, said)
            ==> code == imbh_error::Success && final(b)@ == (SpanMetricsQueryView {
            status: Some(said),
            ..old(b)@
        }),
        call_ensures(
            imbh_span_metrics_query_add_attr_eq,
            (Some(b), key, value, last),
            code,
        ) && c_pair(key, value) == Ok::<PairText, Seq<char>>(pair)
            ==> code == imbh_error::Success && final(b)@ == (SpanMetricsQueryView {
            attr_eq: old(b)@.attr_eq.push(pair),
            ..old(b)@
        }),
        call_ensures(
            imbh_span_metrics_query_add_group_by,
            (Some(b), text, last),
            code,
        ) && says(text, said)
            ==> code == imbh_error::Success && final(b)@ == (SpanMetricsQueryView {
            group_by: old(b)@.group_by.push(said),
            ..old(b)@
        }),
        call_ensures(imbh_span_metrics_query_set_range, (Some(b), start, end, last), code)
            ==> code == imbh_error::Success && final(b)@ == (SpanMetricsQueryView {
            range: Some(TimeRange { start, end }),
            ..old(b)@
        }),
        call_ensures(imbh_span_metrics_query_set_step_nanos, (Some(b), signed, last), code)
            ==> code == imbh_error::Success && final(b)@ == (SpanMetricsQueryView {
            step_nanos: Some(signed),
            ..old(b)@
        }),
{
}

/// A setting that is refused changes nothing, and every setter refuses a null builder. A builder
/// that is freed is gone, and no message stays behind.
pub proof fn refused_span_metrics_settings_change_nothing(
    slot: &mut Option<imbh_span_metrics_query>,
    b: &mut imbh_span_metrics_query,
    text: Option<&[u8]>,
    key: Option<&[u8]>,
    value: Option<&[u8]>,
    start: i64,
    end: i64,
    signed: i64,
    last: &mut LastError,
    code: imbh_error,
)
    ensures
        call_ensures(
            imbh_span_metrics_query_set_service,
            (Some(b), text, last),
            code,
        ) && code != imbh_error::Success
            ==> code == imbh_error::InvalidArg && final(b)@ == old(b)@,
        call_ensures(
            imbh_span_metrics_query_set_service,
            (None::<&mut imbh_span_metrics_query>, text, last),
            code,
        )
            ==> rejected(code, *final(last), "null imbh_span_metrics_query"@),
        call_ensures(
            imbh_span_metrics_query_set_name,
            (Some(b), text, last),
            code,
        ) && code != imbh_error::Success
            ==> code == imbh_error::InvalidArg && final(b)@ == old(b)@,
        call_ensures(
            imbh_span_metrics_query_set_name,
            (None::<&mut imbh_span_metrics_query>, text, last),
            code,
        )
            ==> rejected(code, *final(last), "null imbh_span_metrics_query"@),
        call_ensures(
            imbh_span_metrics_query_set_kind,
            (Some(b), text, last),
            code,
        ) && code != imbh_error::Success
            ==> code == imbh_error::InvalidArg && final(b)@ == old(b)@,
        call_ensures(
            imbh_span_metrics_query_set_kind,
            (None::<&mut imbh_span_metrics_query>, text, last),
            code,
        )
            ==> rejected(code, *final(last), "null imbh_span_metrics_query"@),
        call_ensures(
            imbh_span_metrics_query_set_status,
            (Some(b), text, last),
            code,
        ) && code != imbh_error::Success
            ==> code == imbh_error::InvalidArg && final(b)@ == old(b)@,
        call_ensures(
            imbh_span_metrics_query_set_status,
            (None::<&mut imbh_span_metrics_query>, text, last),
            code,
        )
            ==> rejected(code, *final(last), "null imbh_span_metrics_query"@),
        call_ensures(
            imbh_span_metrics_query_add_attr_eq,
            (Some(b), key, value, last),
            code,
        ) && code != imbh_error::Success
            ==> code == imbh_error::InvalidArg && final(b)@ == old(b)@,
        call_ensures(
            imbh_span_metrics_query_add_attr_eq,
            (None::<&mut imbh_span_metrics_query>, key, value, last),
            code,
        )
            ==> rejected(code, *final(last), "null imbh_span_metrics_query"@),
        call_ensures(
            imbh_span_metrics_query_add_group_by,
            (Some(b), text, last),
            code,
        ) && code != imbh_error::Success
            ==> code == imbh_error::InvalidArg && final(b)@ == old(b)@,
        call_ensures(
            imbh_span_metrics_query_add_group_by,
            (None::<&mut imbh_span_metrics_query>, text, last),
            code,
        )
            ==> rejected(code, *final(last), "null imbh_span_metrics_query"@),
        call_ensures(
            imbh_span_metrics_query_set_range,
            (Some(b), start, end, last),
            code,
        ) && code != imbh_error::Success
            ==> code == imbh_error::InvalidArg && final(b)@ == old(b)@,
        call_ensures(
            imbh_span_metrics_query_set_range,
            (None::<&mut imbh_span_metrics_query>, start, end, last),
            code,
        )
            ==> rejected(code, *final(last), "null imbh_span_metrics_query"@),
        call_ensures(
            imbh_span_metrics_query_set_step_nanos,
            (Some(b), signed, last),
            code,
        ) && code != imbh_error::Success
            ==> code == imbh_error::InvalidArg && final(b)@ == old(b)@,
        call_ensures(
            imbh_span_metrics_query_set_step_nanos,
            (None::<&mut imbh_span_metrics_query>, signed, last),
            code,
        )
            ==> rejected(code, *final(last), "null imbh_span_metrics_query"@),
        call_ensures(imbh_span_metrics_query_free, (slot, last), ()) ==> *final(slot) is None
            && final(last)@ is None,
{
}

} // verus!

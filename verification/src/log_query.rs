//! The log query builder.

use vstd::prelude::*;

use crate::args::{c_string, holds_strings, says};
use crate::error::{
    clear_last_error, imbh_error, invalid_arg, LastError, rejected, settle, settled, succeeded,
};
use crate::filters::{
    c_list, c_pair, ListText, list_texts, NumText, num_texts, optional_text, PairText,
    pair_texts, push_list, push_num, push_pair, push_text, set_text, KeyValue, KeyValues,
    NumFilter, TimeRange,
};
use crate::operators::{imbh_direction, imbh_num_op};
use crate::text::texts;

verus! {

/// Builder of a typed log query.
#[derive(Debug)]
pub struct imbh_log_query {
    pub service: Option<String>,
    pub min_severity: Option<u32>,
    pub text: Option<String>,
    pub attr_eq: Vec<KeyValue>,
    pub attr_exists: Vec<String>,
    pub attr_matches: Vec<KeyValue>,
    pub attr_in: Vec<KeyValues>,
    pub attr_not_in: Vec<KeyValues>,
    pub attr_num: Vec<NumFilter>,
    pub attr_regex: Vec<KeyValue>,
    pub range: Option<TimeRange>,
    pub limit: u64,
    /// The scan direction, by its number.
    pub direction: i32,
    pub offset: u64,
}

/// What a builder asks for.
#[verifier::ext_equal]
pub struct LogQueryView {
    pub service: Option<Seq<char>>,
    pub min_severity: Option<u32>,
    pub text: Option<Seq<char>>,
    pub attr_eq: Seq<PairText>,
    pub attr_exists: Seq<Seq<char>>,
    pub attr_matches: Seq<PairText>,
    pub attr_in: Seq<ListText>,
    pub attr_not_in: Seq<ListText>,
    pub attr_num: Seq<NumText>,
    pub attr_regex: Seq<PairText>,
    pub range: Option<TimeRange>,
    pub limit: u64,
    pub direction: i32,
    pub offset: u64,
}

impl View for imbh_log_query {
    type V = LogQueryView;

    open spec fn view(&self) -> LogQueryView {
        LogQueryView {
            service: optional_text(self.service),
            min_severity: self.min_severity,
            text: optional_text(self.text),
            attr_eq: pair_texts(self.attr_eq@),
            attr_exists: texts(self.attr_exists@),
            attr_matches: pair_texts(self.attr_matches@),
            attr_in: list_texts(self.attr_in@),
            attr_not_in: list_texts(self.attr_not_in@),
            attr_num: num_texts(self.attr_num@),
            attr_regex: pair_texts(self.attr_regex@),
            range: self.range,
            limit: self.limit,
            direction: self.direction,
            offset: self.offset,
        }
    }
}

/// What a fresh builder asks for.
pub open spec fn empty_log_query() -> LogQueryView {
    LogQueryView {
        service: None,
        min_severity: None,
        text: None,
        attr_eq: Seq::empty(),
        attr_exists: Seq::empty(),
        attr_matches: Seq::empty(),
        attr_in: Seq::empty(),
        attr_not_in: Seq::empty(),
        attr_num: Seq::empty(),
        attr_regex: Seq::empty(),
        range: None,
        limit: 0,
        direction: 0,
        offset: 0,
    }
}

/// An empty log-query builder.
pub fn imbh_log_query_new(last: &mut LastError) -> (q: imbh_log_query)
    ensures
        q@ == empty_log_query(),
        final(last)@ is None,
{
    clear_last_error(last);
    let q = imbh_log_query {
        service: None,
        min_severity: None,
        text: None,
        attr_eq: Vec::new(),
        attr_exists: Vec::new(),
        attr_matches: Vec::new(),
        attr_in: Vec::new(),
        attr_not_in: Vec::new(),
        attr_num: Vec::new(),
        attr_regex: Vec::new(),
        range: None,
        limit: 0,
        direction: 0,
        offset: 0,
    };
    assert(q@ =~= empty_log_query());
    q
}

/// Free a builder. A slot that holds none stays empty.
pub fn imbh_log_query_free(q: &mut Option<imbh_log_query>, last: &mut LastError)
    ensures
        *final(q) is None,
        final(last)@ is None,
{
    clear_last_error(last);
    *q = None;
}

/// Restrict to a service name.
pub fn imbh_log_query_set_service(
    q: Option<&mut imbh_log_query>,
    service: Option<&[u8]>,
    last: &mut LastError,
) -> (code: imbh_error)
    ensures
        q is None ==> rejected(code, *final(last), "null imbh_log_query"@),
        q matches Some(b) ==> match c_string(service) {
            Ok(text) => {
                &&& succeeded(code, *final(last))
                &&& final(b)@ == (LogQueryView {
                    service: Some(text),
                    ..b@
                })
            },
            Err(reason) => {
                &&& rejected(code, *final(last), reason)
                &&& final(b)@ == b@
            },
        },
        settled(code, *final(last)),
{
    match q {
        None => settle(Err(invalid_arg("null imbh_log_query")), last),
        Some(q) => settle(set_text(&mut q.service, service), last),
    }
}

/// Require a severity of at least `min`.
pub fn imbh_log_query_set_min_severity(
    q: Option<&mut imbh_log_query>,
    min: u32,
    last: &mut LastError,
) -> (code: imbh_error)
    ensures
        q is None ==> rejected(code, *final(last), "null imbh_log_query"@),
        q matches Some(b) ==> succeeded(code, *final(last)) && final(b)@ == (LogQueryView {
            min_severity: Some(min),
            ..b@
        }),
        settled(code, *final(last)),
{
    match q {
        None => settle(Err(invalid_arg("null imbh_log_query")), last),
        Some(q) => {
            q.min_severity = Some(min);
            settle(Ok(()), last)
        },
    }
}

/// Full-text `matches` filter over the log body.
pub fn imbh_log_query_set_text(
    q: Option<&mut imbh_log_query>,
    text: Option<&[u8]>,
    last: &mut LastError,
) -> (code: imbh_error)
    ensures
        q is None ==> rejected(code, *final(last), "null imbh_log_query"@),
        q matches Some(b) ==> match c_string(text) {
            Ok(text) => {
                &&& succeeded(code, *final(last))
                &&& final(b)@ == (LogQueryView {
                    text: Some(text),
                    ..b@
                })
            },
            Err(reason) => {
                &&& rejected(code, *final(last), reason)
                &&& final(b)@ == b@
            },
        },
        settled(code, *final(last)),
{
    match q {
        None => settle(Err(invalid_arg("null imbh_log_query")), last),
        Some(q) => settle(set_text(&mut q.text, text), last),
    }
}

/// Restrict to the half-open time window `[start, end)` in unix-nanos.
pub fn imbh_log_query_set_range(
    q: Option<&mut imbh_log_query>,
    start_unix_nanos: i64,
    end_unix_nanos: i64,
    last: &mut LastError,
) -> (code: imbh_error)
    ensures
        q is None ==> rejected(code, *final(last), "null imbh_log_query"@),
        q matches Some(b) ==> succeeded(code, *final(last)) && final(b)@ == (LogQueryView {
            range: Some(TimeRange { start: start_unix_nanos, end: end_unix_nanos }),
            ..b@
        }),
        settled(code, *final(last)),
{
    match q {
        None => settle(Err(invalid_arg("null imbh_log_query")), last),
        Some(q) => {
            q.range = Some(TimeRange { start: start_unix_nanos, end: end_unix_nanos });
            settle(Ok(()), last)
        },
    }
}

/// Cap the number of returned rows (0 means the default, 100).
pub fn imbh_log_query_set_limit(
    q: Option<&mut imbh_log_query>,
    limit: u64,
    last: &mut LastError,
) -> (code: imbh_error)
    ensures
        q is None ==> rejected(code, *final(last), "null imbh_log_query"@),
        q matches Some(b) ==> succeeded(code, *final(last)) && final(b)@ == (LogQueryView {
            limit: limit,
            ..b@
        }),
        settled(code, *final(last)),
{
    match q {
        None => settle(Err(invalid_arg("null imbh_log_query")), last),
        Some(q) => {
            q.limit = limit;
            settle(Ok(()), last)
        },
    }
}

/// Set the scan direction.
pub fn imbh_log_query_set_direction(
    q: Option<&mut imbh_log_query>,
    direction: imbh_direction,
    last: &mut LastError,
) -> (code: imbh_error)
    ensures
        q is None ==> rejected(code, *final(last), "null imbh_log_query"@),
        q matches Some(b) ==> succeeded(code, *final(last)) && final(b)@ == (LogQueryView {
            direction: direction.number(),
            ..b@
        }),
        settled(code, *final(last)),
{
    match q {
        None => settle(Err(invalid_arg("null imbh_log_query")), last),
        Some(q) => {
            q.direction = direction.code();
            settle(Ok(()), last)
        },
    }
}

/// Set the page cursor offset.
pub fn imbh_log_query_set_offset(
    q: Option<&mut imbh_log_query>,
    offset: u64,
    last: &mut LastError,
) -> (code: imbh_error)
    ensures
        q is None ==> rejected(code, *final(last), "null imbh_log_query"@),
        q matches Some(b) ==> succeeded(code, *final(last)) && final(b)@ == (LogQueryView {
            offset: offset,
            ..b@
        }),
        settled(code, *final(last)),
{
    match q {
        None => settle(Err(invalid_arg("null imbh_log_query")), last),
        Some(q) => {
            q.offset = offset;
            settle(Ok(()), last)
        },
    }
}

/// Add an `attribute == value` filter.
pub fn imbh_log_query_add_attr_eq(
    q: Option<&mut imbh_log_query>,
    key: Option<&[u8]>,
    value: Option<&[u8]>,
    last: &mut LastError,
) -> (code: imbh_error)
    ensures
        q is None ==> rejected(code, *final(last), "null imbh_log_query"@),
        q matches Some(b) ==> match c_pair(key, value) {
            Ok(pair) => {
                &&& succeeded(code, *final(last))
                &&& final(b)@ == (LogQueryView {
                    attr_eq: b@.attr_eq.push(pair),
                    ..b@
                })
            },
            Err(reason) => {
                &&& rejected(code, *final(last), reason)
                &&& final(b)@ == b@
            },
        },
        settled(code, *final(last)),
{
    match q {
        None => settle(Err(invalid_arg("null imbh_log_query")), last),
        Some(q) => settle(push_pair(&mut q.attr_eq, key, value), last),
    }
}

/// Add an `attribute exists` filter.
pub fn imbh_log_query_add_attr_exists(
    q: Option<&mut imbh_log_query>,
    key: Option<&[u8]>,
    last: &mut LastError,
) -> (code: imbh_error)
    ensures
        q is None ==> rejected(code, *final(last), "null imbh_log_query"@),
        q matches Some(b) ==> match c_string(key) {
            Ok(text) => {
                &&& succeeded(code, *final(last))
                &&& final(b)@ == (LogQueryView {
                    attr_exists: b@.attr_exists.push(text),
                    ..b@
                })
            },
            Err(reason) => {
                &&& rejected(code, *final(last), reason)
                &&& final(b)@ == b@
            },
        },
        settled(code, *final(last)),
{
    match q {
        None => settle(Err(invalid_arg("null imbh_log_query")), last),
        Some(q) => settle(push_text(&mut q.attr_exists, key), last),
    }
}

/// Add an `attribute matches value` (full-text) filter.
pub fn imbh_log_query_add_attr_matches(
    q: Option<&mut imbh_log_query>,
    key: Option<&[u8]>,
    value: Option<&[u8]>,
    last: &mut LastError,
) -> (code: imbh_error)
    ensures
        q is None ==> rejected(code, *final(last), "null imbh_log_query"@),
        q matches Some(b) ==> match c_pair(key, value) {
            Ok(pair) => {
                &&& succeeded(code, *final(last))
                &&& final(b)@ == (LogQueryView {
                    attr_matches: b@.attr_matches.push(pair),
                    ..b@
                })
            },
            Err(reason) => {
                &&& rejected(code, *final(last), reason)
                &&& final(b)@ == b@
            },
        },
        settled(code, *final(last)),
{
    match q {
        None => settle(Err(invalid_arg("null imbh_log_query")), last),
        Some(q) => settle(push_pair(&mut q.attr_matches, key, value), last),
    }
}

/// Add an `attribute regex value` filter.
pub fn imbh_log_query_add_attr_regex(
    q: Option<&mut imbh_log_query>,
    key: Option<&[u8]>,
    value: Option<&[u8]>,
    last: &mut LastError,
) -> (code: imbh_error)
    ensures
        q is None ==> rejected(code, *final(last), "null imbh_log_query"@),
        q matches Some(b) ==> match c_pair(key, value) {
            Ok(pair) => {
                &&& succeeded(code, *final(last))
                &&& final(b)@ == (LogQueryView {
                    attr_regex: b@.attr_regex.push(pair),
                    ..b@
                })
            },
            Err(reason) => {
                &&& rejected(code, *final(last), reason)
                &&& final(b)@ == b@
            },
        },
        settled(code, *final(last)),
{
    match q {
        None => settle(Err(invalid_arg("null imbh_log_query")), last),
        Some(q) => settle(push_pair(&mut q.attr_regex, key, value), last),
    }
}

/// Add an `attribute in {values}` filter.
pub fn imbh_log_query_add_attr_in(
    q: Option<&mut imbh_log_query>,
    key: Option<&[u8]>,
    values: Option<&[Option<&[u8]>]>,
    n: usize,
    last: &mut LastError,
) -> (code: imbh_error)
    requires
        holds_strings(values, n),
    ensures
        q is None ==> rejected(code, *final(last), "null imbh_log_query"@),
        q matches Some(b) ==> match c_list(key, values, n) {
            Ok(list) => {
                &&& succeeded(code, *final(last))
                &&& final(b)@ == (LogQueryView {
                    attr_in: b@.attr_in.push(list),
                    ..b@
                })
            },
            Err(reason) => {
                &&& rejected(code, *final(last), reason)
                &&& final(b)@ == b@
            },
        },
        settled(code, *final(last)),
{
    match q {
        None => settle(Err(invalid_arg("null imbh_log_query")), last),
        Some(q) => settle(push_list(&mut q.attr_in, key, values, n), last),
    }
}

/// Add an `attribute not in {values}` filter.
pub fn imbh_log_query_add_attr_not_in(
    q: Option<&mut imbh_log_query>,
    key: Option<&[u8]>,
    values: Option<&[Option<&[u8]>]>,
    n: usize,
    last: &mut LastError,
) -> (code: imbh_error)
    requires
        holds_strings(values, n),
    ensures
        q is None ==> rejected(code, *final(last), "null imbh_log_query"@),
        q matches Some(b) ==> match c_list(key, values, n) {
            Ok(list) => {
                &&& succeeded(code, *final(last))
                &&& final(b)@ == (LogQueryView {
                    attr_not_in: b@.attr_not_in.push(list),
                    ..b@
                })
            },
            Err(reason) => {
                &&& rejected(code, *final(last), reason)
                &&& final(b)@ == b@
            },
        },
        settled(code, *final(last)),
{
    match q {
        None => settle(Err(invalid_arg("null imbh_log_query")), last),
        Some(q) => settle(push_list(&mut q.attr_not_in, key, values, n), last),
    }
}

/// Add a numeric `attribute <op> value` filter; the value is given by its IEEE-754 bits.
pub fn imbh_log_query_add_attr_num(
    q: Option<&mut imbh_log_query>,
    key: Option<&[u8]>,
    op: imbh_num_op,
    value_bits: u64,
    last: &mut LastError,
) -> (code: imbh_error)
    ensures
        q is None ==> rejected(code, *final(last), "null imbh_log_query"@),
        q matches Some(b) ==> match c_string(key) {
            Ok(key) => {
                &&& succeeded(code, *final(last))
                &&& final(b)@ == (LogQueryView {
                    attr_num: b@.attr_num.push(NumText { key, op: op.number(), value_bits }),
                    ..b@
                })
            },
            Err(reason) => {
                &&& rejected(code, *final(last), reason)
                &&& final(b)@ == b@
            },
        },
        settled(code, *final(last)),
{
    match q {
        None => settle(Err(invalid_arg("null imbh_log_query")), last),
        Some(q) => settle(push_num(&mut q.attr_num, key, op, value_bits), last),
    }
}

/// A builder asks for what its fields hold, each for its own.
pub proof fn log_queries_ask_for_what_they_hold(q: imbh_log_query)
    ensures
        q.service matches Some(s) ==> q@.service == Some(s@),
        q.service is None <==> q@.service is None,
        q@.min_severity == q.min_severity,
        q.text matches Some(s) ==> q@.text == Some(s@),
        q.text is None <==> q@.text is None,
        q@.attr_eq == pair_texts(q.attr_eq@),
        q@.attr_exists == texts(q.attr_exists@),
        q@.attr_matches == pair_texts(q.attr_matches@),
        q@.attr_in == list_texts(q.attr_in@),
        q@.attr_not_in == list_texts(q.attr_not_in@),
        q@.attr_num == num_texts(q.attr_num@),
        q@.attr_regex == pair_texts(q.attr_regex@),
        q@.range == q.range,
        q@.limit == q.limit,
        q@.direction == q.direction,
        q@.offset == q.offset,
{
}

/// A fresh builder asks for nothing but its defaults.
pub proof fn fresh_log_queries_ask_for_nothing(
    last: &mut LastError,
    q: imbh_log_query,
)
    requires
        call_ensures(imbh_log_query_new, (last,), q),
    ensures
        q.service is None,
        q.min_severity is None,
        q.text is None,
        q.attr_eq@.len() == 0,
        q.attr_exists@.len() == 0,
        q.attr_matches@.len() == 0,
        q.attr_in@.len() == 0,
        q.attr_not_in@.len() == 0,
        q.attr_num@.len() == 0,
        q.attr_regex@.len() == 0,
        q.range is None,
        q.limit == 0,
        q.direction == 0,
        q.offset == 0,
        final(last)@ is None,
{
    assert(pair_texts(q.attr_eq@).len() == q.attr_eq@.len());
    assert(texts(q.attr_exists@).len() == q.attr_exists@.len());
    assert(pair_texts(q.attr_matches@).len() == q.attr_matches@.len());
    assert(list_texts(q.attr_in@).len() == q.attr_in@.len());
    assert(list_texts(q.attr_not_in@).len() == q.attr_not_in@.len());
    assert(num_texts(q.attr_num@).len() == q.attr_num@.len());
    assert(pair_texts(q.attr_regex@).len() == q.attr_regex@.len());
}

/// Every setter fills its own field with what it is given, and leaves all the others as they were.
pub proof fn log_setters_fill_their_own_field(
    b: &mut imbh_log_query,
    text: Option<&[u8]>,
    said: Seq<char>,
    key: Option<&[u8]>,
    value: Option<&[u8]>,
    pair: PairText,
    values: Option<&[Option<&[u8]>]>,
    n: usize,
    list: ListText,
    op: imbh_num_op,
    value_bits: u64,
    start: i64,
    end: i64,
    small: u32,
    number: u64,
    direction: imbh_direction,
    last: &mut LastError,
    code: imbh_error,
)
    ensures
        call_ensures(imbh_log_query_set_service, (Some(b), text, last), code) && says(text, said)
            ==> code == imbh_error::Success && final(b)@ == (LogQueryView {
            service: Some(said),
            ..old(b)@
        }),
        call_ensures(imbh_log_query_set_min_severity, (Some(b), small, last), code)
            ==> code == imbh_error::Success && final(b)@ == (LogQueryView {
            min_severity: Some(small),
            ..old(b)@
        }),
        call_ensures(imbh_log_query_set_text, (Some(b), text, last), code) && says(text, said)
            ==> code == imbh_error::Success && final(b)@ == (LogQueryView {
            text: Some(said),
            ..old(b)@
        }),
        call_ensures(imbh_log_query_set_range, (Some(b), start, end, last), code)
            ==> code == imbh_error::Success && final(b)@ == (LogQueryView {
            range: Some(TimeRange { start, end }),
            ..old(b)@
        }),
        call_ensures(imbh_log_query_set_limit, (Some(b), number, last), code)
            ==> code == imbh_error::Success && final(b)@ == (LogQueryView {
            limit: number,
            ..old(b)@
        }),
        call_ensures(imbh_log_query_set_direction, (Some(b), direction, last), code)
            ==> code == imbh_error::Success && final(b)@ == (LogQueryView {
            direction: direction.number(),
            ..old(b)@
        }),
        call_ensures(imbh_log_query_set_offset, (Some(b), number, last), code)
            ==> code == imbh_error::Success && final(b)@ == (LogQueryView {
            offset: number,
            ..old(b)@
        }),
        call_ensures(imbh_log_query_add_attr_eq, (Some(b), key, value, last), code) && c_pair(
            key,
            value,
        ) == Ok::<PairText, Seq<char>>(pair)
            ==> code == imbh_error::Success && final(b)@ == (LogQueryView {
            attr_eq: old(b)@.attr_eq.push(pair),
            ..old(b)@
        }),
        call_ensures(
            imbh_log_query_add_attr_exists,
            (Some(b), text, last),
            code,
        ) && says(text, said)
            ==> code == imbh_error::Success && final(b)@ == (LogQueryView {
            attr_exists: old(b)@.attr_exists.push(said),
            ..old(b)@
        }),
        call_ensures(imbh_log_query_add_attr_matches, (Some(b), key, value, last), code) && c_pair(
            key,
            value,
        ) == Ok::<PairText, Seq<char>>(pair)
            ==> code == imbh_error::Success && final(b)@ == (LogQueryView {
            attr_matches: old(b)@.attr_matches.push(pair),
            ..old(b)@
        }),
        call_ensures(imbh_log_query_add_attr_regex, (Some(b), key, value, last), code) && c_pair(
            key,
            value,
        ) == Ok::<PairText, Seq<char>>(pair)
            ==> code == imbh_error::Success && final(b)@ == (LogQueryView {
            attr_regex: old(b)@.attr_regex.push(pair),
            ..old(b)@
        }),
        call_ensures(imbh_log_query_add_attr_in, (Some(b), key, values, n, last), code) && c_list(
            key,
            values,
            n,
        ) == Ok::<ListText, Seq<char>>(list)
            ==> code == imbh_error::Success && final(b)@ == (LogQueryView {
            attr_in: old(b)@.attr_in.push(list),
            ..old(b)@
        }),
        call_ensures(
            imbh_log_query_add_attr_not_in,
            (Some(b), key, values, n, last),
            code,
        ) && c_list(key, values, n) == Ok::<ListText, Seq<char>>(list)
            ==> code == imbh_error::Success && final(b)@ == (LogQueryView {
            attr_not_in: old(b)@.attr_not_in.push(list),
            ..old(b)@
        }),
        call_ensures(
            imbh_log_query_add_attr_num,
            (Some(b), key, op, value_bits, last),
            code,
        ) && says(key, said)
            ==> code == imbh_error::Success && final(b)@ == (LogQueryView {
            attr_num: old(b)@.attr_num.push(NumText { key: said, op: op.number(), value_bits }),
            ..old(b)@
        }),
{
}

/// A setting that is refused changes nothing, and every setter refuses a null builder. A builder
/// that is freed is gone, and no message stays behind.
pub proof fn refused_log_settings_change_nothing(
    slot: &mut Option<imbh_log_query>,
    b: &mut imbh_log_query,
    text: Option<&[u8]>,
    key: Option<&[u8]>,
    value: Option<&[u8]>,
    values: Option<&[Option<&[u8]>]>,
    n: usize,
    op: imbh_num_op,
    value_bits: u64,
    start: i64,
    end: i64,
    small: u32,
    number: u64,
    direction: imbh_direction,
    last: &mut LastError,
    code: imbh_error,
)
    ensures
        call_ensures(
            imbh_log_query_set_service,
            (Some(b), text, last),
            code,
        ) && code != imbh_error::Success
            ==> code == imbh_error::InvalidArg && final(b)@ == old(b)@,
        call_ensures(imbh_log_query_set_service, (None::<&mut imbh_log_query>, text, last), code)
            ==> rejected(code, *final(last), "null imbh_log_query"@),
        call_ensures(
            imbh_log_query_set_min_severity,
            (Some(b), small, last),
            code,
        ) && code != imbh_error::Success
            ==> code == imbh_error::InvalidArg && final(b)@ == old(b)@,
        call_ensures(
            imbh_log_query_set_min_severity,
            (None::<&mut imbh_log_query>, small, last),
            code,
        )
            ==> rejected(code, *final(last), "null imbh_log_query"@),
        call_ensures(
            imbh_log_query_set_text,
            (Some(b), text, last),
            code,
        ) && code != imbh_error::Success
            ==> code == imbh_error::InvalidArg && final(b)@ == old(b)@,
        call_ensures(imbh_log_query_set_text, (None::<&mut imbh_log_query>, text, last), code)
            ==> rejected(code, *final(last), "null imbh_log_query"@),
        call_ensures(
            imbh_log_query_set_range,
            (Some(b), start, end, last),
            code,
        ) && code != imbh_error::Success
            ==> code == imbh_error::InvalidArg && final(b)@ == old(b)@,
        call_ensures(
            imbh_log_query_set_range,
            (None::<&mut imbh_log_query>, start, end, last),
            code,
        )
            ==> rejected(code, *final(last), "null imbh_log_query"@),
        call_ensures(
            imbh_log_query_set_limit,
            (Some(b), number, last),
            code,
        ) && code != imbh_error::Success
            ==> code == imbh_error::InvalidArg && final(b)@ == old(b)@,
        call_ensures(imbh_log_query_set_limit, (None::<&mut imbh_log_query>, number, last), code)
            ==> rejected(code, *final(last), "null imbh_log_query"@),
        call_ensures(
            imbh_log_query_set_direction,
            (Some(b), direction, last),
            code,
        ) && code != imbh_error::Success
            ==> code == imbh_error::InvalidArg && final(b)@ == old(b)@,
        call_ensures(
            imbh_log_query_set_direction,
            (None::<&mut imbh_log_query>, direction, last),
            code,
        )
            ==> rejected(code, *final(last), "null imbh_log_query"@),
        call_ensures(
            imbh_log_query_set_offset,
            (Some(b), number, last),
            code,
        ) && code != imbh_error::Success
            ==> code == imbh_error::InvalidArg && final(b)@ == old(b)@,
        call_ensures(imbh_log_query_set_offset, (None::<&mut imbh_log_query>, number, last), code)
            ==> rejected(code, *final(last), "null imbh_log_query"@),
        call_ensures(
            imbh_log_query_add_attr_eq,
            (Some(b), key, value, last),
            code,
        ) && code != imbh_error::Success
            ==> code == imbh_error::InvalidArg && final(b)@ == old(b)@,
        call_ensures(
            imbh_log_query_add_attr_eq,
            (None::<&mut imbh_log_query>, key, value, last),
            code,
        )
            ==> rejected(code, *final(last), "null imbh_log_query"@),
        call_ensures(
            imbh_log_query_add_attr_exists,
            (Some(b), text, last),
            code,
        ) && code != imbh_error::Success
            ==> code == imbh_error::InvalidArg && final(b)@ == old(b)@,
        call_ensures(
            imbh_log_query_add_attr_exists,
            (None::<&mut imbh_log_query>, text, last),
            code,
        )
            ==> rejected(code, *final(last), "null imbh_log_query"@),
        call_ensures(
            imbh_log_query_add_attr_matches,
            (Some(b), key, value, last),
            code,
        ) && code != imbh_error::Success
            ==> code == imbh_error::InvalidArg && final(b)@ == old(b)@,
        call_ensures(
            imbh_log_query_add_attr_matches,
            (None::<&mut imbh_log_query>, key, value, last),
            code,
        )
            ==> rejected(code, *final(last), "null imbh_log_query"@),
        call_ensures(
            imbh_log_query_add_attr_regex,
            (Some(b), key, value, last),
            code,
        ) && code != imbh_error::Success
            ==> code == imbh_error::InvalidArg && final(b)@ == old(b)@,
        call_ensures(
            imbh_log_query_add_attr_regex,
            (None::<&mut imbh_log_query>, key, value, last),
            code,
        )
            ==> rejected(code, *final(last), "null imbh_log_query"@),
        call_ensures(
            imbh_log_query_add_attr_in,
            (Some(b), key, values, n, last),
            code,
        ) && code != imbh_error::Success
            ==> code == imbh_error::InvalidArg && final(b)@ == old(b)@,
        call_ensures(
            imbh_log_query_add_attr_in,
            (None::<&mut imbh_log_query>, key, values, n, last),
            code,
        )
            ==> rejected(code, *final(last), "null imbh_log_query"@),
        call_ensures(
            imbh_log_query_add_attr_not_in,
            (Some(b), key, values, n, last),
            code,
        ) && code != imbh_error::Success
            ==> code == imbh_error::InvalidArg && final(b)@ == old(b)@,
        call_ensures(
            imbh_log_query_add_attr_not_in,
            (None::<&mut imbh_log_query>, key, values, n, last),
            code,
        )
            ==> rejected(code, *final(last), "null imbh_log_query"@),
        call_ensures(
            imbh_log_query_add_attr_num,
            (Some(b), key, op, value_bits, last),
            code,
        ) && code != imbh_error::Success
            ==> code == imbh_error::InvalidArg && final(b)@ == old(b)@,
        call_ensures(
            imbh_log_query_add_attr_num,
            (None::<&mut imbh_log_query>, key, op, value_bits, last),
            code,
        )
            ==> rejected(code, *final(last), "null imbh_log_query"@),
        call_ensures(imbh_log_query_free, (slot, last), ()) ==> *final(slot) is None
            && final(last)@ is None,
{
}

} // verus!

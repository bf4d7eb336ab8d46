//! The filters that the query builders share.

use vstd::prelude::*;
use vstd::utf8::encode_utf8;

use crate::args::{
    c_string, c_string_array, holds_strings, read_str, read_str_array, texts_survive_the_boundary,
};
use crate::error::CallError;
use crate::operators::{imbh_label_op, imbh_num_op};
use crate::text::texts;

verus! {

/// A half-open time window in unix-nanos.
#[derive(Debug, Clone, Copy, PartialEq, Eq, Structural)]
pub struct TimeRange {
    pub start: i64,
    pub end: i64,
}

/// A key and a value.
#[derive(Debug)]
pub struct KeyValue {
    pub key: String,
    pub value: String,
}

/// A key and a list of values.
#[derive(Debug)]
pub struct KeyValues {
    pub key: String,
    pub values: Vec<String>,
}

/// A numeric comparison: the operator by its number, the value by its IEEE-754 bits.
#[derive(Debug)]
pub struct NumFilter {
    pub key: String,
    pub op: i32,
    pub value_bits: u64,
}

/// A label selector: the operator by its number.
#[derive(Debug)]
pub struct LabelFilter {
    pub key: String,
    pub op: i32,
    pub value: String,
}

/// The text of a key and a value.
#[verifier::ext_equal]
pub struct PairText {
    pub key: Seq<char>,
    pub value: Seq<char>,
}

/// The text of a key and a list of values.
#[verifier::ext_equal]
pub struct ListText {
    pub key: Seq<char>,
    pub values: Seq<Seq<char>>,
}

/// What a numeric comparison says.
#[verifier::ext_equal]
pub struct NumText {
    pub key: Seq<char>,
    pub op: i32,
    pub value_bits: u64,
}

/// What a label selector says.
#[verifier::ext_equal]
pub struct LabelText {
    pub key: Seq<char>,
    pub op: i32,
    pub value: Seq<char>,
}

/// The texts of key-value pairs.
pub open spec fn pair_texts(pairs: Seq<KeyValue>) -> Seq<PairText> {
    pairs.map_values(|p: KeyValue| PairText { key: p.key@, value: p.value@ })
}

/// The texts of key-list pairs.
pub open spec fn list_texts(lists: Seq<KeyValues>) -> Seq<ListText> {
    lists.map_values(|l: KeyValues| ListText { key: l.key@, values: texts(l.values@) })
}

/// What numeric comparisons say.
pub open spec fn num_texts(filters: Seq<NumFilter>) -> Seq<NumText> {
    filters.map_values(
        |f: NumFilter| NumText { key: f.key@, op: f.op, value_bits: f.value_bits },
    )
}

/// What label selectors say.
pub open spec fn label_texts(filters: Seq<LabelFilter>) -> Seq<LabelText> {
    filters.map_values(|f: LabelFilter| LabelText { key: f.key@, op: f.op, value: f.value@ })
}

/// The text of an optional string.
pub open spec fn optional_text(s: Option<String>) -> Option<Seq<char>> {
    match s {
        Some(s) => Some(s@),
        None => None,
    }
}

/// What a key and a value passed as C strings say: the key is read first.
pub open spec fn c_pair(key: Option<&[u8]>, value: Option<&[u8]>) -> Result<PairText, Seq<char>> {
    match c_string(key) {
        Err(reason) => Err(reason),
        Ok(key) => match c_string(value) {
            Err(reason) => Err(reason),
            Ok(value) => Ok(PairText { key, value }),
        },
    }
}

/// What a key and an array of values passed as C strings say: the key is read first.
pub open spec fn c_list(
    key: Option<&[u8]>,
    values: Option<&[Option<&[u8]>]>,
    n: usize,
) -> Result<ListText, Seq<char>> {
    match c_string(key) {
        Err(reason) => Err(reason),
        Ok(key) => match c_string_array(values, n) {
            Err(reason) => Err(reason),
            Ok(values) => Ok(ListText { key, values }),
        },
    }
}

/// Read a key and a value.
pub fn kv(key: Option<&[u8]>, value: Option<&[u8]>) -> (r: Result<KeyValue, CallError>)
    ensures
        match c_pair(key, value) {
            Ok(p) => r matches Ok(kv) && (PairText { key: kv.key@, value: kv.value@ }) == p,
            Err(reason) => r matches Err(CallError::InvalidArg(text)) && text@ == reason,
        },
{
    match read_str(key) {
        Err(e) => Err(e),
        Ok(key) => match read_str(value) {
            Err(e) => Err(e),
            Ok(value) => Ok(KeyValue { key, value }),
        },
    }
}

/// Read a key and its values.
fn key_values(
    key: Option<&[u8]>,
    values: Option<&[Option<&[u8]>]>,
    n: usize,
) -> (r: Result<KeyValues, CallError>)
    requires
        holds_strings(values, n),
    ensures
        match c_list(key, values, n) {
            Ok(l) => r matches Ok(kv) && (ListText { key: kv.key@, values: texts(kv.values@) })
                == l,
            Err(reason) => r matches Err(CallError::InvalidArg(text)) && text@ == reason,
        },
{
    match read_str(key) {
        Err(e) => Err(e),
        Ok(key) => match read_str_array(values, n) {
            Err(e) => Err(e),
            Ok(values) => Ok(KeyValues { key, values }),
        },
    }
}

/// Append a key-value pair to a list of filters.
pub fn push_pair(
    pairs: &mut Vec<KeyValue>,
    key: Option<&[u8]>,
    value: Option<&[u8]>,
) -> (r: Result<(), CallError>)
    ensures
        match c_pair(key, value) {
            Ok(p) => r is Ok && pair_texts(final(pairs)@) == pair_texts(old(pairs)@).push(p),
            Err(reason) => (r matches Err(CallError::InvalidArg(text)) && text@ == reason)
                && *final(pairs) == *old(pairs),
        },
{
    match kv(key, value) {
        Err(e) => Err(e),
        Ok(p) => {
            let ghost before = pairs@;
            pairs.push(p);
            assert(pair_texts(pairs@) =~= pair_texts(before).push(
                PairText { key: p.key@, value: p.value@ },
            ));
            Ok(())
        },
    }
}

/// Append a key and its values to a list of filters.
pub fn push_list(
    lists: &mut Vec<KeyValues>,
    key: Option<&[u8]>,
    values: Option<&[Option<&[u8]>]>,
    n: usize,
) -> (r: Result<(), CallError>)
    requires
        holds_strings(values, n),
    ensures
        match c_list(key, values, n) {
            Ok(l) => r is Ok && list_texts(final(lists)@) == list_texts(old(lists)@).push(l),
            Err(reason) => (r matches Err(CallError::InvalidArg(text)) && text@ == reason)
                && *final(lists) == *old(lists),
        },
{
    match key_values(key, values, n) {
        Err(e) => Err(e),
        Ok(l) => {
            let ghost before = lists@;
            lists.push(l);
            assert(list_texts(lists@) =~= list_texts(before).push(
                ListText { key: l.key@, values: texts(l.values@) },
            ));
            Ok(())
        },
    }
}

/// Append a text to a list of keys or labels.
pub fn push_text(strings: &mut Vec<String>, text: Option<&[u8]>) -> (r: Result<(), CallError>)
    ensures
        match c_string(text) {
            Ok(t) => r is Ok && texts(final(strings)@) == texts(old(strings)@).push(t),
            Err(reason) => (r matches Err(CallError::InvalidArg(text)) && text@ == reason)
                && *final(strings) == *old(strings),
        },
{
    match read_str(text) {
        Err(e) => Err(e),
        Ok(s) => {
            let ghost before = strings@;
            strings.push(s);
            assert(texts(strings@) =~= texts(before).push(s@));
            Ok(())
        },
    }
}

/// Append a numeric comparison to a list of filters.
pub fn push_num(
    filters: &mut Vec<NumFilter>,
    key: Option<&[u8]>,
    op: imbh_num_op,
    value_bits: u64,
) -> (r: Result<(), CallError>)
    ensures
        match c_string(key) {
            Ok(key) => r is Ok && num_texts(final(filters)@) == num_texts(old(filters)@).push(
                NumText { key, op: op.number(), value_bits },
            ),
            Err(reason) => (r matches Err(CallError::InvalidArg(text)) && text@ == reason)
                && *final(filters) == *old(filters),
        },
{
    match read_str(key) {
        Err(e) => Err(e),
        Ok(key) => {
            let ghost before = filters@;
            filters.push(NumFilter { key, op: op.code(), value_bits });
            assert(num_texts(filters@) =~= num_texts(before).push(
                NumText { key: key@, op: op.number(), value_bits },
            ));
            Ok(())
        },
    }
}

/// Append a label selector to a list of filters.
pub fn push_label(
    filters: &mut Vec<LabelFilter>,
    key: Option<&[u8]>,
    op: imbh_label_op,
    value: Option<&[u8]>,
) -> (r: Result<(), CallError>)
    ensures
        match c_pair(key, value) {
            Ok(p) => r is Ok && label_texts(final(filters)@) == label_texts(old(filters)@).push(
                LabelText { key: p.key, op: op.number(), value: p.value },
            ),
            Err(reason) => (r matches Err(CallError::InvalidArg(text)) && text@ == reason)
                && *final(filters) == *old(filters),
        },
{
    match kv(key, value) {
        Err(e) => Err(e),
        Ok(p) => {
            let ghost before = filters@;
            let ghost said = LabelText { key: p.key@, op: op.number(), value: p.value@ };
            filters.push(LabelFilter { key: p.key, op: op.code(), value: p.value });
            assert(label_texts(filters@) =~= label_texts(before).push(said));
            Ok(())
        },
    }
}

/// Fill an optional text.
pub fn set_text(slot: &mut Option<String>, text: Option<&[u8]>) -> (r: Result<(), CallError>)
    ensures
        match c_string(text) {
            Ok(t) => r is Ok && optional_text(*final(slot)) == Some(t),
            Err(reason) => (r matches Err(CallError::InvalidArg(text)) && text@ == reason)
                && *final(slot) == *old(slot),
        },
{
    match read_str(text) {
        Err(e) => Err(e),
        Ok(s) => {
            *slot = Some(s);
            Ok(())
        },
    }
}

/// Copy an optional string.
pub fn copy_text(s: &Option<String>) -> (r: Option<String>)
    ensures
        optional_text(r) == optional_text(*s),
{
    match s {
        Some(s) => Some(s.clone()),
        None => None,
    }
}

/// Copy a list of strings.
pub fn copy_texts(strings: &Vec<String>) -> (r: Vec<String>)
    ensures
        texts(r@) == texts(strings@),
{
    let mut r: Vec<String> = Vec::new();
    for i in 0..strings.len()
        invariant
            texts(r@) == texts(strings@.take(i as int)),
    {
        let ghost before = r@;
        let s = strings[i].clone();
        r.push(s);
        assert(texts(r@) =~= texts(before).push(s@));
        assert(texts(strings@.take(i + 1)) =~= texts(strings@.take(i as int)).push(
            strings@[i as int]@,
        ));
    }
    assert(strings@.take(strings@.len() as int) =~= strings@);
    assert(texts(r@) =~= texts(strings@));
    r
}

/// Copy key-value pairs.
pub fn copy_pairs(pairs: &Vec<KeyValue>) -> (r: Vec<KeyValue>)
    ensures
        pair_texts(r@) == pair_texts(pairs@),
{
    let mut r: Vec<KeyValue> = Vec::new();
    for i in 0..pairs.len()
        invariant
            r@.len() == i,
            forall|j: int|
                0 <= j < i ==> (#[trigger] r@[j]).key@ == pairs@[j].key@ && r@[j].value@
                    == pairs@[j].value@,
    {
        r.push(KeyValue { key: pairs[i].key.clone(), value: pairs[i].value.clone() });
    }
    assert(pair_texts(r@) =~= pair_texts(pairs@));
    r
}

/// Copy key-list pairs.
pub fn copy_lists(lists: &Vec<KeyValues>) -> (r: Vec<KeyValues>)
    ensures
        list_texts(r@) == list_texts(lists@),
{
    let mut r: Vec<KeyValues> = Vec::new();
    for i in 0..lists.len()
        invariant
            r@.len() == i,
            forall|j: int|
                0 <= j < i ==> (#[trigger] r@[j]).key@ == lists@[j].key@ && texts(r@[j].values@)
                    == texts(lists@[j].values@),
    {
        r.push(KeyValues { key: lists[i].key.clone(), values: copy_texts(&lists[i].values) });
    }
    assert(list_texts(r@) =~= list_texts(lists@));
    r
}

/// Copy numeric comparisons.
pub fn copy_nums(filters: &Vec<NumFilter>) -> (r: Vec<NumFilter>)
    ensures
        num_texts(r@) == num_texts(filters@),
{
    let mut r: Vec<NumFilter> = Vec::new();
    for i in 0..filters.len()
        invariant
            r@.len() == i,
            forall|j: int|
                0 <= j < i ==> (#[trigger] r@[j]).key@ == filters@[j].key@ && r@[j].op
                    == filters@[j].op && r@[j].value_bits == filters@[j].value_bits,
    {
        r.push(
            NumFilter {
                key: filters[i].key.clone(),
                op: filters[i].op,
                value_bits: filters[i].value_bits,
            },
        );
    }
    assert(num_texts(r@) =~= num_texts(filters@));
    r
}

/// What a filter says is what it holds, place by place.
pub proof fn filters_say_what_they_hold(
    pairs: Seq<KeyValue>,
    lists: Seq<KeyValues>,
    nums: Seq<NumFilter>,
    labels: Seq<LabelFilter>,
    text: Option<String>,
    i: int,
)
    ensures
        pair_texts(pairs).len() == pairs.len(),
        list_texts(lists).len() == lists.len(),
        num_texts(nums).len() == nums.len(),
        label_texts(labels).len() == labels.len(),
        0 <= i < pairs.len() ==> pair_texts(pairs)[i].key == pairs[i].key@ && pair_texts(
            pairs,
        )[i].value == pairs[i].value@,
        0 <= i < lists.len() ==> list_texts(lists)[i].key == lists[i].key@ && list_texts(
            lists,
        )[i].values.len() == lists[i].values@.len() && (forall|j: int|
            0 <= j < lists[i].values@.len() ==> #[trigger] list_texts(lists)[i].values[j]
                == lists[i].values@[j]@),
        0 <= i < nums.len() ==> num_texts(nums)[i].key == nums[i].key@ && num_texts(nums)[i].op
            == nums[i].op && num_texts(nums)[i].value_bits == nums[i].value_bits,
        0 <= i < labels.len() ==> label_texts(labels)[i].key == labels[i].key@ && label_texts(
            labels,
        )[i].op == labels[i].op && label_texts(labels)[i].value == labels[i].value@,
        text is None <==> optional_text(text) is None,
        text matches Some(s) ==> optional_text(text) == Some(s@),
{
}

/// A key is read before what belongs to it, and both are kept apart: the first of the two that
/// cannot be read decides why they are refused.
pub proof fn keys_are_read_before_their_values(
    key: Option<&[u8]>,
    value: Option<&[u8]>,
    values: Option<&[Option<&[u8]>]>,
    n: usize,
)
    ensures
        c_string(key) matches Err(reason) ==> c_pair(key, value) == Err::<PairText, Seq<char>>(
            reason,
        ) && c_list(key, values, n) == Err::<ListText, Seq<char>>(reason),
        c_string(key) matches Ok(k) ==> (c_string(value) matches Ok(v) ==> (c_pair(
            key,
            value,
        ) matches Ok(p) && p.key == k && p.value == v)),
        c_string(key) is Ok ==> (c_string(value) matches Err(reason) ==> c_pair(key, value)
            == Err::<PairText, Seq<char>>(reason)),
        c_string(key) matches Ok(k) ==> (c_string_array(values, n) matches Ok(all) ==> (c_list(
            key,
            values,
            n,
        ) matches Ok(l) && l.key == k && l.values == all)),
        c_string(key) is Ok ==> (c_string_array(values, n) matches Err(reason) ==> c_list(
            key,
            values,
            n,
        ) == Err::<ListText, Seq<char>>(reason)),
{
}

/// Copies say what their originals say, place by place.
pub proof fn copies_say_the_same(
    text: &Option<String>,
    strings: &Vec<String>,
    pairs: &Vec<KeyValue>,
    lists: &Vec<KeyValues>,
    nums: &Vec<NumFilter>,
    text_copy: Option<String>,
    strings_copy: Vec<String>,
    pairs_copy: Vec<KeyValue>,
    lists_copy: Vec<KeyValues>,
    nums_copy: Vec<NumFilter>,
    i: int,
)
    requires
        call_ensures(copy_text, (text,), text_copy),
        call_ensures(copy_texts, (strings,), strings_copy),
        call_ensures(copy_pairs, (pairs,), pairs_copy),
        call_ensures(copy_lists, (lists,), lists_copy),
        call_ensures(copy_nums, (nums,), nums_copy),
    ensures
        *text is None <==> text_copy is None,
        *text matches Some(s) ==> (text_copy matches Some(t) && t@ == s@),
        strings_copy@.len() == strings@.len(),
        0 <= i < strings@.len() ==> strings_copy@[i]@ == strings@[i]@,
        pairs_copy@.len() == pairs@.len(),
        0 <= i < pairs@.len() ==> pairs_copy@[i].key@ == pairs@[i].key@ && pairs_copy@[i].value@
            == pairs@[i].value@,
        lists_copy@.len() == lists@.len(),
        0 <= i < lists@.len() ==> lists_copy@[i].key@ == lists@[i].key@ && texts(
            lists_copy@[i].values@,
        ) == texts(lists@[i].values@),
        nums_copy@.len() == nums@.len(),
        0 <= i < nums@.len() ==> nums_copy@[i].key@ == nums@[i].key@ && nums_copy@[i].op
            == nums@[i].op && nums_copy@[i].value_bits == nums@[i].value_bits,
{
    assert(texts(strings_copy@).len() == strings_copy@.len());
    assert(texts(strings@).len() == strings@.len());
    assert(pair_texts(pairs_copy@).len() == pairs_copy@.len());
    assert(list_texts(lists_copy@).len() == lists_copy@.len());
    assert(num_texts(nums_copy@).len() == nums_copy@.len());
    if 0 <= i < strings@.len() {
        assert(texts(strings_copy@)[i] == texts(strings@)[i]);
    }
    if 0 <= i < pairs@.len() {
        assert(pair_texts(pairs_copy@)[i] == pair_texts(pairs@)[i]);
    }
    if 0 <= i < lists@.len() {
        assert(list_texts(lists_copy@)[i] == list_texts(lists@)[i]);
    }
    if 0 <= i < nums@.len() {
        assert(num_texts(nums_copy@)[i] == num_texts(nums@)[i]);
    }
}

/// A filter that is added comes last and says what the caller says, and the filters before it stay.
/// An optional text that is set says what the caller says.
pub proof fn added_filters_come_last(
    key: &[u8],
    key_text: Seq<char>,
    value: &[u8],
    value_text: Seq<char>,
    pairs: &mut Vec<KeyValue>,
    pushed: Result<(), CallError>,
    strings: &mut Vec<String>,
    appended: Result<(), CallError>,
    slot: &mut Option<String>,
    filled: Result<(), CallError>,
    read: Result<KeyValue, CallError>,
    i: int,
)
    requires
        key@ == encode_utf8(key_text),
        value@ == encode_utf8(value_text),
        call_ensures(push_pair, (pairs, Some(key), Some(value)), pushed),
        call_ensures(push_text, (strings, Some(key)), appended),
        call_ensures(set_text, (slot, Some(key)), filled),
        call_ensures(kv, (Some(key), Some(value)), read),
    ensures
        pushed is Ok && appended is Ok && filled is Ok,
        read matches Ok(p) && p.key@ == key_text && p.value@ == value_text,
        final(pairs)@.len() == old(pairs)@.len() + 1,
        final(pairs)@.last().key@ == key_text,
        final(pairs)@.last().value@ == value_text,
        0 <= i < old(pairs)@.len() ==> final(pairs)@[i].key@ == old(pairs)@[i].key@
            && final(pairs)@[i].value@ == old(pairs)@[i].value@,
        final(strings)@.len() == old(strings)@.len() + 1,
        final(strings)@.last()@ == key_text,
        0 <= i < old(strings)@.len() ==> final(strings)@[i]@ == old(strings)@[i]@,
        *final(slot) matches Some(s) && s@ == key_text,
{
    texts_survive_the_boundary(key_text, key);
    texts_survive_the_boundary(value_text, value);
    let (before, after) = (pair_texts(old(pairs)@), pair_texts(final(pairs)@));
    assert(before.len() == old(pairs)@.len() && after.len() == final(pairs)@.len());
    assert(after.last() == (PairText { key: key_text, value: value_text }));
    assert(after[after.len() - 1].key == final(pairs)@.last().key@);
    assert(after[after.len() - 1].value == final(pairs)@.last().value@);
    let (a, b) = (texts(old(strings)@), texts(final(strings)@));
    assert(a.len() == old(strings)@.len() && b.len() == final(strings)@.len());
    assert(b[b.len() - 1] == final(strings)@.last()@);
    if 0 <= i < before.len() {
        assert(after[i] == before[i]);
        assert(before[i].key == old(pairs)@[i].key@ && before[i].value == old(pairs)@[i].value@);
        assert(after[i].key == final(pairs)@[i].key@ && after[i].value == final(pairs)@[i].value@);
    }
    if 0 <= i < a.len() {
        assert(b[i] == a[i]);
        assert(a[i] == old(strings)@[i]@ && b[i] == final(strings)@[i]@);
    }
}

} // verus!

//! Error codes of the C ABI and the record of the last failure.
//!
//! Every fallible entry point returns an [`imbh_error`] code and leaves a human-readable message in
//! the caller's [`LastError`] slot (one per thread). [`guard`] is the single place where an
//! outcome, or a panic caught at the boundary, becomes a code and a message.

use vstd::prelude::*;

use crate::text::{joined, lemma_replaced_is_gone, replace_char, replaced};

verus! {

/// Result code returned by every fallible `imbh_*` function; number `0` is success.
///
/// The stable classifiers of an engine failure are looked at first (backpressure, then not-found),
/// the category only after them. Two codes originate in the binding itself: `InvalidArg` (null
/// pointer or non-UTF-8 input) and `Panic` (a caught panic).
#[derive(Debug, Clone, Copy, PartialEq, Eq, Structural)]
pub enum imbh_error {
    /// Success (`IMBH_ERROR_OK`).
    Success,
    /// A null pointer or otherwise invalid argument was passed to the binding.
    InvalidArg,
    /// A panic was caught at the boundary.
    Panic,
    /// The referenced entity was not found (an unknown table or column).
    NotFound,
    /// Ingest backpressure: the async-ingest queue is full, retry later.
    Backpressure,
    /// Database open or recovery failure.
    Open,
    /// Ingest failure.
    Ingest,
    /// Query planning or execution failure.
    Query,
    /// Storage-engine failure.
    Storage,
    /// Invalid configuration.
    Config,
    /// The database handle has been closed.
    Closed,
}

impl imbh_error {
    /// The number of the code on the C side.
    pub open spec fn number(self) -> i32 {
        match self {
            imbh_error::Success => 0,
            imbh_error::InvalidArg => 1,
            imbh_error::Panic => 2,
            imbh_error::NotFound => 3,
            imbh_error::Backpressure => 4,
            imbh_error::Open => 5,
            imbh_error::Ingest => 6,
            imbh_error::Query => 7,
            imbh_error::Storage => 8,
            imbh_error::Config => 9,
            imbh_error::Closed => 10,
        }
    }

    /// The number that crosses the C boundary.
    pub fn code(self) -> (number: i32)
        ensures
            number == self.number(),
    {
        match self {
            imbh_error::Success => 0,
            imbh_error::InvalidArg => 1,
            imbh_error::Panic => 2,
            imbh_error::NotFound => 3,
            imbh_error::Backpressure => 4,
            imbh_error::Open => 5,
            imbh_error::Ingest => 6,
            imbh_error::Query => 7,
            imbh_error::Storage => 8,
            imbh_error::Config => 9,
            imbh_error::Closed => 10,
        }
    }
}

/// Top-level category of an engine failure.
#[derive(Debug, Clone, Copy, PartialEq, Eq, Structural)]
pub enum ErrorCategory {
    Open,
    Ingest,
    Query,
    Storage,
    Config,
    Closed,
    /// A category this binding does not know yet.
    Other,
}

/// A failure reported by the database engine: its category, its two stable classifiers and its
/// rendered message.
#[derive(Debug)]
pub struct EngineError {
    pub category: ErrorCategory,
    pub backpressure: bool,
    pub not_found: bool,
    pub message: String,
}

/// What can go wrong inside a guarded call.
#[derive(Debug)]
pub enum CallError {
    /// The engine failed.
    Imbh(EngineError),
    /// The caller misused the binding (null pointer, non-UTF-8 input).
    InvalidArg(String),
    /// A well-formed query that failed to translate or to evaluate. Kept apart from `InvalidArg`.
    Query(String),
}

/// What a caught panic carried.
#[derive(Debug)]
pub enum PanicPayload {
    /// A string literal.
    Str(String),
    /// An owned string.
    Text(String),
    /// Anything else.
    Other,
}

/// The last failure of one thread.
#[derive(Debug)]
pub struct LastError {
    message: Option<String>,
}

impl View for LastError {
    type V = Option<Seq<char>>;

    closed spec fn view(&self) -> Option<Seq<char>> {
        match self.message {
            Some(text) => Some(text@),
            None => None,
        }
    }
}

impl LastError {
    /// A slot of a thread on which no call has run yet.
    pub fn new() -> (slot: LastError)
        ensures
            slot@ is None,
    {
        LastError { message: None }
    }
}

/// A message as it is recorded: NUL cannot live in a C string and gives way to U+FFFD.
pub open spec fn recorded(message: Seq<char>) -> Seq<char> {
    replaced(message, '\0', '\u{fffd}')
}

/// The code of an engine failure: the classifiers win over the category, and a category without a
/// code of its own counts as a storage failure.
pub open spec fn classified(e: EngineError) -> imbh_error {
    if e.backpressure {
        imbh_error::Backpressure
    } else if e.not_found {
        imbh_error::NotFound
    } else {
        match e.category {
            ErrorCategory::Open => imbh_error::Open,
            ErrorCategory::Ingest => imbh_error::Ingest,
            ErrorCategory::Query => imbh_error::Query,
            ErrorCategory::Storage => imbh_error::Storage,
            ErrorCategory::Config => imbh_error::Config,
            ErrorCategory::Closed => imbh_error::Closed,
            ErrorCategory::Other => imbh_error::Storage,
        }
    }
}

/// The code and the message slot say that the call succeeded.
pub open spec fn succeeded(code: imbh_error, last: LastError) -> bool {
    code == imbh_error::Success && last@ is None
}

/// They say that the call failed with `kind` for the given reason.
pub open spec fn failed(
    code: imbh_error,
    last: LastError,
    kind: imbh_error,
    reason: Seq<char>,
) -> bool {
    code == kind && last@ == Some(recorded(reason))
}

/// They say that an argument was rejected.
pub open spec fn rejected(code: imbh_error, last: LastError, reason: Seq<char>) -> bool {
    failed(code, last, imbh_error::InvalidArg, reason)
}

/// They say that a query failed to translate or to evaluate.
pub open spec fn query_failed(code: imbh_error, last: LastError, reason: Seq<char>) -> bool {
    failed(code, last, imbh_error::Query, reason)
}

/// They say that the engine failed.
pub open spec fn engine_failed(code: imbh_error, last: LastError, e: EngineError) -> bool {
    failed(code, last, classified(e), e.message@)
}

/// They say that a panic was caught.
pub open spec fn panicked(code: imbh_error, last: LastError, reason: Seq<char>) -> bool {
    failed(code, last, imbh_error::Panic, "panic: "@ + reason)
}

/// The text of a panic payload.
pub open spec fn panic_text(payload: PanicPayload) -> Seq<char> {
    match payload {
        PanicPayload::Str(text) => text@,
        PanicPayload::Text(text) => text@,
        PanicPayload::Other => "unknown panic"@,
    }
}

/// The code and the message slot report the outcome of a guarded call.
pub open spec fn reports(
    outcome: Result<Result<(), CallError>, PanicPayload>,
    code: imbh_error,
    last: LastError,
) -> bool {
    match outcome {
        Ok(Ok(())) => succeeded(code, last),
        Ok(Err(CallError::InvalidArg(reason))) => rejected(code, last, reason@),
        Ok(Err(CallError::Query(reason))) => query_failed(code, last, reason@),
        Ok(Err(CallError::Imbh(e))) => engine_failed(code, last, e),
        Err(payload) => panicked(code, last, panic_text(payload)),
    }
}

/// A call that ended with this code leaves a message exactly when it failed.
pub open spec fn settled(code: imbh_error, last: LastError) -> bool {
    (code == imbh_error::Success) == (last@ is None)
}

/// What a caller is told of the last failure: its message, or nothing where there is none.
pub open spec fn tells(last: LastError, message: Option<&str>) -> bool {
    match message {
        Some(text) => last@ == Some(text@),
        None => last@ is None,
    }
}

impl From<EngineError> for CallError {
    fn from(e: EngineError) -> (r: CallError) {
        CallError::Imbh(e)
    }
}

impl vstd::std_specs::convert::FromSpecImpl<EngineError> for CallError {
    open spec fn obeys_from_spec() -> bool {
        true
    }

    open spec fn from_spec(e: EngineError) -> CallError {
        CallError::Imbh(e)
    }
}

/// Record `message` as the last failure.
pub fn set_last_error(message: &str, last: &mut LastError)
    ensures
        final(last)@ == Some(recorded(message@)),
{
    last.message = Some(replace_char(message, '\0', '\u{fffd}'));
}

/// Forget the last failure.
pub fn clear_last_error(last: &mut LastError)
    ensures
        final(last)@ is None,
{
    last.message = None;
}

/// The message of the last failure, or `None` if the most recent call succeeded or none has run.
pub fn imbh_last_error_message(last: &LastError) -> (message: Option<&str>)
    ensures
        tells(*last, message),
{
    match &last.message {
        Some(text) => Some(text.as_str()),
        None => None,
    }
}

/// The code of an engine failure.
pub fn classify(e: &EngineError) -> (code: imbh_error)
    ensures
        code == classified(*e),
{
    if e.backpressure {
        return imbh_error::Backpressure;
    }
    if e.not_found {
        return imbh_error::NotFound;
    }
    match e.category {
        ErrorCategory::Open => imbh_error::Open,
        ErrorCategory::Ingest => imbh_error::Ingest,
        ErrorCategory::Query => imbh_error::Query,
        ErrorCategory::Storage => imbh_error::Storage,
        ErrorCategory::Config => imbh_error::Config,
        ErrorCategory::Closed => imbh_error::Closed,
        ErrorCategory::Other => imbh_error::Storage,
    }
}

/// The text a panic was raised with.
pub fn panic_message(payload: &PanicPayload) -> (text: String)
    ensures
        text@ == panic_text(*payload),
{
    match payload {
        PanicPayload::Str(text) => text.clone(),
        PanicPayload::Text(text) => text.clone(),
        PanicPayload::Other => "unknown panic".to_owned(),
    }
}

/// Turn the outcome of a call, or the panic that ended it, into a code and a recorded message.
pub fn guard(
    outcome: Result<Result<(), CallError>, PanicPayload>,
    last: &mut LastError,
) -> (code: imbh_error)
    ensures
        reports(outcome, code, *final(last)),
{
    match outcome {
        Ok(Ok(())) => {
            clear_last_error(last);
            imbh_error::Success
        },
        Ok(Err(CallError::InvalidArg(message))) => {
            set_last_error(message.as_str(), last);
            imbh_error::InvalidArg
        },
        Ok(Err(CallError::Query(message))) => {
            set_last_error(message.as_str(), last);
            imbh_error::Query
        },
        Ok(Err(CallError::Imbh(e))) => {
            let code = classify(&e);
            set_last_error(e.message.as_str(), last);
            code
        },
        Err(payload) => {
            let text = panic_message(&payload);
            set_last_error(joined("panic: ", text.as_str()).as_str(), last);
            imbh_error::Panic
        },
    }
}

/// Settle a call that ended without a panic.
pub fn settle(outcome: Result<(), CallError>, last: &mut LastError) -> (code: imbh_error)
    ensures
        reports(Ok(outcome), code, *final(last)),
{
    guard(Ok(outcome), last)
}

/// Settle a call that ended in a panic raised with `reason`.
pub fn settle_panic(reason: &str, last: &mut LastError) -> (code: imbh_error)
    ensures
        panicked(code, *final(last), reason@),
{
    guard(Err(PanicPayload::Str(reason.to_owned())), last)
}

/// The failure of an argument check.
pub fn invalid_arg(reason: &str) -> (e: CallError)
    ensures
        e matches CallError::InvalidArg(text) && text@ == reason@,
{
    CallError::InvalidArg(reason.to_owned())
}

/// The failure of a query.
pub fn query_error(context: &str, reason: &str) -> (e: CallError)
    ensures
        e matches CallError::Query(text) && text@ == context@ + reason@,
{
    CallError::Query(joined(context, reason))
}

/// Distinct codes have distinct numbers, and `0` stands for success alone.
pub proof fn codes_are_told_apart_by_number(a: imbh_error, b: imbh_error)
    ensures
        a.number() == b.number() ==> a == b,
        a.number() == 0 <==> a == imbh_error::Success,
{
}

/// The message is absent exactly when the most recent call succeeded: every call with a code leaves
/// the slot [`settled`], a constructor or a call that frees leaves it empty, and so does a fresh
/// slot.
pub proof fn message_is_absent_exactly_after_success(
    code: imbh_error,
    last: LastError,
    message: Option<&str>,
)
    requires
        settled(code, last),
        tells(last, message),
    ensures
        message is None <==> code == imbh_error::Success,
{
}

/// A message is on record after a call exactly when its code is not success, and a recorded message
/// can always be handed out as a C string: it holds no NUL.
pub proof fn message_is_recorded_exactly_on_failure(
    outcome: Result<Result<(), CallError>, PanicPayload>,
    code: imbh_error,
    last: LastError,
)
    requires
        reports(outcome, code, last),
    ensures
        last@ is None <==> code == imbh_error::Success,
        (outcome matches Ok(ended) && ended is Ok) <==> code == imbh_error::Success,
        last@ matches Some(text) ==> !text.contains('\0'),
{
    match outcome {
        Ok(Ok(())) => {},
        Ok(Err(CallError::InvalidArg(reason))) => {
            lemma_replaced_is_gone(reason@, '\0', '\u{fffd}');
        },
        Ok(Err(CallError::Query(reason))) => {
            lemma_replaced_is_gone(reason@, '\0', '\u{fffd}');
        },
        Ok(Err(CallError::Imbh(e))) => {
            lemma_replaced_is_gone(e.message@, '\0', '\u{fffd}');
        },
        Err(payload) => {
            lemma_replaced_is_gone("panic: "@ + panic_text(payload), '\0', '\u{fffd}');
        },
    }
}

/// The retryable and the not-found failures can be branched on by code alone: backpressure always
/// has its own code, a not-found failure has its own unless it is backpressure too, and no other
/// engine failure carries either code.
pub proof fn classifiers_win_over_the_category(e: EngineError)
    ensures
        classified(e) == imbh_error::Backpressure <==> e.backpressure,
        classified(e) == imbh_error::NotFound <==> e.not_found && !e.backpressure,
{
}

/// The codes of the binding itself never stand for an engine failure.
pub proof fn engine_failures_do_not_use_the_binding_codes(e: EngineError)
    ensures
        classified(e) != imbh_error::Success,
        classified(e) != imbh_error::InvalidArg,
        classified(e) != imbh_error::Panic,
{
}

/// Every code crosses the boundary as the number that the header gives it.
pub proof fn codes_have_the_numbers_of_the_header(code: imbh_error, n: i32)
    requires
        call_ensures(imbh_error::code, (code,), n),
    ensures
        code == imbh_error::Success <==> n == 0,
        code == imbh_error::InvalidArg <==> n == 1,
        code == imbh_error::Panic <==> n == 2,
        code == imbh_error::NotFound <==> n == 3,
        code == imbh_error::Backpressure <==> n == 4,
        code == imbh_error::Open <==> n == 5,
        code == imbh_error::Ingest <==> n == 6,
        code == imbh_error::Query <==> n == 7,
        code == imbh_error::Storage <==> n == 8,
        code == imbh_error::Config <==> n == 9,
        code == imbh_error::Closed <==> n == 10,
{
}

/// The message is the reason, character by character, but for each NUL, which a C string cannot
/// hold and which gives way to U+FFFD.
pub open spec fn spells(message: Option<Seq<char>>, reason: Seq<char>) -> bool {
    message matches Some(m) && m.len() == reason.len() && (forall|i: int|
        0 <= i < m.len() ==> #[trigger] m[i] == (if reason[i] == '\0' {
            '\u{fffd}'
        } else {
            reason[i]
        }))
}

/// A message that spells a reason is as long as it and says it character by character, with a
/// replacement character for each null.
pub proof fn messages_spell_their_reason(message: Option<Seq<char>>, reason: Seq<char>, i: int)
    requires
        spells(message, reason),
    ensures
        message matches Some(m) && m.len() == reason.len(),
        0 <= i < reason.len() && reason[i] != '\0' ==> message->Some_0[i] == reason[i],
        0 <= i < reason.len() && reason[i] == '\0' ==> message->Some_0[i] == '\u{fffd}',
{
    if let Some(m) = message {
        if 0 <= i < reason.len() {
            assert(m[i] == (if reason[i] == '\0' {
                '\u{fffd}'
            } else {
                reason[i]
            }));
        }
    }
}

/// What a code and a message slot say of a call: a refused argument, a failed query, a failure of
/// the engine and a panic have each their own code, and all of them leave the reason as the
/// message.
pub proof fn outcomes_are_told_by_code_and_message(
    code: imbh_error,
    last: LastError,
    reason: Seq<char>,
    e: EngineError,
)
    ensures
        succeeded(code, last) <==> code == imbh_error::Success && last@ is None,
        rejected(code, last, reason) ==> code == imbh_error::InvalidArg && spells(last@, reason),
        query_failed(code, last, reason) ==> code == imbh_error::Query && spells(last@, reason),
        panicked(code, last, reason) ==> code == imbh_error::Panic && spells(
            last@,
            "panic: "@ + reason,
        ),
        engine_failed(code, last, e) ==> spells(last@, e.message@) && code != imbh_error::Success,
        engine_failed(code, last, e) && e.backpressure ==> code == imbh_error::Backpressure,
        engine_failed(code, last, e) && !e.backpressure && e.not_found ==> code
            == imbh_error::NotFound,
        engine_failed(code, last, e) && !e.backpressure && !e.not_found ==> {
            &&& e.category == ErrorCategory::Open ==> code == imbh_error::Open
            &&& e.category == ErrorCategory::Ingest ==> code == imbh_error::Ingest
            &&& e.category == ErrorCategory::Query ==> code == imbh_error::Query
            &&& e.category == ErrorCategory::Storage ==> code == imbh_error::Storage
            &&& e.category == ErrorCategory::Config ==> code == imbh_error::Config
            &&& e.category == ErrorCategory::Closed ==> code == imbh_error::Closed
            &&& e.category == ErrorCategory::Other ==> code == imbh_error::Storage
        },
        settled(code, last) ==> (code == imbh_error::Success <==> last@ is None),
{
}

/// What a guarded call ends in is what the caller reads of it: a success leaves nothing to read,
/// and every failure, a panic included, its own code and its own message.
pub proof fn callers_read_how_a_call_ended(
    outcome: Result<Result<(), CallError>, PanicPayload>,
    last: &mut LastError,
    code: imbh_error,
    message: Option<&str>,
)
    requires
        call_ensures(guard, (outcome, last), code),
        call_ensures(imbh_last_error_message, (&*final(last),), message),
    ensures
        outcome == Ok::<Result<(), CallError>, PanicPayload>(Ok(())) ==> code == imbh_error::Success
            && message is None,
        outcome matches Ok(Err(CallError::InvalidArg(m))) ==> code == imbh_error::InvalidArg && (
        message matches Some(text) && spells(Some(text@), m@)),
        outcome matches Ok(Err(CallError::Query(m))) ==> code == imbh_error::Query && (
        message matches Some(text) && spells(Some(text@), m@)),
        outcome matches Ok(Err(CallError::Imbh(e))) ==> engine_failed(code, *final(last), e) && (
        message matches Some(text) && spells(Some(text@), e.message@)),
        outcome matches Err(PanicPayload::Str(m)) ==> code == imbh_error::Panic && (
        message matches Some(text) && spells(Some(text@), "panic: "@ + m@)),
        outcome matches Err(PanicPayload::Text(m)) ==> code == imbh_error::Panic && (
        message matches Some(text) && spells(Some(text@), "panic: "@ + m@)),
        outcome matches Err(PanicPayload::Other) ==> code == imbh_error::Panic && (
        message matches Some(text) && spells(Some(text@), "panic: "@ + "unknown panic"@)),
{
}

/// Whatever ends a call leaves its own code and its own message: success none, a refused argument,
/// a failed query and an engine failure their reasons, a panic its text behind a prefix. A fresh
/// slot and a cleared one hold no message.
pub proof fn every_ending_leaves_its_own_message(
    fresh: LastError,
    cleared: &mut LastError,
    message: &str,
    set: &mut LastError,
    ended: Result<(), CallError>,
    last: &mut LastError,
    code: imbh_error,
    reason: &str,
    panicking: &mut LastError,
    panic_code: imbh_error,
)
    requires
        call_ensures(LastError::new, (), fresh),
        call_ensures(clear_last_error, (cleared,), ()),
        call_ensures(set_last_error, (message, set), ()),
        call_ensures(settle, (ended, last), code),
        call_ensures(settle_panic, (reason, panicking), panic_code),
    ensures
        fresh@ is None,
        final(cleared)@ is None,
        spells(final(set)@, message@),
        ended is Ok <==> code == imbh_error::Success,
        ended is Ok <==> final(last)@ is None,
        ended matches Err(CallError::InvalidArg(m)) ==> code == imbh_error::InvalidArg && spells(
            final(last)@,
            m@,
        ),
        ended matches Err(CallError::Query(m)) ==> code == imbh_error::Query && spells(
            final(last)@,
            m@,
        ),
        ended matches Err(CallError::Imbh(e)) ==> code == classified(e) && spells(
            final(last)@,
            e.message@,
        ),
        panic_code == imbh_error::Panic,
        spells(final(panicking)@, "panic: "@ + reason@),
{
}

/// A refused argument and a failed query keep their reasons, the latter behind its context, a panic
/// payload keeps its text, and an engine failure has the code of its classifiers or its category.
pub proof fn failures_keep_their_reasons(
    reason: &str,
    refused: CallError,
    context: &str,
    query: CallError,
    payload: &PanicPayload,
    text: String,
    e: &EngineError,
    code: imbh_error,
)
    requires
        call_ensures(invalid_arg, (reason,), refused),
        call_ensures(query_error, (context, reason), query),
        call_ensures(panic_message, (payload,), text),
        call_ensures(classify, (e,), code),
    ensures
        refused matches CallError::InvalidArg(m) && m@ == reason@,
        query matches CallError::Query(m) && m@ == context@ + reason@,
        *payload matches PanicPayload::Str(m) ==> text@ == m@,
        *payload matches PanicPayload::Text(m) ==> text@ == m@,
        *payload is Other ==> text@ == "unknown panic"@,
        code == classified(*e),
        e.backpressure ==> code == imbh_error::Backpressure,
        e.not_found && !e.backpressure ==> code == imbh_error::NotFound,
        !e.backpressure && !e.not_found ==> match e.category {
            ErrorCategory::Open => code == imbh_error::Open,
            ErrorCategory::Ingest => code == imbh_error::Ingest,
            ErrorCategory::Query => code == imbh_error::Query,
            ErrorCategory::Storage => code == imbh_error::Storage,
            ErrorCategory::Config => code == imbh_error::Config,
            ErrorCategory::Closed => code == imbh_error::Closed,
            ErrorCategory::Other => code == imbh_error::Storage,
        },
{
}

} // verus!

//! The database handle and its lifecycle.

use vstd::prelude::*;
use vstd::utf8::encode_utf8;

use crate::args::{
    c_string, cstr, handle, holds_strings, promoted_keys, says, texts_survive_the_boundary,
};
use crate::error::{
    clear_last_error, engine_failed, imbh_error, invalid_arg, LastError, rejected, reports, settle,
    settled, succeeded, CallError, EngineError,
};
use crate::options::{build_options, imbh_open_options, OpenPlan, plans};
use crate::text::joined;

verus! {

/// The runtime that the calls of a handle are driven on.
#[verifier::external_type_specification]
#[verifier::external_body]
pub struct ExRuntime(tokio::runtime::Runtime);

/// A failure of the operating system.
#[verifier::external_type_specification]
#[verifier::external_body]
pub struct ExIoError(std::io::Error);

/// A database handle: the engine's database and the runtime that its calls are driven on.
pub struct imbh_db<D> {
    pub db: D,
    pub rt: tokio::runtime::Runtime,
}

/// How an on-disk database is asked for.
#[derive(Debug)]
pub enum OpenRequest {
    /// With the engine's defaults.
    Defaults,
    /// With the engine's defaults, read-only.
    ReadOnly,
    /// As the options say.
    Planned(OpenPlan),
}

/// The message says that the runtime could not be built, and why: it ends with the `Display` text
/// of the failure `e`.
pub open spec fn reports_failure(e: std::io::Error, message: Seq<char>) -> bool {
    exists|reason: String|
        vstd::string::to_string_from_display_ensures::<std::io::Error>(&e, reason) && message
            == "failed to build runtime: "@ + #[trigger] reason@
}

/// The message says that the runtime could not be built, because of some failure of the operating
/// system.
pub open spec fn is_runtime_error(message: Seq<char>) -> bool {
    exists|e: std::io::Error| #[trigger] reports_failure(e, message)
}

/// `tokio::runtime::Builder::new_current_thread().build()` makes a current-thread runtime. Whether
/// it can depends on the machine.
#[verifier::external_body]
fn build_runtime() -> (r: Result<tokio::runtime::Runtime, std::io::Error>) {
    tokio::runtime::Builder::new_current_thread().build()
}

/// The runtime that was built, or the report that it was not.
pub fn runtime_or_failure(
    built: Result<tokio::runtime::Runtime, std::io::Error>,
) -> (r: Result<tokio::runtime::Runtime, CallError>)
    ensures
        match built {
            Ok(rt) => r == Ok::<tokio::runtime::Runtime, CallError>(rt),
            Err(e) => r matches Err(CallError::InvalidArg(text)) && reports_failure(e, text@),
        },
{
    match built {
        Ok(rt) => Ok(rt),
        Err(e) => {
            let reason = e.to_string();
            Err(CallError::InvalidArg(joined("failed to build runtime: ", reason.as_str())))
        },
    }
}

/// Build the runtime of a handle. Whether one can be built depends on the machine; where it cannot,
/// the report ends with what the operating system says of it.
pub fn new_runtime() -> (r: Result<tokio::runtime::Runtime, CallError>)
    ensures
        is_build_outcome(r),
{
    runtime_or_failure(build_runtime())
}

/// What building a runtime can end in: a runtime, or the report that there is none.
pub open spec fn is_build_outcome(built: Result<tokio::runtime::Runtime, CallError>) -> bool {
    built matches Err(e) ==> e matches CallError::InvalidArg(text) && is_runtime_error(text@)
}

/// The outcome of giving an open database its runtime: a handle of exactly the two in the caller's
/// slot, or the report of why there is no runtime and the slot as it was.
pub open spec fn places<D>(
    db: D,
    built: Result<tokio::runtime::Runtime, CallError>,
    before: Option<imbh_db<D>>,
    after: Option<imbh_db<D>>,
    code: imbh_error,
    last: LastError,
) -> bool {
    match built {
        Ok(rt) => succeeded(code, last) && after == Some(imbh_db { db, rt }),
        Err(e) => reports(Ok(Err(e)), code, last) && after == before,
    }
}

/// Give an open database the runtime that was built for it, and hand it to the caller.
pub fn place_handle<D>(
    db: D,
    built: Result<tokio::runtime::Runtime, CallError>,
    out: &mut Option<imbh_db<D>>,
    last: &mut LastError,
) -> (code: imbh_error)
    ensures
        places(db, built, *old(out), *final(out), code, *final(last)),
{
    match built {
        Err(e) => settle(Err(e), last),
        Ok(rt) => {
            *out = Some(imbh_db { db, rt });
            settle(Ok(()), last)
        },
    }
}

/// The outcome of opening a database, given the engine's reply: its failure is reported; its
/// database becomes a handle in the caller's slot, unless no runtime can be built for it. On
/// failure the slot stays as it was.
pub open spec fn opens<D>(
    reply: Result<D, EngineError>,
    before: Option<imbh_db<D>>,
    after: Option<imbh_db<D>>,
    code: imbh_error,
    last: LastError,
) -> bool {
    match reply {
        Err(e) => engine_failed(code, last, e) && after == before,
        Ok(d) => exists|built: Result<tokio::runtime::Runtime, CallError>| #[trigger]
            is_build_outcome(built) && places(d, built, before, after, code, last),
    }
}

/// Hand the engine's reply to an open call to the caller.
pub fn finish_open<D>(
    reply: Result<D, EngineError>,
    out: &mut Option<imbh_db<D>>,
    last: &mut LastError,
) -> (code: imbh_error)
    ensures
        opens(reply, *old(out), *final(out), code, *final(last)),
{
    match reply {
        Err(e) => settle(Err(CallError::Imbh(e)), last),
        Ok(db) => {
            let built = new_runtime();
            assert(is_build_outcome(built));
            place_handle(db, built, out, last)
        },
    }
}

/// Open an ephemeral, in-process database with `open`, and write the handle to `out`.
pub fn imbh_db_open_memory<D, F: FnOnce() -> Result<D, EngineError>>(
    out: Option<&mut Option<imbh_db<D>>>,
    open: F,
    last: &mut LastError,
) -> (code: imbh_error)
    requires
        out is Some ==> open.requires(()),
    ensures
        out is None ==> rejected(code, *final(last), "null out pointer"@),
        out matches Some(slot) ==> exists|reply: Result<D, EngineError>| #[trigger]
            open.ensures((), reply) && opens(reply, *slot, *final(slot), code, *final(last)),
        settled(code, *final(last)),
{
    match out {
        None => settle(Err(invalid_arg("null out pointer")), last),
        Some(slot) => {
            let reply = open();
            finish_open(reply, slot, last)
        },
    }
}

/// What the caller asks of the engine: the defaults where there are no options, and otherwise what
/// the options say.
pub open spec fn requests(opts: Option<&imbh_open_options<'_>>, request: OpenRequest) -> bool {
    match opts {
        None => request is Defaults,
        Some(opts) => promoted_keys(opts.promote_keys, opts.promote_keys_len) matches Ok(keys) && (
        request matches OpenRequest::Planned(plan) && plans(*opts, keys, plan)),
    }
}

/// Why the options are refused, if they are.
pub open spec fn options_refused(opts: Option<&imbh_open_options<'_>>) -> Option<Seq<char>> {
    match opts {
        None => None,
        Some(opts) => match promoted_keys(opts.promote_keys, opts.promote_keys_len) {
            Ok(keys) => None,
            Err(reason) => Some(reason),
        },
    }
}

/// Open a durable, on-disk database at `path` with `open`, and write the handle to `out`. The
/// options may be null.
pub fn imbh_db_open<D, F: FnOnce(&str, OpenRequest) -> Result<D, EngineError>>(
    path: Option<&[u8]>,
    opts: Option<&imbh_open_options<'_>>,
    out: Option<&mut Option<imbh_db<D>>>,
    open: F,
    last: &mut LastError,
) -> (code: imbh_error)
    requires
        opts matches Some(opts) ==> holds_strings(opts.promote_keys, opts.promote_keys_len),
        forall|text: &str, request: OpenRequest|
            out is Some && says(path, text@) && requests(opts, request) ==> (
            #[trigger] open.requires((text, request))),
    ensures
        out is None ==> rejected(code, *final(last), "null out pointer"@),
        out matches Some(slot) ==> match c_string(path) {
            Err(reason) => rejected(code, *final(last), reason) && *final(slot) == *slot,
            Ok(text) => match options_refused(opts) {
                Some(reason) => rejected(code, *final(last), reason) && *final(slot) == *slot,
                None => exists|path: &str, request: OpenRequest, reply: Result<D, EngineError>|
                    #[trigger]
                    open.ensures((path, request), reply) && path@ == text && requests(opts, request)
                        && opens(reply, *slot, *final(slot), code, *final(last)),
            },
        },
        settled(code, *final(last)),
{
    match out {
        None => settle(Err(invalid_arg("null out pointer")), last),
        Some(slot) => {
            let path = match cstr(path) {
                Ok(path) => path,
                Err(e) => return settle(Err(e), last),
            };
            let request = match opts {
                None => OpenRequest::Defaults,
                Some(opts) => match build_options(opts) {
                    Ok(plan) => OpenRequest::Planned(plan),
                    Err(e) => return settle(Err(e), last),
                },
            };
            let reply = open(path, request);
            finish_open(reply, slot, last)
        },
    }
}

/// Open an existing on-disk database at `path` read-only with `open`, and write the handle to
/// `out`.
pub fn imbh_db_open_read_only<D, F: FnOnce(&str, OpenRequest) -> Result<D, EngineError>>(
    path: Option<&[u8]>,
    out: Option<&mut Option<imbh_db<D>>>,
    open: F,
    last: &mut LastError,
) -> (code: imbh_error)
    requires
        forall|text: &str|
            out is Some && says(path, text@) ==> #[trigger] open.requires(
                (text, OpenRequest::ReadOnly),
            ),
    ensures
        out is None ==> rejected(code, *final(last), "null out pointer"@),
        out matches Some(slot) ==> match c_string(path) {
            Err(reason) => rejected(code, *final(last), reason) && *final(slot) == *slot,
            Ok(text) => exists|path: &str, reply: Result<D, EngineError>| #[trigger]
                open.ensures((path, OpenRequest::ReadOnly), reply) && path@ == text && opens(
                    reply,
                    *slot,
                    *final(slot),
                    code,
                    *final(last),
                ),
        },
        settled(code, *final(last)),
{
    match out {
        None => settle(Err(invalid_arg("null out pointer")), last),
        Some(slot) => {
            let path = match cstr(path) {
                Ok(path) => path,
                Err(e) => return settle(Err(e), last),
            };
            let reply = open(path, OpenRequest::ReadOnly);
            finish_open(reply, slot, last)
        },
    }
}

/// The outcome of a call that hands nothing back, given the engine's reply.
pub open spec fn acknowledges(
    reply: Result<(), EngineError>,
    code: imbh_error,
    last: LastError,
) -> bool {
    match reply {
        Ok(()) => succeeded(code, last),
        Err(e) => engine_failed(code, last, e),
    }
}

/// Report the engine's reply to a call that hands nothing back.
pub fn acknowledge(reply: Result<(), EngineError>, last: &mut LastError) -> (code: imbh_error)
    ensures
        acknowledges(reply, code, *final(last)),
{
    match reply {
        Ok(()) => settle(Ok(()), last),
        Err(e) => settle(Err(CallError::Imbh(e)), last),
    }
}

/// Close the database with `close`. The handle stays valid until [`imbh_db_free`].
pub fn imbh_db_close<D, F: FnOnce(&imbh_db<D>) -> Result<(), EngineError>>(
    db: Option<&imbh_db<D>>,
    close: F,
    last: &mut LastError,
) -> (code: imbh_error)
    requires
        db matches Some(h) ==> close.requires((h,)),
    ensures
        db is None ==> rejected(code, *final(last), "null imbh_db handle"@),
        db matches Some(h) ==> exists|reply: Result<(), EngineError>| #[trigger]
            close.ensures((h,), reply) && acknowledges(reply, code, *final(last)),
        settled(code, *final(last)),
{
    match handle(db) {
        Err(e) => settle(Err(e), last),
        Ok(h) => acknowledge(close(h), last),
    }
}

/// Close with `close`, if there is a handle, and free it. A failure to close is ignored, so the
/// call always succeeds.
pub fn imbh_db_free<D, F: FnOnce(&imbh_db<D>) -> Result<(), EngineError>>(
    db: &mut Option<imbh_db<D>>,
    close: F,
    last: &mut LastError,
)
    requires
        *old(db) matches Some(h) ==> close.requires((&h,)),
    ensures
        *final(db) is None,
        *old(db) matches Some(h) ==> exists|reply: Result<(), EngineError>| #[trigger]
            close.ensures((&h,), reply),
        final(last)@ is None,
{
    clear_last_error(last);
    if let Some(h) = db.take() {
        let _ = close(&h);
    }
}

/// A database becomes a handle of itself and its runtime. Without a runtime there is no handle, and
/// the caller is told why.
pub proof fn handles_hold_their_database<D>(
    db: D,
    built: Result<tokio::runtime::Runtime, CallError>,
    out: &mut Option<imbh_db<D>>,
    last: &mut LastError,
    code: imbh_error,
    system: Result<tokio::runtime::Runtime, std::io::Error>,
    r: Result<tokio::runtime::Runtime, CallError>,
)
    requires
        call_ensures(place_handle::<D>, (db, built, out, last), code),
        call_ensures(runtime_or_failure, (system,), r),
    ensures
        built matches Ok(rt) ==> {
            &&& code == imbh_error::Success
            &&& final(last)@ is None
            &&& *final(out) matches Some(h) && h.db == db && h.rt == rt
        },
        built is Err ==> *final(out) == *old(out) && code != imbh_error::Success,
        built matches Err(CallError::InvalidArg(text)) ==> rejected(code, *final(last), text@),
        system matches Ok(rt) ==> r == Ok::<tokio::runtime::Runtime, CallError>(rt),
        system is Err ==> (r matches Err(CallError::InvalidArg(text)) && exists|reason: Seq<char>|
            text@ == "failed to build runtime: "@ + reason),
{
    if let Err(CallError::InvalidArg(text)) = r {
        if let Err(e) = system {
            let reason = choose|reason: String|
                vstd::string::to_string_from_display_ensures::<std::io::Error>(&e, reason) && text@
                    == "failed to build runtime: "@ + #[trigger] reason@;
            assert(text@ == "failed to build runtime: "@ + reason@);
        }
    }
}

/// A database is opened where and as the caller says: in memory, at the caller's path with the
/// engine's defaults, or at that path and only for reading. The handle holds the engine's database.
/// A failure is reported and leaves the caller's slot alone; beside the engine only the runtime can
/// fail.
pub proof fn databases_are_opened_as_asked<
    D,
    F: FnOnce() -> Result<D, EngineError>,
    G: FnOnce(&str, OpenRequest) -> Result<D, EngineError>,
>(
    path: &[u8],
    text: Seq<char>,
    out: &mut Option<imbh_db<D>>,
    in_memory: F,
    at_path: G,
    opened: Result<D, EngineError>,
    with_defaults: Result<D, EngineError>,
    for_reading: Result<D, EngineError>,
    last: &mut LastError,
    code: imbh_error,
)
    requires
        path@ == encode_utf8(text),
        forall|r: Result<D, EngineError>| #[trigger] in_memory.ensures((), r) ==> r == opened,
        forall|asked: &str, request: OpenRequest, r: Result<D, EngineError>| #[trigger]
            at_path.ensures((asked, request), r) && asked@ == text && request is Defaults ==> r
                == with_defaults,
        forall|asked: &str, request: OpenRequest, r: Result<D, EngineError>| #[trigger]
            at_path.ensures((asked, request), r) && asked@ == text && request is ReadOnly ==> r
                == for_reading,
    ensures
        call_ensures(imbh_db_open_memory::<D, F>, (Some(out), in_memory, last), code)
            ==> match opened {
            Err(e) => engine_failed(code, *final(last), e) && *final(out) == *old(out),
            Ok(d) => {
                &&& code == imbh_error::Success ==> (*final(out) matches Some(h) && h.db == d)
                &&& code != imbh_error::Success ==> *final(out) == *old(out) && exists|
                    reason: Seq<char>,
                | #[trigger]
                    rejected(code, *final(last), "failed to build runtime: "@ + reason)
            },
        },
        call_ensures(
            imbh_db_open::<D, G>,
            (Some(path), None::<&imbh_open_options<'_>>, Some(out), at_path, last),
            code,
        ) ==> match with_defaults {
            Err(e) => engine_failed(code, *final(last), e) && *final(out) == *old(out),
            Ok(d) => {
                &&& code == imbh_error::Success ==> (*final(out) matches Some(h) && h.db == d)
                &&& code != imbh_error::Success ==> *final(out) == *old(out) && exists|
                    reason: Seq<char>,
                | #[trigger]
                    rejected(code, *final(last), "failed to build runtime: "@ + reason)
            },
        },
        call_ensures(imbh_db_open_read_only::<D, G>, (Some(path), Some(out), at_path, last), code)
            ==> match for_reading {
            Err(e) => engine_failed(code, *final(last), e) && *final(out) == *old(out),
            Ok(d) => {
                &&& code == imbh_error::Success ==> (*final(out) matches Some(h) && h.db == d)
                &&& code != imbh_error::Success ==> *final(out) == *old(out) && exists|
                    reason: Seq<char>,
                | #[trigger]
                    rejected(code, *final(last), "failed to build runtime: "@ + reason)
            },
        },
{
    texts_survive_the_boundary(text, path);
}

/// Options are asked of the engine as they were planned, at the caller's path. Options that cannot
/// be read are refused and leave the caller's slot alone.
pub proof fn databases_are_opened_as_planned<
    D,
    G: FnOnce(&str, OpenRequest) -> Result<D, EngineError>,
>(
    path: &[u8],
    text: Seq<char>,
    opts: &imbh_open_options<'_>,
    keys: Result<Seq<Seq<char>>, Seq<char>>,
    out: &mut Option<imbh_db<D>>,
    open: G,
    reply: Result<D, EngineError>,
    last: &mut LastError,
    code: imbh_error,
)
    requires
        path@ == encode_utf8(text),
        keys == promoted_keys(opts.promote_keys, opts.promote_keys_len),
        forall|asked: &str, request: OpenRequest, r: Result<D, EngineError>| #[trigger]
            open.ensures((asked, request), r) && asked@ == text && (keys matches Ok(names) && (
            request matches OpenRequest::Planned(plan) && plans(*opts, names, plan))) ==> r
                == reply,
        call_ensures(
            imbh_db_open::<D, G>,
            (Some(path), Some(opts), Some(out), open, last),
            code,
        ),
    ensures
        keys matches Err(reason) ==> rejected(code, *final(last), reason) && *final(out)
            == *old(out),
        keys is Ok ==> match reply {
            Err(e) => engine_failed(code, *final(last), e) && *final(out) == *old(out),
            Ok(d) => {
                &&& code == imbh_error::Success ==> (*final(out) matches Some(h) && h.db == d)
                &&& code != imbh_error::Success ==> *final(out) == *old(out) && exists|
                    reason: Seq<char>,
                | #[trigger]
                    rejected(code, *final(last), "failed to build runtime: "@ + reason)
            },
        },
{
    texts_survive_the_boundary(text, path);
}

/// Closing reports what the engine replies. Freeing closes the handle, empties its slot and reports
/// nothing, whatever the engine replies.
pub proof fn closing_reports_and_freeing_does_not<
    D,
    F: FnOnce(&imbh_db<D>) -> Result<(), EngineError>,
>(
    db: &imbh_db<D>,
    slot: &mut Option<imbh_db<D>>,
    close: F,
    reply: Result<(), EngineError>,
    last: &mut LastError,
    code: imbh_error,
)
    requires
        forall|r: Result<(), EngineError>| #[trigger] close.ensures((db,), r) ==> r == reply,
        *old(slot) == Some(*db),
    ensures
        call_ensures(imbh_db_close::<D, F>, (Some(db), close, last), code) ==> match reply {
            Err(e) => engine_failed(code, *final(last), e),
            Ok(()) => code == imbh_error::Success && final(last)@ is None,
        },
        call_ensures(imbh_db_free::<D, F>, (slot, close, last), ()) ==> {
            &&& *final(slot) is None
            &&& final(last)@ is None
            &&& close.ensures((db,), reply)
        },
{
}

/// A runtime is built, or the report says that it was not and why. A reply to an open call ends as
/// the call that it answers, and one that hands nothing back is acknowledged as it is.
pub proof fn replies_end_their_calls<D>(
    built: Result<tokio::runtime::Runtime, CallError>,
    reply: Result<D, EngineError>,
    out: &mut Option<imbh_db<D>>,
    last: &mut LastError,
    code: imbh_error,
    done: Result<(), EngineError>,
    slot: &mut LastError,
    done_code: imbh_error,
)
    requires
        call_ensures(new_runtime, (), built),
        call_ensures(finish_open::<D>, (reply, out, last), code),
        call_ensures(acknowledge, (done, slot), done_code),
    ensures
        built matches Err(e) ==> (e matches CallError::InvalidArg(text) && exists|reason: Seq<char>|
            text@ == #[trigger] ("failed to build runtime: "@ + reason)),
        reply matches Err(e) ==> engine_failed(code, *final(last), e) && *final(out) == *old(out),
        reply matches Ok(d) ==> (code == imbh_error::Success ==> (*final(out) matches Some(h)
            && h.db == d)),
        reply is Ok && code != imbh_error::Success ==> *final(out) == *old(out) && code
            == imbh_error::InvalidArg,
        done is Ok ==> done_code == imbh_error::Success && final(slot)@ is None,
        done matches Err(e) ==> engine_failed(done_code, *final(slot), e),
{
    if let Err(CallError::InvalidArg(text)) = built {
        let e = choose|e: std::io::Error| #[trigger] reports_failure(e, text@);
        let reason = choose|reason: String|
            vstd::string::to_string_from_display_ensures::<std::io::Error>(&e, reason) && text@
                == "failed to build runtime: "@ + #[trigger] reason@;
        assert(text@ == "failed to build runtime: "@ + reason@);
    }
}

/// No database is opened into a null output or from a null path, and a null handle is not closed.
/// Each is refused with its own message, and a refused path leaves the caller's slot alone.
pub proof fn opening_and_closing_refuse_nulls<
    D,
    F: FnOnce() -> Result<D, EngineError>,
    G: FnOnce(&str, OpenRequest) -> Result<D, EngineError>,
    H: FnOnce(&imbh_db<D>) -> Result<(), EngineError>,
>(
    path: Option<&[u8]>,
    opts: Option<&imbh_open_options<'_>>,
    out: &mut Option<imbh_db<D>>,
    in_memory: F,
    at_path: G,
    close: H,
    last: &mut LastError,
    code: imbh_error,
)
    ensures
        call_ensures(
            imbh_db_open_memory::<D, F>,
            (None::<&mut Option<imbh_db<D>>>, in_memory, last),
            code,
        ) ==> rejected(code, *final(last), "null out pointer"@),
        call_ensures(
            imbh_db_open::<D, G>,
            (path, opts, None::<&mut Option<imbh_db<D>>>, at_path, last),
            code,
        ) ==> rejected(code, *final(last), "null out pointer"@),
        call_ensures(
            imbh_db_open_read_only::<D, G>,
            (path, None::<&mut Option<imbh_db<D>>>, at_path, last),
            code,
        ) ==> rejected(code, *final(last), "null out pointer"@),
        call_ensures(
            imbh_db_open::<D, G>,
            (None::<&[u8]>, opts, Some(out), at_path, last),
            code,
        ) ==> rejected(code, *final(last), "null string pointer"@) && *final(out) == *old(out),
        call_ensures(
            imbh_db_open_read_only::<D, G>,
            (None::<&[u8]>, Some(out), at_path, last),
            code,
        ) ==> rejected(code, *final(last), "null string pointer"@) && *final(out) == *old(out),
        call_ensures(imbh_db_close::<D, H>, (None::<&imbh_db<D>>, close, last), code) ==> rejected(
            code,
            *final(last),
            "null imbh_db handle"@,
        ),
{
}

} // verus!

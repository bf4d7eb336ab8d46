//! Open options and the configuration they ask for.

use vstd::prelude::*;

use crate::args::{
    arrays_are_read_in_order, c_string, holds_strings, promoted_keys, read_promote_keys,
};
use crate::error::CallError;
use crate::text::texts;

verus! {

/// WAL fsync policy of an on-disk database.
#[derive(Debug, Clone, Copy, PartialEq, Eq, Structural)]
pub enum imbh_wal_mode {
    /// Never fsync inline; durability follows the OS.
    Off,
    /// Fsync at most every `wal_interval_ms` (0 means 1000 ms).
    Interval,
    /// Fsync every ingest before returning.
    Always,
}

impl imbh_wal_mode {
    /// The number of the policy on the C side.
    pub open spec fn number(self) -> i32 {
        match self {
            imbh_wal_mode::Off => 0,
            imbh_wal_mode::Interval => 1,
            imbh_wal_mode::Always => 2,
        }
    }

    /// The number that crosses the C boundary.
    pub fn code(self) -> (number: i32)
        ensures
            number == self.number(),
    {
        match self {
            imbh_wal_mode::Off => 0,
            imbh_wal_mode::Interval => 1,
            imbh_wal_mode::Always => 2,
        }
    }
}

/// Segment compression codec.
#[derive(Debug, Clone, Copy, PartialEq, Eq, Structural)]
pub enum imbh_compression {
    /// No compression (`IMBH_COMPRESSION_NONE`).
    Uncompressed,
    Lz4,
    /// Zstd at `zstd_level` (0 means level 3).
    Zstd,
}

impl imbh_compression {
    /// The number of the codec on the C side.
    pub open spec fn number(self) -> i32 {
        match self {
            imbh_compression::Uncompressed => 0,
            imbh_compression::Lz4 => 1,
            imbh_compression::Zstd => 2,
        }
    }

    /// The number that crosses the C boundary.
    pub fn code(self) -> (number: i32)
        ensures
            number == self.number(),
    {
        match self {
            imbh_compression::Uncompressed => 0,
            imbh_compression::Lz4 => 1,
            imbh_compression::Zstd => 2,
        }
    }
}

/// Read-only snapshot refresh policy.
#[derive(Debug, Clone, Copy, PartialEq, Eq, Structural)]
pub enum imbh_refresh_mode {
    /// Leave the engine's default policy in place.
    Default,
    /// Re-scan the manifest on every query.
    OnQuery,
    /// Never auto-refresh.
    Manual,
    /// Refresh when the snapshot is older than `refresh_ttl_ms`.
    Ttl,
}

impl imbh_refresh_mode {
    /// The number of the policy on the C side.
    pub open spec fn number(self) -> i32 {
        match self {
            imbh_refresh_mode::Default => 0,
            imbh_refresh_mode::OnQuery => 1,
            imbh_refresh_mode::Manual => 2,
            imbh_refresh_mode::Ttl => 3,
        }
    }

    /// The number that crosses the C boundary.
    pub fn code(self) -> (number: i32)
        ensures
            number == self.number(),
    {
        match self {
            imbh_refresh_mode::Default => 0,
            imbh_refresh_mode::OnQuery => 1,
            imbh_refresh_mode::Manual => 2,
            imbh_refresh_mode::Ttl => 3,
        }
    }
}

/// On-disk open options. Each field is honoured only for its mode: `wal_interval_ms` for
/// `Interval`, `zstd_level` for `Zstd`, `refresh_ttl_ms` for `Ttl`, and `promote_keys_len` for
/// `promote_keys` that are not null. Every numeric field treats `0` as "engine default".
///
/// A zeroed struct is a request for all the defaults. Two readings of the zero fsync policy and the
/// zero codec follow from that, and this is the one meant: as long as no honoured field asks for
/// anything, `Off` and `Uncompressed` leave the engine's own policy and codec in place; as soon as
/// one does (a retention, say), the caller has filled the struct in, and they mean what they say.
/// So every policy and every codec can be asked for.
///
/// `promote_keys` holds at least `promote_keys_len` C strings unless it is null.
pub struct imbh_open_options<'a> {
    pub wal_mode: imbh_wal_mode,
    pub wal_interval_ms: u64,
    pub compression: imbh_compression,
    pub zstd_level: i32,
    pub read_only: bool,
    pub allow_stale_reads: bool,
    /// In-memory buffer cap in bytes.
    pub memory_budget_bytes: u64,
    /// Drop data older than this many days.
    pub retention_days: u64,
    /// Bound on the on-disk segment bytes.
    pub max_disk_bytes: u64,
    pub refresh: imbh_refresh_mode,
    /// Applies only when `refresh` is `Ttl`.
    pub refresh_ttl_ms: u64,
    /// Run background maintenance every so many milliseconds.
    pub maintenance_background_ms: u64,
    /// Attribute keys to promote to dedicated columns.
    pub promote_keys: Option<&'a [Option<&'a [u8]>]>,
    pub promote_keys_len: usize,
}

/// The fsync policy asked of the engine.
#[derive(Debug, Clone, Copy, PartialEq, Eq, Structural)]
pub enum WalMode {
    Off,
    IntervalMs(u64),
    Always,
}

/// The codec asked of the engine.
#[derive(Debug, Clone, Copy, PartialEq, Eq, Structural)]
pub enum Compression {
    Uncompressed,
    Lz4,
    Zstd(i32),
}

/// The refresh policy asked of the engine.
#[derive(Debug, Clone, Copy, PartialEq, Eq, Structural)]
pub enum Refresh {
    OnQuery,
    Manual,
    TtlMs(u64),
}

/// The retention asked of the engine: an age bound in days, a size bound in bytes, or both.
#[derive(Debug, Clone, Copy, PartialEq, Eq, Structural)]
pub struct Retention {
    pub days: Option<u64>,
    pub max_disk_bytes: Option<u64>,
}

/// The configuration asked of the engine. A `None` leaves the engine's default in place.
#[derive(Debug)]
pub struct OpenPlan {
    pub wal: WalMode,
    pub compression: Compression,
    pub read_only: bool,
    pub allow_stale_reads: bool,
    pub memory_budget: Option<usize>,
    pub retention: Option<Retention>,
    pub refresh: Option<Refresh>,
    pub maintenance_background_ms: Option<u64>,
    /// Empty when nothing is promoted.
    pub promote: Vec<String>,
}

/// A field in which `0` leaves the default in place.
pub open spec fn unless_zero(n: u64) -> Option<u64> {
    if n == 0 {
        None
    } else {
        Some(n)
    }
}

/// The engine's own fsync policy: at most every second.
pub open spec fn default_wal() -> WalMode {
    WalMode::IntervalMs(1000)
}

/// The engine's own codec: zstd at level 3.
pub open spec fn default_compression() -> Compression {
    Compression::Zstd(3)
}

/// The options promote no key: the array is null or empty.
pub open spec fn promotes_nothing(opts: imbh_open_options<'_>) -> bool {
    opts.promote_keys is None || opts.promote_keys_len == 0
}

/// Every field of the options that is honoured is zero.
pub open spec fn is_zeroed(opts: imbh_open_options<'_>) -> bool {
    &&& opts.wal_mode == imbh_wal_mode::Off
    &&& opts.compression == imbh_compression::Uncompressed
    &&& !opts.read_only
    &&& !opts.allow_stale_reads
    &&& opts.memory_budget_bytes == 0
    &&& opts.retention_days == 0
    &&& opts.max_disk_bytes == 0
    &&& opts.refresh == imbh_refresh_mode::Default
    &&& opts.maintenance_background_ms == 0
    &&& promotes_nothing(opts)
}

/// The fsync policy that the options ask for.
pub open spec fn planned_wal(opts: imbh_open_options<'_>) -> WalMode {
    if is_zeroed(opts) {
        default_wal()
    } else {
        match opts.wal_mode {
            imbh_wal_mode::Off => WalMode::Off,
            imbh_wal_mode::Always => WalMode::Always,
            imbh_wal_mode::Interval => WalMode::IntervalMs(
                if opts.wal_interval_ms == 0 {
                    1000
                } else {
                    opts.wal_interval_ms
                },
            ),
        }
    }
}

/// The codec that the options ask for.
pub open spec fn planned_compression(opts: imbh_open_options<'_>) -> Compression {
    if is_zeroed(opts) {
        default_compression()
    } else {
        match opts.compression {
            imbh_compression::Uncompressed => Compression::Uncompressed,
            imbh_compression::Lz4 => Compression::Lz4,
            imbh_compression::Zstd => Compression::Zstd(
                if opts.zstd_level == 0 {
                    3
                } else {
                    opts.zstd_level
                },
            ),
        }
    }
}

/// The retention that the options ask for: none at all when neither bound is set.
pub open spec fn planned_retention(opts: imbh_open_options<'_>) -> Option<Retention> {
    if opts.retention_days == 0 && opts.max_disk_bytes == 0 {
        None
    } else {
        Some(
            Retention {
                days: unless_zero(opts.retention_days),
                max_disk_bytes: unless_zero(opts.max_disk_bytes),
            },
        )
    }
}

/// The refresh policy that the options ask for.
pub open spec fn planned_refresh(opts: imbh_open_options<'_>) -> Option<Refresh> {
    match opts.refresh {
        imbh_refresh_mode::Default => None,
        imbh_refresh_mode::OnQuery => Some(Refresh::OnQuery),
        imbh_refresh_mode::Manual => Some(Refresh::Manual),
        imbh_refresh_mode::Ttl => Some(Refresh::TtlMs(opts.refresh_ttl_ms)),
    }
}

/// `plan` is what the options ask for, with `keys` promoted.
pub open spec fn plans(opts: imbh_open_options<'_>, keys: Seq<Seq<char>>, plan: OpenPlan) -> bool {
    &&& plan.wal == planned_wal(opts)
    &&& plan.compression == planned_compression(opts)
    &&& plan.read_only == opts.read_only
    &&& plan.allow_stale_reads == opts.allow_stale_reads
    &&& plan.memory_budget == (if opts.memory_budget_bytes == 0 {
        None::<usize>
    } else {
        Some(opts.memory_budget_bytes as usize)
    })
    &&& plan.retention == planned_retention(opts)
    &&& plan.refresh == planned_refresh(opts)
    &&& plan.maintenance_background_ms == unless_zero(opts.maintenance_background_ms)
    &&& texts(plan.promote@) == keys
}

/// A bound of which `0` means that there is none.
fn bound(n: u64) -> (r: Option<u64>)
    ensures
        r == unless_zero(n),
{
    if n > 0 {
        Some(n)
    } else {
        None
    }
}

/// Whether every field of the options that is honoured is zero.
fn zeroed(opts: &imbh_open_options<'_>) -> (r: bool)
    ensures
        r == is_zeroed(*opts),
{
    opts.wal_mode == imbh_wal_mode::Off && opts.compression == imbh_compression::Uncompressed
        && !opts.read_only && !opts.allow_stale_reads && opts.memory_budget_bytes == 0
        && opts.retention_days == 0 && opts.max_disk_bytes == 0 && opts.refresh
        == imbh_refresh_mode::Default && opts.maintenance_background_ms == 0 && (
    opts.promote_keys.is_none() || opts.promote_keys_len == 0)
}

/// Work out the configuration that the options ask for. The only failure is an unreadable promoted
/// key.
pub fn build_options(opts: &imbh_open_options<'_>) -> (r: Result<OpenPlan, CallError>)
    requires
        holds_strings(opts.promote_keys, opts.promote_keys_len),
    ensures
        match promoted_keys(opts.promote_keys, opts.promote_keys_len) {
            Ok(keys) => r matches Ok(plan) && plans(*opts, keys, plan),
            Err(reason) => r matches Err(CallError::InvalidArg(text)) && text@ == reason,
        },
{
    let all_defaults = zeroed(opts);
    let wal = match opts.wal_mode {
        imbh_wal_mode::Off => if all_defaults {
            WalMode::IntervalMs(1000)
        } else {
            WalMode::Off
        },
        imbh_wal_mode::Always => WalMode::Always,
        imbh_wal_mode::Interval => {
            let ms: u64 = if opts.wal_interval_ms == 0 {
                1000
            } else {
                opts.wal_interval_ms
            };
            WalMode::IntervalMs(ms)
        },
    };
    let compression = match opts.compression {
        imbh_compression::Uncompressed => if all_defaults {
            Compression::Zstd(3)
        } else {
            Compression::Uncompressed
        },
        imbh_compression::Lz4 => Compression::Lz4,
        imbh_compression::Zstd => {
            let level: i32 = if opts.zstd_level == 0 {
                3
            } else {
                opts.zstd_level
            };
            Compression::Zstd(level)
        },
    };
    let memory_budget: Option<usize> = if opts.memory_budget_bytes > 0 {
        Some(opts.memory_budget_bytes as usize)
    } else {
        None
    };
    let retention = if opts.retention_days > 0 || opts.max_disk_bytes > 0 {
        Some(
            Retention {
                days: bound(opts.retention_days),
                max_disk_bytes: bound(opts.max_disk_bytes),
            },
        )
    } else {
        None
    };
    let refresh = match opts.refresh {
        imbh_refresh_mode::Default => None,
        imbh_refresh_mode::OnQuery => Some(Refresh::OnQuery),
        imbh_refresh_mode::Manual => Some(Refresh::Manual),
        imbh_refresh_mode::Ttl => Some(Refresh::TtlMs(opts.refresh_ttl_ms)),
    };
    match read_promote_keys(opts.promote_keys, opts.promote_keys_len) {
        Err(e) => Err(e),
        Ok(promote) => Ok(
            OpenPlan {
                wal,
                compression,
                read_only: opts.read_only,
                allow_stale_reads: opts.allow_stale_reads,
                memory_budget,
                retention,
                refresh,
                maintenance_background_ms: bound(opts.maintenance_background_ms),
                promote,
            },
        ),
    }
}

/// Distinct modes have distinct numbers.
pub proof fn modes_are_told_apart_by_number()
    ensures
        forall|a: imbh_wal_mode, b: imbh_wal_mode| #[trigger]
            a.number() == #[trigger] b.number() ==> a == b,
        forall|a: imbh_compression, b: imbh_compression| #[trigger]
            a.number() == #[trigger] b.number() ==> a == b,
        forall|a: imbh_refresh_mode, b: imbh_refresh_mode| #[trigger]
            a.number() == #[trigger] b.number() ==> a == b,
{
}

/// The plan opens read-write with the engine's defaults throughout.
pub open spec fn leaves_the_defaults(plan: OpenPlan) -> bool {
    &&& plan.wal == default_wal()
    &&& plan.compression == default_compression()
    &&& !plan.read_only
    &&& !plan.allow_stale_reads
    &&& plan.memory_budget is None
    &&& plan.retention is None
    &&& plan.refresh is None
    &&& plan.maintenance_background_ms is None
    &&& plan.promote@.len() == 0
}

/// The options differ at most in fields that are not honoured.
pub open spec fn ask_the_same(a: imbh_open_options<'_>, b: imbh_open_options<'_>) -> bool {
    &&& a.wal_mode == b.wal_mode
    &&& a.wal_mode == imbh_wal_mode::Interval ==> a.wal_interval_ms == b.wal_interval_ms
    &&& a.compression == b.compression
    &&& a.compression == imbh_compression::Zstd ==> a.zstd_level == b.zstd_level
    &&& a.read_only == b.read_only
    &&& a.allow_stale_reads == b.allow_stale_reads
    &&& a.memory_budget_bytes == b.memory_budget_bytes
    &&& a.retention_days == b.retention_days
    &&& a.max_disk_bytes == b.max_disk_bytes
    &&& a.refresh == b.refresh
    &&& a.refresh == imbh_refresh_mode::Ttl ==> a.refresh_ttl_ms == b.refresh_ttl_ms
    &&& a.maintenance_background_ms == b.maintenance_background_ms
    &&& promotes_nothing(a) == promotes_nothing(b)
    &&& !promotes_nothing(a) ==> a.promote_keys == b.promote_keys && a.promote_keys_len
        == b.promote_keys_len
}

/// A field counts only in its mode: options that differ at most in fields that are not honoured are
/// refused for the same reason, or promote the same keys and plan the same.
pub proof fn fields_count_only_in_their_mode(a: imbh_open_options<'_>, b: imbh_open_options<'_>)
    requires
        ask_the_same(a, b),
    ensures
        promoted_keys(a.promote_keys, a.promote_keys_len) == promoted_keys(
            b.promote_keys,
            b.promote_keys_len,
        ),
        forall|keys: Seq<Seq<char>>, plan: OpenPlan| #[trigger]
            plans(a, keys, plan) == plans(b, keys, plan),
{
}

/// Zeroed options are a request for all the defaults.
pub proof fn zeroed_options_ask_for_the_defaults(opts: imbh_open_options<'_>, plan: OpenPlan)
    requires
        is_zeroed(opts),
        promoted_keys(opts.promote_keys, opts.promote_keys_len) matches Ok(keys) && plans(
            opts,
            keys,
            plan,
        ),
    ensures
        leaves_the_defaults(plan),
{
    assert(texts(plan.promote@).len() == plan.promote@.len());
}

/// A zero in a numeric field leaves the engine's default in place, and so does the default refresh
/// policy.
pub proof fn zero_fields_leave_the_defaults(
    opts: imbh_open_options<'_>,
    keys: Seq<Seq<char>>,
    plan: OpenPlan,
)
    requires
        plans(opts, keys, plan),
    ensures
        opts.memory_budget_bytes == 0 <==> plan.memory_budget is None,
        opts.retention_days == 0 && opts.max_disk_bytes == 0 <==> plan.retention is None,
        opts.retention_days == 0 ==> (plan.retention matches Some(r) ==> r.days is None),
        opts.max_disk_bytes == 0 ==> (plan.retention matches Some(r) ==> r.max_disk_bytes is None),
        opts.refresh == imbh_refresh_mode::Default <==> plan.refresh is None,
        opts.maintenance_background_ms == 0 <==> plan.maintenance_background_ms is None,
        opts.wal_mode == imbh_wal_mode::Interval && opts.wal_interval_ms == 0 ==> plan.wal
            == default_wal(),
        opts.compression == imbh_compression::Zstd && opts.zstd_level == 0 ==> plan.compression
            == default_compression(),
{
}

/// Options are refused only for a promoted key that cannot be read.
pub proof fn options_fail_only_on_an_unreadable_key(opts: imbh_open_options<'_>)
    requires
        holds_strings(opts.promote_keys, opts.promote_keys_len),
    ensures
        promoted_keys(opts.promote_keys, opts.promote_keys_len) is Err <==> (
        opts.promote_keys matches Some(items) && exists|i: int|
            0 <= i < opts.promote_keys_len && c_string(#[trigger] items@[i]) is Err),
{
    if let Some(items) = opts.promote_keys {
        arrays_are_read_in_order(items@, opts.promote_keys_len as nat);
    }
}

/// Every mode crosses the boundary as the number that the header gives it.
pub proof fn modes_have_the_numbers_of_the_header(
    wal: (imbh_wal_mode, i32),
    compression: (imbh_compression, i32),
    refresh: (imbh_refresh_mode, i32),
)
    requires
        call_ensures(imbh_wal_mode::code, (wal.0,), wal.1),
        call_ensures(imbh_compression::code, (compression.0,), compression.1),
        call_ensures(imbh_refresh_mode::code, (refresh.0,), refresh.1),
    ensures
        wal.0 == imbh_wal_mode::Off <==> wal.1 == 0,
        wal.0 == imbh_wal_mode::Interval <==> wal.1 == 1,
        wal.0 == imbh_wal_mode::Always <==> wal.1 == 2,
        compression.0 == imbh_compression::Uncompressed <==> compression.1 == 0,
        compression.0 == imbh_compression::Lz4 <==> compression.1 == 1,
        compression.0 == imbh_compression::Zstd <==> compression.1 == 2,
        refresh.0 == imbh_refresh_mode::Default <==> refresh.1 == 0,
        refresh.0 == imbh_refresh_mode::OnQuery <==> refresh.1 == 1,
        refresh.0 == imbh_refresh_mode::Manual <==> refresh.1 == 2,
        refresh.0 == imbh_refresh_mode::Ttl <==> refresh.1 == 3,
        wal.0.number() == wal.1,
        compression.0.number() == compression.1,
        refresh.0.number() == refresh.1,
{
}

/// The options ask for nothing: no honoured field is set.
pub open spec fn asks_for_nothing(opts: imbh_open_options<'_>) -> bool {
    opts.wal_mode == imbh_wal_mode::Off && opts.compression == imbh_compression::Uncompressed
        && !opts.read_only && !opts.allow_stale_reads && opts.memory_budget_bytes == 0
        && opts.retention_days == 0 && opts.max_disk_bytes == 0 && opts.refresh
        == imbh_refresh_mode::Default && opts.maintenance_background_ms == 0 && (
    opts.promote_keys is None || opts.promote_keys_len == 0)
}

/// Each field that is set asks for something, and options without one ask for nothing.
pub proof fn every_field_that_is_set_asks_for_something(opts: imbh_open_options<'_>)
    ensures
        opts.wal_mode != imbh_wal_mode::Off ==> !asks_for_nothing(opts),
        opts.compression != imbh_compression::Uncompressed ==> !asks_for_nothing(opts),
        opts.read_only ==> !asks_for_nothing(opts),
        opts.allow_stale_reads ==> !asks_for_nothing(opts),
        opts.memory_budget_bytes > 0 ==> !asks_for_nothing(opts),
        opts.retention_days > 0 ==> !asks_for_nothing(opts),
        opts.max_disk_bytes > 0 ==> !asks_for_nothing(opts),
        opts.refresh != imbh_refresh_mode::Default ==> !asks_for_nothing(opts),
        opts.maintenance_background_ms > 0 ==> !asks_for_nothing(opts),
        opts.promote_keys is Some && opts.promote_keys_len > 0 ==> !asks_for_nothing(opts),
        !asks_for_nothing(opts) ==> opts.wal_mode != imbh_wal_mode::Off || opts.compression
            != imbh_compression::Uncompressed || opts.read_only || opts.allow_stale_reads
            || opts.memory_budget_bytes > 0 || opts.retention_days > 0 || opts.max_disk_bytes > 0
            || opts.refresh != imbh_refresh_mode::Default || opts.maintenance_background_ms > 0 || (
        opts.promote_keys is Some && opts.promote_keys_len > 0),
{
}

/// What is planned is what the caller set, field by field: each field reaches its own place in the
/// plan with its own value, a number that is not set leaves the default, and the modes are the
/// caller's unless nothing at all is asked for.
pub proof fn plans_hold_what_was_set(
    opts: &imbh_open_options<'_>,
    keys: Seq<Seq<char>>,
    r: Result<OpenPlan, CallError>,
)
    requires
        holds_strings(opts.promote_keys, opts.promote_keys_len),
        call_ensures(build_options, (opts,), r),
        promoted_keys(opts.promote_keys, opts.promote_keys_len) == Ok::<
            Seq<Seq<char>>,
            Seq<char>,
        >(keys),
    ensures
        r is Ok,
        r matches Ok(plan) ==> {
            &&& opts.wal_mode == imbh_wal_mode::Always ==> plan.wal == WalMode::Always
            &&& opts.wal_mode == imbh_wal_mode::Interval && opts.wal_interval_ms > 0 ==> plan.wal
                == WalMode::IntervalMs(opts.wal_interval_ms)
            &&& opts.wal_mode == imbh_wal_mode::Interval && opts.wal_interval_ms == 0 ==> plan.wal
                == WalMode::IntervalMs(1000)
            &&& opts.wal_mode == imbh_wal_mode::Off && !asks_for_nothing(*opts) ==> plan.wal
                == WalMode::Off
            &&& asks_for_nothing(*opts) ==> plan.wal == WalMode::IntervalMs(1000)
            &&& opts.compression == imbh_compression::Lz4 ==> plan.compression == Compression::Lz4
            &&& opts.compression == imbh_compression::Zstd && opts.zstd_level != 0
                ==> plan.compression == Compression::Zstd(opts.zstd_level)
            &&& opts.compression == imbh_compression::Zstd && opts.zstd_level == 0
                ==> plan.compression == Compression::Zstd(3)
            &&& opts.compression == imbh_compression::Uncompressed && !asks_for_nothing(*opts)
                ==> plan.compression == Compression::Uncompressed
            &&& asks_for_nothing(*opts) ==> plan.compression == Compression::Zstd(3)
            &&& plan.read_only == opts.read_only
            &&& plan.allow_stale_reads == opts.allow_stale_reads
        },
        r matches Ok(plan) ==> {
            &&& opts.memory_budget_bytes == 0 <==> plan.memory_budget is None
            &&& 0 < opts.memory_budget_bytes <= usize::MAX ==> (plan.memory_budget matches Some(n)
                && n == opts.memory_budget_bytes)
            &&& plan.retention is None <==> opts.retention_days == 0 && opts.max_disk_bytes == 0
            &&& plan.retention matches Some(kept) ==> {
                &&& opts.retention_days > 0 ==> kept.days == Some(opts.retention_days)
                &&& opts.retention_days == 0 ==> kept.days is None
                &&& opts.max_disk_bytes > 0 ==> kept.max_disk_bytes == Some(opts.max_disk_bytes)
                &&& opts.max_disk_bytes == 0 ==> kept.max_disk_bytes is None
            }
            &&& opts.refresh == imbh_refresh_mode::Default ==> plan.refresh is None
            &&& opts.refresh == imbh_refresh_mode::OnQuery ==> plan.refresh == Some(
                Refresh::OnQuery,
            )
            &&& opts.refresh == imbh_refresh_mode::Manual ==> plan.refresh == Some(Refresh::Manual)
            &&& opts.refresh == imbh_refresh_mode::Ttl ==> plan.refresh == Some(
                Refresh::TtlMs(opts.refresh_ttl_ms),
            )
            &&& opts.maintenance_background_ms == 0 ==> plan.maintenance_background_ms is None
            &&& opts.maintenance_background_ms > 0 ==> plan.maintenance_background_ms == Some(
                opts.maintenance_background_ms,
            )
            &&& plan.promote@.len() == keys.len()
            &&& forall|i: int| 0 <= i < keys.len() ==> (#[trigger] plan.promote@[i])@ == keys[i]
        },
{
    if let Ok(plan) = r {
        assert(texts(plan.promote@).len() == plan.promote@.len());
        assert forall|i: int| 0 <= i < keys.len() implies (#[trigger] plan.promote@[i])@
            == keys[i] by {
            assert(texts(plan.promote@)[i] == plan.promote@[i]@);
        }
    }
}

} // verus!

//! Reading the arguments of a call, and the open options.

use imbh_c::args::{bytes, cstr, handle, read_promote_keys, read_str, read_str_array};
use imbh_c::error::CallError;
use imbh_c::options::{build_options, Compression, Refresh, Retention, WalMode};
use imbh_c::table::{table_to_c, Table};
use imbh_c::{imbh_compression, imbh_open_options, imbh_refresh_mode, imbh_table, imbh_wal_mode};

fn refusal<T>(r: Result<T, CallError>) -> String {
    match r {
        Err(CallError::InvalidArg(reason)) => reason,
        _ => panic!("expected a refused argument"),
    }
}

#[test]
fn strings_are_read_or_refused() {
    assert_eq!(cstr(Some("grüße".as_bytes())).unwrap(), "grüße");
    assert_eq!(cstr(Some(b"")).unwrap(), "");
    assert_eq!(refusal(cstr(None)), "null string pointer");
    assert_eq!(refusal(cstr(Some(b"\xff"))), "string is not valid UTF-8");
    assert_eq!(read_str(Some(b"checkout")).unwrap(), "checkout");
    assert_eq!(refusal(read_str(None)), "null string pointer");
}

#[test]
fn handles_and_buffers_are_checked() {
    assert_eq!(*handle(Some(&7)).unwrap(), 7);
    assert_eq!(refusal(handle::<u8>(None)), "null imbh_db handle");
    assert_eq!(bytes(Some(b"abcdef"), 3).unwrap(), b"abc");
    assert_eq!(bytes(None, 0).unwrap(), b"");
    assert_eq!(refusal(bytes(None, 1)), "null buffer pointer");
}

#[test]
fn arrays_are_read_in_order_up_to_the_first_refusal() {
    let items: [Option<&[u8]>; 3] = [Some(b"a"), Some(b"b"), None];
    assert_eq!(read_str_array(Some(&items), 2).unwrap(), vec!["a", "b"]);
    assert_eq!(refusal(read_str_array(Some(&items), 3)), "null string pointer");
    let items: [Option<&[u8]>; 2] = [Some(b"\xc0"), None];
    assert_eq!(refusal(read_str_array(Some(&items), 2)), "string is not valid UTF-8");
    assert!(read_str_array(None, 0).unwrap().is_empty());
    assert_eq!(refusal(read_str_array(None, 1)), "null values array");
}

#[test]
fn null_promote_keys_mean_none() {
    assert!(read_promote_keys(None, 5).unwrap().is_empty());
    let items: [Option<&[u8]>; 1] = [Some(b"k")];
    assert!(read_promote_keys(Some(&items), 0).unwrap().is_empty());
    assert_eq!(read_promote_keys(Some(&items), 1).unwrap(), vec!["k"]);
}

fn zeroed<'a>() -> imbh_open_options<'a> {
    imbh_open_options {
        wal_mode: imbh_wal_mode::Off,
        wal_interval_ms: 0,
        compression: imbh_compression::Uncompressed,
        zstd_level: 0,
        read_only: false,
        allow_stale_reads: false,
        memory_budget_bytes: 0,
        retention_days: 0,
        max_disk_bytes: 0,
        refresh: imbh_refresh_mode::Default,
        refresh_ttl_ms: 0,
        maintenance_background_ms: 0,
        promote_keys: None,
        promote_keys_len: 0,
    }
}

#[test]
fn a_zeroed_struct_asks_for_all_the_defaults() {
    let plan = build_options(&zeroed()).unwrap();
    assert_eq!(plan.wal, WalMode::IntervalMs(1000));
    assert_eq!(plan.compression, Compression::Zstd(3));
    assert!(!plan.read_only);
    assert!(!plan.allow_stale_reads);
    assert_eq!(plan.memory_budget, None);
    assert_eq!(plan.retention, None);
    assert_eq!(plan.refresh, None);
    assert_eq!(plan.maintenance_background_ms, None);
    assert!(plan.promote.is_empty());
}

#[test]
fn fields_count_only_in_their_mode() {
    let keys: [Option<&[u8]>; 1] = [Some(b"k")];
    let mut opts = zeroed();
    opts.wal_interval_ms = 5;
    opts.zstd_level = 9;
    opts.refresh_ttl_ms = 7;
    opts.promote_keys_len = 4;
    let plan = build_options(&opts).unwrap();
    assert_eq!(plan.wal, WalMode::IntervalMs(1000));
    assert_eq!(plan.compression, Compression::Zstd(3));
    assert_eq!(plan.refresh, None);
    assert!(plan.promote.is_empty());

    // An array without keys promotes none either.
    opts.promote_keys = Some(&keys);
    opts.promote_keys_len = 0;
    let plan = build_options(&opts).unwrap();
    assert_eq!(plan.wal, WalMode::IntervalMs(1000));
    assert_eq!(plan.compression, Compression::Zstd(3));

    // A key counts.
    opts.promote_keys_len = 1;
    let plan = build_options(&opts).unwrap();
    assert_eq!(plan.wal, WalMode::Off);
    assert_eq!(plan.compression, Compression::Uncompressed);
    assert_eq!(plan.promote, vec!["k"]);
}

#[test]
fn zero_modes_count_once_another_field_is_set() {
    let mut opts = zeroed();
    opts.retention_days = 7;
    let plan = build_options(&opts).unwrap();
    assert_eq!(plan.wal, WalMode::Off);
    assert_eq!(plan.compression, Compression::Uncompressed);
    assert_eq!(plan.retention, Some(Retention { days: Some(7), max_disk_bytes: None }));
}

#[test]
fn zero_numbers_leave_the_defaults_of_their_modes() {
    let mut opts = zeroed();
    opts.wal_mode = imbh_wal_mode::Interval;
    opts.compression = imbh_compression::Zstd;
    let plan = build_options(&opts).unwrap();
    assert_eq!(plan.wal, WalMode::IntervalMs(1000));
    assert_eq!(plan.compression, Compression::Zstd(3));
}

#[test]
fn options_are_planned_field_by_field() {
    let keys: [Option<&[u8]>; 2] = [Some(b"service.name"), Some(b"host")];
    let opts = imbh_open_options {
        wal_mode: imbh_wal_mode::Interval,
        wal_interval_ms: 250,
        compression: imbh_compression::Zstd,
        zstd_level: -5,
        read_only: true,
        allow_stale_reads: true,
        memory_budget_bytes: 4096,
        retention_days: 7,
        max_disk_bytes: 1 << 30,
        refresh: imbh_refresh_mode::Ttl,
        refresh_ttl_ms: 0,
        maintenance_background_ms: 60_000,
        promote_keys: Some(&keys),
        promote_keys_len: 2,
    };
    let plan = build_options(&opts).unwrap();
    assert_eq!(plan.wal, WalMode::IntervalMs(250));
    assert_eq!(plan.compression, Compression::Zstd(-5));
    assert!(plan.read_only);
    assert!(plan.allow_stale_reads);
    assert_eq!(plan.memory_budget, Some(4096));
    assert_eq!(
        plan.retention,
        Some(Retention { days: Some(7), max_disk_bytes: Some(1 << 30) })
    );
    assert_eq!(plan.refresh, Some(Refresh::TtlMs(0)));
    assert_eq!(plan.maintenance_background_ms, Some(60_000));
    assert_eq!(plan.promote, vec!["service.name", "host"]);
}

#[test]
fn modes_that_take_no_number_ignore_it() {
    let mut opts = zeroed();
    opts.wal_mode = imbh_wal_mode::Always;
    opts.wal_interval_ms = 5;
    opts.compression = imbh_compression::Lz4;
    opts.zstd_level = 9;
    opts.refresh = imbh_refresh_mode::Manual;
    opts.refresh_ttl_ms = 9;
    opts.max_disk_bytes = 10;
    let plan = build_options(&opts).unwrap();
    assert_eq!(plan.wal, WalMode::Always);
    assert_eq!(plan.compression, Compression::Lz4);
    assert_eq!(plan.refresh, Some(Refresh::Manual));
    assert_eq!(plan.retention, Some(Retention { days: None, max_disk_bytes: Some(10) }));
    opts.refresh = imbh_refresh_mode::OnQuery;
    opts.max_disk_bytes = 0;
    opts.retention_days = 3;
    let plan = build_options(&opts).unwrap();
    assert_eq!(plan.refresh, Some(Refresh::OnQuery));
    assert_eq!(plan.retention, Some(Retention { days: Some(3), max_disk_bytes: None }));
}

#[test]
fn an_unreadable_promoted_key_refuses_the_options() {
    let keys: [Option<&[u8]>; 2] = [Some(b"ok"), None];
    let mut opts = zeroed();
    opts.promote_keys = Some(&keys);
    opts.promote_keys_len = 2;
    assert_eq!(refusal(build_options(&opts)), "null string pointer");
}

#[test]
fn tables_convert_both_ways() {
    let all = [
        (imbh_table::Logs, Table::Logs),
        (imbh_table::Spans, Table::Spans),
        (imbh_table::MetricsGauge, Table::MetricsGauge),
        (imbh_table::MetricsSum, Table::MetricsSum),
        (imbh_table::MetricsHistogram, Table::MetricsHistogram),
        (imbh_table::MetricsExpHistogram, Table::MetricsExpHistogram),
        (imbh_table::MetricsSummary, Table::MetricsSummary),
    ];
    for (i, (selector, table)) in all.iter().enumerate() {
        assert_eq!(Table::from(*selector), *table);
        assert_eq!(table_to_c(*table), *selector);
        assert_eq!(selector.code(), i as i32);
    }
}

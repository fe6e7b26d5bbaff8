use std::cell::Cell;

use autput::bridge::PANIC_FALLBACK;
use autput::{
    connect, connect_once, connect_once_with, connect_with, format_line, Autput, ConnectError,
    Level, LevelFilter, Record, Registry,
};

fn record(level: Level, target: &str, module: Option<&str>, message: &str) -> Record {
    Record {
        level,
        target: target.to_string(),
        module: module.map(|m| m.to_string()),
        message: message.to_string(),
    }
}

#[test]
fn wire_codes_follow_log_discriminants() {
    assert_eq!(Level::Error.wire_code(), 1);
    assert_eq!(Level::Warn.wire_code(), 2);
    assert_eq!(Level::Info.wire_code(), 3);
    assert_eq!(Level::Debug.wire_code(), 4);
    assert_eq!(Level::Trace.wire_code(), 5);
}

#[test]
fn level_names_are_upper_case() {
    assert_eq!(Level::Error.as_str(), "ERROR");
    assert_eq!(Level::Warn.as_str(), "WARN");
    assert_eq!(Level::Info.as_str(), "INFO");
    assert_eq!(Level::Debug.as_str(), "DEBUG");
    assert_eq!(Level::Trace.as_str(), "TRACE");
}

#[test]
fn filter_admits_levels_at_least_as_significant() {
    let all = [Level::Error, Level::Warn, Level::Info, Level::Debug, Level::Trace];
    let filters = [
        LevelFilter::Off,
        LevelFilter::Error,
        LevelFilter::Warn,
        LevelFilter::Info,
        LevelFilter::Debug,
        LevelFilter::Trace,
    ];
    for f in filters {
        for l in all {
            assert_eq!(f.admits(l), l.wire_code() <= f.code());
        }
    }
    assert!(!LevelFilter::Off.admits(Level::Error));
    assert!(LevelFilter::Trace.admits(Level::Trace));
}

#[test]
fn info_threshold_drops_debug_and_passes_warn() {
    let logger = Autput { max_level: LevelFilter::Info };
    assert!(!logger.enabled(Level::Debug));
    assert!(logger.enabled(Level::Warn));
    assert!(logger.log(&record(Level::Debug, "net", None, "hidden")).is_none());
    let rep = logger.log(&record(Level::Warn, "net", None, "shown")).unwrap();
    assert_eq!(rep.level, 2);
    assert_eq!(rep.line, "WARN  [net] shown");
}

#[test]
fn stricter_takes_the_less_verbose_filter() {
    assert_eq!(LevelFilter::Info.stricter(LevelFilter::Trace), LevelFilter::Info);
    assert_eq!(LevelFilter::Trace.stricter(LevelFilter::Warn), LevelFilter::Warn);
    assert_eq!(LevelFilter::Off.stricter(LevelFilter::Debug), LevelFilter::Off);
}

#[test]
fn format_is_exact_and_repeatable() {
    let a = format_line(Level::Info, "net", None, "connected");
    let b = format_line(Level::Info, "net", None, "connected");
    assert_eq!(a, "INFO  [net] connected");
    assert_eq!(a.as_bytes(), b.as_bytes());
}

#[test]
fn empty_target_falls_back_to_module_then_empty() {
    assert_eq!(format_line(Level::Warn, "", None, "x"), "WARN  [] x");
    assert_eq!(format_line(Level::Warn, "", Some("guest::net"), "x"), "WARN  [guest::net] x");
    assert_eq!(format_line(Level::Warn, "io", Some("guest::net"), "x"), "WARN  [io] x");
}

#[test]
fn five_letter_levels_are_not_padded() {
    assert_eq!(format_line(Level::Error, "a", None, "b"), "ERROR [a] b");
    assert_eq!(format_line(Level::Debug, "a", None, ""), "DEBUG [a] ");
    assert_eq!(format_line(Level::Trace, "", None, "m"), "TRACE [] m");
}

#[test]
fn default_logger_filters_at_info() {
    assert_eq!(Autput::default().max_level, LevelFilter::Info);
}

#[test]
fn connect_once_many_times_registers_once() {
    let mut registry = Registry::with_ceiling(LevelFilter::Trace);
    let calls = Cell::new(0u32);
    for _ in 0..5 {
        let r = connect_once_with(&mut registry, || {
            calls.set(calls.get() + 1);
            Autput { max_level: LevelFilter::Debug }
        });
        assert_eq!(r, Ok(()));
    }
    assert_eq!(calls.get(), 1);
    assert!(registry.is_connected());
    assert_eq!(registry.logger(), Some(Autput { max_level: LevelFilter::Debug }));
}

#[test]
fn connect_once_default_is_idempotent() {
    let mut registry = Registry::with_ceiling(LevelFilter::Trace);
    assert_eq!(connect_once(&mut registry), Ok(()));
    assert_eq!(connect_once(&mut registry), Ok(()));
    assert_eq!(connect_once(&mut registry), Ok(()));
    assert_eq!(registry.logger(), Some(Autput::default()));
}

#[test]
fn second_direct_connect_is_double_registration() {
    let mut registry = Registry::with_ceiling(LevelFilter::Trace);
    assert_eq!(connect(&mut registry), Ok(()));
    assert_eq!(connect(&mut registry), Err(ConnectError::DoubleRegistration));
    assert_eq!(registry.logger(), Some(Autput::default()));
}

#[test]
fn connect_once_after_direct_connect_fails_once() {
    let mut registry = Registry::with_ceiling(LevelFilter::Trace);
    assert_eq!(connect_with(&mut registry, Autput { max_level: LevelFilter::Warn }), Ok(()));
    assert_eq!(connect_once(&mut registry), Err(ConnectError::DoubleRegistration));
    assert!(!registry.is_connected());
    assert_eq!(registry.logger(), Some(Autput { max_level: LevelFilter::Warn }));
}

#[test]
fn panic_is_forwarded_only_after_connect() {
    let mut registry = Registry::with_ceiling(LevelFilter::Trace);
    assert!(!registry.panic_hook_installed());
    assert_eq!(registry.report_panic(Some("boom")), None);
    connect(&mut registry).unwrap();
    assert!(registry.panic_hook_installed());
    assert_eq!(registry.report_panic(Some("boom")), Some("boom".to_string()));
    assert_eq!(registry.report_panic(None), Some(PANIC_FALLBACK.to_string()));
}

#[test]
fn failed_connect_still_installs_panic_hook() {
    let mut registry = Registry::with_ceiling(LevelFilter::Trace);
    connect(&mut registry).unwrap();
    let mut other = Registry::with_ceiling(LevelFilter::Trace);
    assert_eq!(other.report_panic(Some("x")), None);
    assert!(connect(&mut other).is_ok());
    assert_eq!(connect(&mut other), Err(ConnectError::DoubleRegistration));
    assert!(other.panic_hook_installed());
}

#[test]
fn nothing_is_routed_before_connect() {
    let registry = Registry::new();
    assert_eq!(registry.logger(), None);
    assert!(!registry.is_connected());
    assert_eq!(registry.max_level(), LevelFilter::Off);
    assert!(registry.log(&record(Level::Error, "t", None, "m")).is_none());
}

#[test]
fn info_ceiling_blocks_debug_and_trace() {
    let mut registry = Registry::with_ceiling(LevelFilter::Info);
    connect_with(&mut registry, Autput { max_level: LevelFilter::Trace }).unwrap();
    assert_eq!(registry.ceiling(), LevelFilter::Info);
    assert_eq!(registry.max_level(), LevelFilter::Info);
    assert!(registry.log(&record(Level::Debug, "t", None, "m")).is_none());
    assert!(registry.log(&record(Level::Trace, "t", None, "m")).is_none());
    let rep = registry.log(&record(Level::Info, "", Some("guest"), "up")).unwrap();
    assert_eq!(rep.level, 3);
    assert_eq!(rep.line, "INFO  [guest] up");
}

#[test]
fn routed_record_respects_logger_filter() {
    let mut registry = Registry::with_ceiling(LevelFilter::Trace);
    connect_with(&mut registry, Autput { max_level: LevelFilter::Error }).unwrap();
    assert_eq!(registry.max_level(), LevelFilter::Error);
    assert!(registry.log(&record(Level::Warn, "t", None, "m")).is_none());
    let rep = registry.log(&record(Level::Error, "disk", None, "full")).unwrap();
    assert_eq!(rep.level, 1);
    assert_eq!(rep.line, "ERROR [disk] full");
}

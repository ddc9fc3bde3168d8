use simpleperf_etm::{
    c_string, process_call, record_call, CaptureDuration, LogRedirection, NulError, RecordScope,
};

fn five_seconds() -> CaptureDuration {
    CaptureDuration::new(5, 0).unwrap()
}

#[test]
fn each_scope_selects_its_event_name() {
    assert_eq!(RecordScope::USERSPACE.event_name(), "cs-etm:u");
    assert_eq!(RecordScope::KERNEL.event_name(), "cs-etm:k");
    assert_eq!(RecordScope::BOTH.event_name(), "cs-etm");
    assert_eq!(RecordScope::USERSPACE.event_name_c().as_bytes_with_nul(), b"cs-etm:u\0");
    assert_eq!(RecordScope::KERNEL.event_name_c().as_bytes_with_nul(), b"cs-etm:k\0");
    assert_eq!(RecordScope::BOTH.event_name_c().as_bytes_with_nul(), b"cs-etm\0");
}

#[test]
fn record_both_scopes_with_empty_filter() {
    let call = record_call("/tmp/trace.bin", five_seconds(), "", RecordScope::BOTH).unwrap();
    assert_eq!(call.event_name.as_bytes_with_nul(), b"cs-etm\0");
    assert_eq!(call.trace_file.as_bytes_with_nul(), b"/tmp/trace.bin\0");
    assert_eq!(call.binary_filter.as_bytes_with_nul(), b"\0");
    assert_eq!(call.duration.as_secs(), 5);
    assert_eq!(call.duration.subsec_nanos(), 0);
    let secs =
        std::time::Duration::new(call.duration.as_secs(), call.duration.subsec_nanos()).as_secs_f32();
    assert_eq!(secs, 5.0);
}

#[test]
fn record_userspace_keeps_filter() {
    let call =
        record_call("/data/t.etm", five_seconds(), "libfoo.so", RecordScope::USERSPACE).unwrap();
    assert_eq!(call.event_name.as_bytes_with_nul(), b"cs-etm:u\0");
    assert_eq!(call.trace_file.to_bytes(), b"/data/t.etm".to_vec());
    assert_eq!(call.binary_filter.as_bytes_with_nul(), b"libfoo.so\0");
}

#[test]
fn process_passes_three_strings_unchanged() {
    let call = process_call("/tmp/trace.bin", "/tmp/profile.out", "libfoo.so").unwrap();
    assert_eq!(call.trace_path.as_bytes_with_nul(), b"/tmp/trace.bin\0");
    assert_eq!(call.profile_path.as_bytes_with_nul(), b"/tmp/profile.out\0");
    assert_eq!(call.binary_filter.as_bytes_with_nul(), b"libfoo.so\0");
}

#[test]
fn record_refuses_nul_in_trace_file() {
    let r = record_call("/tmp/tr\0ace", five_seconds(), "a\0b", RecordScope::KERNEL);
    assert_eq!(r.unwrap_err(), NulError { position: 7 });
}

#[test]
fn record_refuses_nul_in_filter() {
    let r = record_call("/tmp/trace.bin", five_seconds(), "lib\0foo", RecordScope::KERNEL);
    assert_eq!(r.unwrap_err(), NulError { position: 3 });
}

#[test]
fn process_refuses_nul_in_any_argument() {
    assert_eq!(process_call("\0", "p", "f").unwrap_err(), NulError { position: 0 });
    assert_eq!(process_call("t", "pro\0", "f").unwrap_err(), NulError { position: 3 });
    assert_eq!(process_call("t", "p", "f\0\0").unwrap_err(), NulError { position: 1 });
}

#[test]
fn c_string_keeps_utf8_bytes() {
    let c = c_string("résumé").unwrap();
    assert_eq!(c.to_bytes(), "résumé".as_bytes().to_vec());
    let mut expected = "résumé".as_bytes().to_vec();
    expected.push(0);
    assert_eq!(c.as_bytes_with_nul(), expected.as_slice());
    assert_eq!(c_string("").unwrap().as_bytes_with_nul(), b"\0");
    assert_eq!(c_string("ab\0").unwrap_err(), NulError { position: 2 });
}

#[test]
fn two_and_a_half_seconds_as_f32() {
    let d = CaptureDuration::new(2, 500_000_000).unwrap();
    let secs = std::time::Duration::new(d.as_secs(), d.subsec_nanos()).as_secs_f32();
    assert_eq!(secs, 2.5);
}

#[test]
fn duration_carries_whole_seconds() {
    let d = CaptureDuration::new(1, 2_300_000_000).unwrap();
    assert_eq!(d.as_secs(), 3);
    assert_eq!(d.subsec_nanos(), 300_000_000);
    assert_eq!(CaptureDuration::new(u64::MAX, 999_999_999).unwrap().as_secs(), u64::MAX);
    assert!(CaptureDuration::new(u64::MAX, 1_000_000_000).is_none());
}

#[test]
fn reset_without_redirection_is_noop() {
    let mut log = LogRedirection::new();
    assert!(log.is_default());
    log.reset_log_file();
    assert!(log.is_default());
    assert!(log.log_file().is_none());
}

#[test]
fn set_set_reset_returns_to_default() {
    let mut log = LogRedirection::new();
    log.set_log_file(c_string("/data/a.log").unwrap());
    assert_eq!(log.log_file().unwrap().to_bytes(), b"/data/a.log".to_vec());
    log.set_log_file(c_string("/data/b.log").unwrap());
    assert!(!log.is_default());
    assert_eq!(log.log_file().unwrap().to_bytes(), b"/data/b.log".to_vec());
    log.reset_log_file();
    assert!(log.is_default());
}

use android_logcat::ExpectLogcat;
use android_logcat::Level;
use android_logcat::Log;
use android_logcat::LogPriority;
use android_logcat::NativeCall;
use android_logcat::RegisterError;

fn expect_print(call: Option<NativeCall>) -> (i32, String, String, String) {
    match call {
        Some(NativeCall::Print { prio, tag, fmt, arg }) => (prio, tag, fmt, arg),
        other => panic!("expected a formatted native call, got {:?}", other),
    }
}

#[test]
fn explicit_tag_dispatch_emits_one_call() {
    let log = Log::new();
    for (call, code) in [
        (log.verbose("MyTag", "hello"), 2),
        (log.debug("MyTag", "hello"), 3),
        (log.info("MyTag", "hello"), 4),
        (log.warn("MyTag", "hello"), 5),
        (log.error("MyTag", "hello"), 6),
    ] {
        let (prio, tag, fmt, arg) = expect_print(call);
        assert_eq!(prio, code);
        assert_eq!(tag, "MyTag");
        assert_eq!(fmt, "%s");
        assert_eq!(arg, "hello");
    }
}

#[test]
fn print_maps_every_priority() {
    let log = Log::new();
    let priorities = [
        LogPriority::UNKNOWN,
        LogPriority::DEFAULT,
        LogPriority::VERBOSE,
        LogPriority::DEBUG,
        LogPriority::INFO,
        LogPriority::WARN,
        LogPriority::ERROR,
        LogPriority::FATAL,
        LogPriority::SILENT,
    ];
    for (i, p) in priorities.into_iter().enumerate() {
        let (prio, tag, fmt, arg) = expect_print(log.print(p, "t", "m"));
        assert_eq!(prio, i as i32);
        assert_eq!(tag, "t");
        assert_eq!(fmt, "%s");
        assert_eq!(arg, "m");
    }
}

#[test]
fn message_is_never_a_format_string() {
    let log = Log::new();
    let tricky = "100%s of %d and %n";
    let (_, _, fmt, arg) = expect_print(log.error("T", tricky));
    assert_eq!(fmt, "%s");
    assert_eq!(arg, tricky);
}

#[test]
fn write_passes_text_through() {
    let log = Log::new();
    match log.write(LogPriority::INFO, "t", "raw text") {
        Some(NativeCall::Write { prio, tag, text }) => {
            assert_eq!(prio, 4);
            assert_eq!(tag, "t");
            assert_eq!(text, "raw text");
        }
        other => panic!("expected a plain native call, got {:?}", other),
    }
}

#[test]
fn dispatch_while_disabled_emits_nothing() {
    let mut log = Log::new();
    log.enabled(false);
    assert!(log.print(LogPriority::FATAL, "t", "m").is_none());
    assert!(log.write(LogPriority::FATAL, "t", "m").is_none());
    assert!(log.verbose("t", "m").is_none());
    assert!(log.debug("t", "m").is_none());
    assert!(log.info("t", "m").is_none());
    assert!(log.warn("t", "m").is_none());
    assert!(log.error("t", "m").is_none());
    assert!(log.v("m").is_none());
    assert!(log.d("m").is_none());
    assert!(log.i("m").is_none());
    assert!(log.w("m").is_none());
    assert!(log.e("m").is_none());
    // While disabled nothing is marshaled, so even a message that could
    // never be marshaled is simply dropped.
    assert!(log.v("em\0bedded").is_none());
}

#[test]
fn init_first_write_wins() {
    let mut log = Log::new();
    assert!(log.init("MyTag", false).is_ok());
    assert_eq!(log.tag(), "MyTag");
    assert!(log.init("Other", false).is_ok());
    assert_eq!(log.tag(), "MyTag");
}

#[test]
fn default_tag_before_init() {
    let log = Log::new();
    assert_eq!(log.tag(), "RustLog");
}

#[test]
fn global_tag_dispatch_uses_current_tag() {
    let mut log = Log::new();
    let (_, tag, _, arg) = expect_print(log.i("pre-init"));
    assert_eq!(tag, "RustLog");
    assert_eq!(arg, "pre-init");
    log.init("App", false).unwrap();
    for (call, code) in [
        (log.v("m"), 2),
        (log.d("m"), 3),
        (log.i("m"), 4),
        (log.w("m"), 5),
        (log.e("m"), 6),
    ] {
        let (prio, tag, fmt, arg) = expect_print(call);
        assert_eq!(prio, code);
        assert_eq!(tag, "App");
        assert_eq!(fmt, "%s");
        assert_eq!(arg, "m");
    }
}

#[test]
fn verbose_gating_by_enable_flag() {
    let mut log = Log::new();
    log.enabled(false);
    assert!(log.v("x").is_none());
    log.enabled(true);
    let (prio, _, _, arg) = expect_print(log.v("x"));
    assert_eq!(prio, 2);
    assert_eq!(arg, "x");
}

#[test]
fn init_reenables_logging() {
    let mut log = Log::new();
    assert!(log.is_enabled());
    log.enabled(false);
    assert!(!log.is_enabled());
    log.init("T", false).unwrap();
    assert!(log.is_enabled());
}

#[test]
fn double_registration_fails() {
    let mut log = Log::new();
    assert_eq!(log.init("T", true), Ok(()));
    assert_eq!(log.init("T", true), Err(RegisterError));
    // A tag-only initialization in between changes nothing about it.
    assert_eq!(log.init("T", false), Ok(()));
    assert_eq!(log.init("T", true), Err(RegisterError));
}

#[test]
fn priority_codes_round_trip() {
    let priorities = [
        LogPriority::UNKNOWN,
        LogPriority::DEFAULT,
        LogPriority::VERBOSE,
        LogPriority::DEBUG,
        LogPriority::INFO,
        LogPriority::WARN,
        LogPriority::ERROR,
        LogPriority::FATAL,
        LogPriority::SILENT,
    ];
    for (i, p) in priorities.into_iter().enumerate() {
        assert_eq!(p.as_code(), i as i32);
        assert_eq!(LogPriority::from_code(i as i32), Some(p));
    }
    assert_eq!(LogPriority::from_code(9), None);
    assert_eq!(LogPriority::from_code(-1), None);
    assert_eq!(LogPriority::from_code(i32::MAX), None);
}

#[test]
fn facade_level_mapping() {
    let log = Log::new();
    for (level, code) in [
        (Level::Error, 6),
        (Level::Warn, 5),
        (Level::Info, 4),
        (Level::Debug, 3),
        (Level::Trace, 2),
    ] {
        assert_eq!(level.priority().as_code(), code);
        let (prio, tag, fmt, arg) = expect_print(log.log_record(level, "msg"));
        assert_eq!(prio, code);
        assert_eq!(tag, "RustLog");
        assert_eq!(fmt, "%s");
        assert_eq!(arg, "msg");
    }
}

#[test]
fn facade_ignores_level_for_enabled() {
    let mut log = Log::new();
    assert!(log.facade_enabled(Level::Trace));
    assert!(log.facade_enabled(Level::Error));
    log.enabled(false);
    assert!(!log.facade_enabled(Level::Trace));
    assert!(!log.facade_enabled(Level::Error));
    assert!(log.log_record(Level::Error, "dropped").is_none());
    log.flush();
}

#[test]
fn expect_log_on_result() {
    let r: Result<u32, &str> = Ok(7);
    assert_eq!(r.expect_log("should hold a value"), 7);
}

#[test]
fn expect_log_on_option() {
    let o: Option<&str> = Some("v");
    assert_eq!(o.expect_log("should hold a value"), "v");
}

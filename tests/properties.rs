use log_handlers::formatter::{json, pretty_json};
use log_handlers::handlers::streams::file::FileHandler;
use log_handlers::handlers::streams::net::TCPHandler;
use log_handlers::handlers::streams::stdout::StdoutHandler;
use log_handlers::handlers::{Filter, Handle, Handler, NullHandler};
use log_handlers::logger::SetLoggerError;
use log_handlers::text::{debug_string, decimal_string, json_string};
use log_handlers::{ExtendedLogRecord, ExtendedLogger, Level, LevelFilter};
use rustc_serialize::json::Json;

type Formatter = fn(&ExtendedLogRecord) -> String;
type Predicate = fn(&ExtendedLogRecord) -> bool;

fn fixed_record(level: Level, msg: &str) -> ExtendedLogRecord {
    ExtendedLogRecord::with_time(
        "src/tests.rs",
        level,
        15,
        "log_handlers::tests",
        msg.to_string(),
        "TestFactory".to_string(),
        1493048347,
        "2017-04-24T15:39:07Z".to_string(),
    )
}

fn reject(_: &ExtendedLogRecord) -> bool {
    false
}

fn accept(_: &ExtendedLogRecord) -> bool {
    true
}

fn must_not_run(_: &ExtendedLogRecord) -> bool {
    panic!("a filter after a rejecting one was evaluated")
}

fn marker_a(_: &ExtendedLogRecord) -> String {
    "A\n".to_string()
}

fn marker_b(_: &ExtendedLogRecord) -> String {
    "B\n".to_string()
}

#[test]
fn level_names_and_ranks() {
    assert_eq!(Level::Error.to_string(), "ERROR");
    assert_eq!(Level::Warn.to_string(), "WARN");
    assert_eq!(Level::Info.to_string(), "INFO");
    assert_eq!(Level::Debug.to_string(), "DEBUG");
    assert_eq!(Level::Trace.to_string(), "TRACE");
    assert_eq!(Level::Error.levelno(), 1);
    assert_eq!(Level::Trace.levelno(), 5);
}

#[test]
fn level_parsing_ignores_ascii_case() {
    assert_eq!(Level::parse("warn"), Some(Level::Warn));
    assert_eq!(Level::parse("DeBuG"), Some(Level::Debug));
    assert_eq!(Level::parse("ERROR"), Some(Level::Error));
    assert_eq!(Level::parse("OFF"), None);
    assert_eq!(Level::parse("WARNING"), None);
    assert_eq!(Level::parse(""), None);
}

#[test]
fn level_filter_thresholds() {
    assert!(LevelFilter::Error.allows(Level::Error));
    assert!(!LevelFilter::Error.allows(Level::Warn));
    assert!(LevelFilter::Info.allows(Level::Warn));
    assert!(!LevelFilter::Info.allows(Level::Debug));
    assert!(LevelFilter::Trace.allows(Level::Trace));
    assert!(!LevelFilter::Off.allows(Level::Error));
}

#[test]
fn decimal_text() {
    assert_eq!(decimal_string(0), "0");
    assert_eq!(decimal_string(42), "42");
    assert_eq!(decimal_string(-7), "-7");
    assert_eq!(decimal_string(1493048347), "1493048347");
    assert_eq!(decimal_string(i64::MIN), "-9223372036854775808");
    assert_eq!(decimal_string(i64::MAX), "9223372036854775807");
}

#[test]
fn quoting_escapes() {
    assert_eq!(json_string("a\"b\nc"), "\"a\\\"b\\nc\"");
    assert_eq!(json_string("plain"), "\"plain\"");
    assert_eq!(debug_string("a\"b\nc"), "\"a\\\"b\\nc\"");
    assert_eq!(debug_string("tab\t"), "\"tab\\t\"");
}

#[test]
fn record_fields() {
    let rec = fixed_record(Level::Warn, "hello");
    assert_eq!(rec.level, "WARN");
    assert_eq!(rec.levelno, 2);
    assert_eq!(rec.msg, "hello");
    assert_eq!(rec.target, "TestFactory");
    assert_eq!(rec.timestamp, 1493048347);
    assert_eq!(rec.module, "log_handlers::tests");
    assert_eq!(rec.file, "src/tests.rs");
    assert_eq!(rec.line, 15);
    assert_eq!(rec.date, "2017-04-24T15:39:07Z");
    assert_eq!(rec.level(), Level::Warn);
}

#[test]
fn record_level_reads_stored_name() {
    let mut rec = fixed_record(Level::Info, "x");
    rec.level = "debug".to_string();
    assert_eq!(rec.level(), Level::Debug);
}

#[test]
fn record_new_stamps_current_utc_time() {
    let rec = ExtendedLogRecord::new("f.rs", Level::Error, 3, "m", "x".to_string(), "t".to_string());
    assert!(rec.timestamp > 1_500_000_000);
    let expected = time::at_utc(time::Timespec::new(rec.timestamp, 0)).rfc3339().to_string();
    assert_eq!(rec.date, expected);
    assert_eq!(rec.date.len(), 20);
    assert!(rec.date.ends_with('Z'));
    assert_eq!(rec.level, "ERROR");
    assert_eq!(rec.levelno, 1);
}

#[test]
fn default_format_exact() {
    let rec = fixed_record(Level::Info, "test");
    assert_eq!(
        log_handlers::formatter::default(&rec),
        "ExtendedLogRecord { level: \"INFO\", levelno: 3, msg: \"test\", target: \"TestFactory\", timestamp: 1493048347, module: \"log_handlers::tests\", file: \"src/tests.rs\", line: 15, date: \"2017-04-24T15:39:07Z\" }\n"
    );
    assert_eq!(log_handlers::formatter::default(&rec), format!("{:?}\n", rec));
}

#[test]
fn json_format_exact() {
    let rec = fixed_record(Level::Info, "test");
    assert_eq!(
        json(&rec),
        "{\"level\":\"INFO\",\"levelno\":3,\"msg\":\"test\",\"target\":\"TestFactory\",\"timestamp\":1493048347,\"module\":\"log_handlers::tests\",\"file\":\"src/tests.rs\",\"line\":15,\"date\":\"2017-04-24T15:39:07Z\"}\n"
    );
}

#[test]
fn pretty_json_format_exact() {
    let rec = fixed_record(Level::Info, "test");
    assert_eq!(
        pretty_json(&rec),
        "{\n    \"date\": \"2017-04-24T15:39:07Z\",\n    \"file\": \"src/tests.rs\",\n    \"level\": \"INFO\",\n    \"levelno\": 3,\n    \"line\": 15,\n    \"module\": \"log_handlers::tests\",\n    \"msg\": \"test\",\n    \"target\": \"TestFactory\",\n    \"timestamp\": 1493048347\n}\n"
    );
}

#[test]
fn json_escapes_message() {
    let rec = fixed_record(Level::Info, "say \"hi\"\n");
    assert!(json(&rec).contains("\"msg\":\"say \\\"hi\\\"\\n\""));
}

#[test]
fn formatters_deterministic_and_newline_terminated() {
    let r1 = fixed_record(Level::Debug, "line\nbreak");
    let r2 = fixed_record(Level::Debug, "line\nbreak");
    let formatters: [Formatter; 3] = [log_handlers::formatter::default, json, pretty_json];
    for f in formatters.iter() {
        let a = f(&r1);
        let b = f(&r2);
        assert_eq!(a, b);
        assert!(a.ends_with('\n'));
        assert!(!a.ends_with("\n\n"));
        assert_eq!(a.matches('\n').count(), if a.starts_with("{\n") { 11 } else { 1 });
    }
}

fn check_parsed(text: &str, level: Level) {
    let parsed = Json::from_str(text.trim_end()).unwrap();
    let obj = parsed.as_object().unwrap();
    let mut keys: Vec<&str> = obj.keys().map(|k| k.as_str()).collect();
    keys.sort();
    assert_eq!(
        keys,
        vec!["date", "file", "level", "levelno", "line", "module", "msg", "target", "timestamp"]
    );
    assert_eq!(obj["level"].as_string(), Some(level.to_string().as_str()));
    assert_eq!(obj["levelno"].as_u64(), Some(level.levelno() as u64));
}

#[test]
fn json_round_trip_keys_and_levelno() {
    for level in [Level::Error, Level::Warn, Level::Info, Level::Debug, Level::Trace].iter() {
        let rec = fixed_record(*level, "quote \" and \\ and \u{1}");
        check_parsed(&json(&rec), *level);
        check_parsed(&pretty_json(&rec), *level);
        let parsed = Json::from_str(json(&rec).trim_end()).unwrap();
        assert_eq!(parsed.as_object().unwrap()["msg"].as_string(), Some("quote \" and \\ and \u{1}"));
    }
}

#[test]
fn handler_drops_less_severe_record() {
    let rec = fixed_record(Level::Info, "too verbose");
    let hdlr: FileHandler<Formatter, Predicate> = FileHandler::new("/tmp/p.txt", Some(LevelFilter::Error), Some(json));
    assert_eq!(hdlr.handle(&rec), None);
    let severe = fixed_record(Level::Error, "kept");
    assert_eq!(hdlr.handle(&severe), Some(json(&severe)));
}

#[test]
fn handler_without_level_is_off() {
    let rec = fixed_record(Level::Error, "x");
    let hdlr: StdoutHandler<Formatter, Predicate> = StdoutHandler::new(None, Some(json));
    assert_eq!(hdlr.level, LevelFilter::Off);
    assert_eq!(hdlr.handle(&rec), None);
}

#[test]
fn handler_without_formatter_uses_debug_dump() {
    let rec = fixed_record(Level::Warn, "x");
    let hdlr: TCPHandler<Formatter, Predicate> = TCPHandler::new("127.0.0.1:8080", Some(LevelFilter::Trace), None);
    assert_eq!(hdlr.stream.address, "127.0.0.1:8080");
    assert_eq!(hdlr.emit(&rec), log_handlers::formatter::default(&rec));
    assert_eq!(hdlr.handle(&rec), Some(log_handlers::formatter::default(&rec)));
}

#[test]
fn filter_chain_short_circuits() {
    let rec = fixed_record(Level::Error, "x");
    let mut hdlr: StdoutHandler<Formatter, Predicate> = StdoutHandler::new(Some(LevelFilter::Trace), Some(json));
    hdlr.add_filter(reject);
    hdlr.add_filter(must_not_run);
    assert_eq!(hdlr.filters.len(), 2);
    assert!(!hdlr.filter(&rec));
    assert_eq!(hdlr.handle(&rec), None);
}

#[test]
fn filter_chain_empty_and_all_true() {
    let rec = fixed_record(Level::Error, "x");
    let mut hdlr: StdoutHandler<Formatter, Predicate> = StdoutHandler::new(Some(LevelFilter::Trace), Some(json));
    assert!(hdlr.filter(&rec));
    hdlr.add_filter(accept);
    hdlr.add_filter(accept);
    assert!(hdlr.filter(&rec));
    assert_eq!(hdlr.handle(&rec), Some(json(&rec)));
    hdlr.add_filter(reject);
    assert_eq!(hdlr.handle(&rec), None);
}

#[test]
fn null_handler_emits_nothing() {
    let rec = fixed_record(Level::Error, "x");
    let hdlr = NullHandler;
    assert!(hdlr.filter(&rec));
    assert_eq!(hdlr.handle(&rec), None);
    assert_eq!(hdlr.emit(&rec), "");
    let h: Handler<Formatter, Predicate> = Handler::from(NullHandler);
    assert_eq!(h.handle(&rec), None);
}

#[test]
fn registration_order_is_fan_out_order() {
    let mut logger: ExtendedLogger<Formatter, Predicate> = ExtendedLogger::new();
    logger.init(LevelFilter::Trace).unwrap();
    let a: StdoutHandler<Formatter, Predicate> = StdoutHandler::new(Some(LevelFilter::Trace), Some(marker_a));
    let b: StdoutHandler<Formatter, Predicate> = StdoutHandler::new(Some(LevelFilter::Trace), Some(marker_b));
    logger.add_handler(Handler::from(a));
    logger.add_handler(Handler::from(b));
    let out = logger.log_record(&fixed_record(Level::Info, "x"));
    assert_eq!(out, vec![Some("A\n".to_string()), Some("B\n".to_string())]);
}

#[test]
fn file_handler_receives_only_errors() {
    let mut logger: ExtendedLogger<Formatter, Predicate> = ExtendedLogger::new();
    logger.init(LevelFilter::Info).unwrap();
    logger.add_file_handler("/tmp/p.txt", Some(LevelFilter::Error), Some(json));
    let mut lines: Vec<String> = Vec::new();
    let first = logger.log(Level::Info, "src/main.rs", 1, "main", "info event".to_string(), "main".to_string());
    let second = logger.log(Level::Error, "src/main.rs", 2, "main", "error event".to_string(), "main".to_string());
    for outcomes in [first, second].iter() {
        for o in outcomes.iter() {
            if let Some(text) = o {
                lines.push(text.clone());
            }
        }
    }
    assert_eq!(lines.len(), 1);
    assert_eq!(lines[0].matches('\n').count(), 1);
    assert!(lines[0].contains("\"level\":\"ERROR\""));
    assert!(lines[0].contains("\"msg\":\"error event\""));
}

#[test]
fn no_handlers_no_output() {
    let mut logger: ExtendedLogger<Formatter, Predicate> = ExtendedLogger::new();
    logger.init(LevelFilter::Trace).unwrap();
    let out = logger.log(Level::Error, "f.rs", 1, "m", "x".to_string(), "t".to_string());
    assert!(out.is_empty());
    assert!(logger.log_record(&fixed_record(Level::Error, "x")).is_empty());
}

#[test]
fn second_init_fails() {
    let mut logger: ExtendedLogger<Formatter, Predicate> = ExtendedLogger::new();
    assert_eq!(logger.init(LevelFilter::Info), Ok(()));
    assert_eq!(logger.init(LevelFilter::Trace), Err(SetLoggerError));
    assert!(logger.enabled(Level::Info));
    assert!(!logger.enabled(Level::Debug));
}

#[test]
fn uninitialised_or_off_logger_delivers_nothing() {
    let mut logger: ExtendedLogger<Formatter, Predicate> = ExtendedLogger::new();
    logger.add_null_handler();
    logger.add_stdout_handler(Some(LevelFilter::Trace), Some(json));
    assert!(!logger.enabled(Level::Error));
    assert!(logger.log(Level::Error, "f.rs", 1, "m", "x".to_string(), "t".to_string()).is_empty());
    logger.init(LevelFilter::Off).unwrap();
    assert!(!logger.enabled(Level::Error));
    assert!(logger.log_record(&fixed_record(Level::Error, "x")).is_empty());
}

#[test]
fn enabled_logger_gives_one_outcome_per_handler() {
    let mut logger: ExtendedLogger<Formatter, Predicate> = ExtendedLogger::new();
    logger.init(LevelFilter::Warn).unwrap();
    logger.add_null_handler();
    logger.add_stdout_handler(Some(LevelFilter::Trace), Some(json));
    logger.add_tcp_handler("127.0.0.1:9", Some(LevelFilter::Error), None);
    let rec = fixed_record(Level::Warn, "x");
    let out = logger.log_record(&rec);
    assert_eq!(out, vec![None, Some(json(&rec)), None]);
    assert!(logger.log_record(&fixed_record(Level::Info, "x")).is_empty());
}

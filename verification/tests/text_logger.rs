use mdlog::LogError;
use mdlog::LogLevel;
use mdlog::Logger;
use mdlog::loggers::TextLogger;
use mdlog::loggers::text::format_line;
use mdlog::sink::MemorySink;
use mdlog::sink::Sink;

/// A sink whose every write fails with the same description.
struct FailingSink;

impl Sink for FailingSink {
    fn write_line(&mut self, _line: &str) -> Result<(), LogError> {
        Err(LogError::new(String::from("sink write failure")))
    }
}

fn line_count(text: &str) -> usize {
    text.chars().filter(|c| *c == '\n').count()
}

#[test]
fn threshold_filters_low_severities_silently() {
    let mut logger = TextLogger::new(LogLevel::Warning, MemorySink::new());
    assert!(logger.log(LogLevel::Debug, "quiet").is_ok());
    assert!(logger.log(LogLevel::Info, "quiet").is_ok());
    assert_eq!(logger.writer().as_str(), "");
}

#[test]
fn threshold_passes_high_severities_one_line_each() {
    let mut logger = TextLogger::new(LogLevel::Warning, MemorySink::new());
    assert!(logger.log(LogLevel::Warning, "m").is_ok());
    assert_eq!(line_count(logger.writer().as_str()), 1);
    assert!(logger.log(LogLevel::Error, "m").is_ok());
    assert_eq!(line_count(logger.writer().as_str()), 2);
    assert!(logger.log(LogLevel::Fatal, "m").is_ok());
    assert_eq!(line_count(logger.writer().as_str()), 3);
}

#[test]
fn error_line_carries_label_and_message() {
    let mut logger = TextLogger::new(LogLevel::Debug, MemorySink::new());
    assert!(logger.log(LogLevel::Error, "boom").is_ok());
    let out = logger.writer().as_str();
    assert!(out.contains("ERROR"));
    assert!(out.contains("boom"));
    assert!(out.ends_with('\n'));
}

#[test]
fn equal_severity_is_not_filtered() {
    let mut logger = TextLogger::new(LogLevel::Info, MemorySink::new());
    assert!(logger.log(LogLevel::Info, "at the threshold").is_ok());
    assert_eq!(line_count(logger.writer().as_str()), 1);
}

#[test]
fn category_is_rendered_when_present() {
    let mut logger = TextLogger::new(LogLevel::Debug, MemorySink::new());
    assert!(logger.log_with_category(LogLevel::Info, Some("worker"), "hello").is_ok());
    let out = logger.writer().as_str();
    assert!(out.contains("INFO worker"));
    assert!(out.contains("hello"));
}

#[test]
fn sink_failure_is_propagated_verbatim() {
    let mut logger = TextLogger::new(LogLevel::Debug, FailingSink);
    let outcome = logger.log(LogLevel::Error, "boom");
    assert_eq!(outcome.unwrap_err().description, "sink write failure");
}

#[test]
fn sink_failure_below_threshold_is_never_seen() {
    let mut logger = TextLogger::new(LogLevel::Error, FailingSink);
    assert!(logger.log(LogLevel::Warning, "quiet").is_ok());
}

#[test]
fn min_log_level_reports_the_construction_threshold() {
    let logger = TextLogger::new(LogLevel::Fatal, MemorySink::new());
    assert_eq!(logger.min_log_level(), LogLevel::Fatal);
}

#[test]
fn format_line_exact_layout_with_category() {
    let line = format_line("2024-01-01 00:00:00", LogLevel::Error, Some("main"), "boom");
    assert_eq!(line, "2024-01-01 00:00:00 [ERROR main]: boom\n");
}

#[test]
fn format_line_exact_layout_without_category() {
    let line = format_line("2024-01-01 00:00:00", LogLevel::Warning, None, "watch out");
    assert_eq!(line, "2024-01-01 00:00:00 [WARN]: watch out\n");
}

#[test]
fn empty_message_still_renders_one_line() {
    let mut logger = TextLogger::new(LogLevel::Debug, MemorySink::new());
    assert!(logger.log(LogLevel::Info, "").is_ok());
    let out = logger.writer().as_str();
    assert_eq!(line_count(out), 1);
    assert!(out.ends_with("]: \n"));
}

#[test]
fn memory_sink_accumulates_lines_in_order() {
    let mut sink = MemorySink::new();
    assert!(sink.write_line("first\n").is_ok());
    assert!(sink.write_line("second\n").is_ok());
    assert_eq!(sink.as_str(), "first\nsecond\n");
}

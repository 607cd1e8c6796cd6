use mana_dev::report::{duration_style, files_word, millis_label, DurationStyle};
use mana_dev::server::{status_class, LogBuffer, StatusClass, MAX_LOG_ENTRIES};

#[test]
fn log_keeps_the_latest_thousand() {
    let mut log = LogBuffer::new();
    for i in 0..1005 {
        log.push(format!("m{}", i));
    }
    assert_eq!(log.entries().len(), MAX_LOG_ENTRIES);
    assert_eq!(log.entries()[0], "m5");
    assert_eq!(log.entries()[999], "m1004");
}

#[test]
fn log_record_format() {
    let mut log = LogBuffer::new();
    log.record("2024-01-02 03:04:05", "hello");
    assert_eq!(log.entries(), &vec!["[2024-01-02 03:04:05] hello".to_string()]);
}

#[test]
fn status_classes() {
    assert_eq!(status_class(200), StatusClass::Success);
    assert_eq!(status_class(299), StatusClass::Success);
    assert_eq!(status_class(304), StatusClass::Other);
    assert_eq!(status_class(404), StatusClass::ClientError);
    assert_eq!(status_class(500), StatusClass::ServerError);
    assert_eq!(status_class(101), StatusClass::Other);
}

#[test]
fn duration_display() {
    assert_eq!(duration_style(999), DurationStyle::Millis);
    assert_eq!(duration_style(1000), DurationStyle::Seconds);
    assert_eq!(duration_style(4999), DurationStyle::Seconds);
    assert_eq!(duration_style(5000), DurationStyle::SlowSeconds);
    assert_eq!(millis_label(0), "0ms");
    assert_eq!(millis_label(250), "250ms");
    assert_eq!(files_word(1), "file");
    assert_eq!(files_word(0), "files");
    assert_eq!(files_word(2), "files");
}

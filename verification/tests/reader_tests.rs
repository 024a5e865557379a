use fglog::reader::LogReader;
use fglog::time::try_parse_log_time;
use fglog::time::LogTime;
use fglog::watch::classify_event;
use fglog::watch::WatchAction;
use fglog::watch::WatchEventKind;
use fglog::watch::WatchMessage;

#[test]
fn reader_emits_complete_lines_and_advances() {
    let mut reader = LogReader::new();
    assert_eq!(reader.offset, 0);
    let seek = reader.start_read(12).expect("fresh modification accepted");
    assert_eq!(seek, 0);
    let lines = reader.ingest(12, "alpha\nbeta\npartial");
    assert_eq!(lines, vec!["alpha".to_owned(), "beta".to_owned()]);
    assert_eq!(reader.offset, 12);
}

#[test]
fn reader_strips_carriage_returns() {
    let mut reader = LogReader::new();
    let lines = reader.ingest(10, "one\r\ntwo\r\n");
    assert_eq!(lines, vec!["one".to_owned(), "two".to_owned()]);
}

#[test]
fn modification_before_any_creation_reads_whole_prefix() {
    // no FileCreated was ever seen; a non-zero length is still accepted
    let reader = LogReader::new();
    assert_eq!(reader.start_read(4096), Ok(0));
}

#[test]
fn shrinking_file_is_an_integrity_error() {
    let mut reader = LogReader::new();
    let _ = reader.ingest(100, "x\n");
    let err = reader.start_read(40).expect_err("regression must be refused");
    assert_eq!(err.length, 40);
    assert_eq!(err.offset, 100);
}

#[test]
fn creation_resets_the_offset() {
    let mut reader = LogReader::new();
    let _ = reader.ingest(100, "x\n");
    reader.on_created();
    assert_eq!(reader.offset, 0);
    assert_eq!(reader.start_read(5), Ok(0));
}

#[test]
fn split_modification_yields_the_same_lines() {
    // one modification of the same content, split at a line boundary
    let content = "alpha\nbeta\ngamma\n";
    let mut whole = LogReader::new();
    let all_at_once = whole.ingest(17, content);

    let mut split = LogReader::new();
    let first = split.ingest(6, &content[..6]);
    let second = split.ingest(17, &content[6..]);
    let mut stitched = first;
    stitched.extend(second);
    assert_eq!(all_at_once, stitched);
}

#[test]
fn watch_classification_collapses_raw_events() {
    assert_eq!(classify_event(WatchEventKind::AccessClose, true), WatchAction::EmitClosed);
    assert_eq!(classify_event(WatchEventKind::CreateFile, true), WatchAction::EmitCreated);
    assert_eq!(
        classify_event(WatchEventKind::ModifyData, true),
        WatchAction::StatAndEmitModified
    );
    assert_eq!(classify_event(WatchEventKind::Other, true), WatchAction::Ignore);
    assert_eq!(classify_event(WatchEventKind::ModifyData, false), WatchAction::Ignore);
    assert_eq!(
        WatchMessage::ContentModified { length: 7 },
        WatchMessage::ContentModified { length: 7 }
    );
}

#[test]
fn log_time_reads_first_stamp() {
    let t = try_parse_log_time("noise\n09:14:00.422: [GameSession] something")
        .expect("stamp expected");
    assert_eq!(
        t,
        LogTime { hours: 9, minutes: 14, seconds: 0, milliseconds: 422 }
    );
}

#[test]
fn log_time_absent_when_no_stamp() {
    assert_eq!(try_parse_log_time("no stamp here"), None);
}

#[test]
fn log_time_out_of_range_field_absent() {
    assert_eq!(try_parse_log_time("999:14:00.422: x"), None);
}

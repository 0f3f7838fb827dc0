use file_per_thread_logger::{
    build_filter, FilePerThreadLogger, Level, LoggerError, Registration, ThreadFileRouter,
};

#[test]
fn info_line_is_level_dash_message() {
    let line = ThreadFileRouter::Open.write_line(Level::Info, "hello");
    assert_eq!(line, Ok("INFO - hello\n".to_string()));
}

#[test]
fn every_level_has_its_label() {
    let open = ThreadFileRouter::Open;
    assert_eq!(open.write_line(Level::Error, "m"), Ok("ERROR - m\n".to_string()));
    assert_eq!(open.write_line(Level::Warn, "m"), Ok("WARN - m\n".to_string()));
    assert_eq!(open.write_line(Level::Info, "m"), Ok("INFO - m\n".to_string()));
    assert_eq!(open.write_line(Level::Debug, "m"), Ok("DEBUG - m\n".to_string()));
    assert_eq!(open.write_line(Level::Trace, "m"), Ok("TRACE - m\n".to_string()));
}

#[test]
fn message_is_written_as_it_is() {
    let line = ThreadFileRouter::Open.write_line(Level::Warn, "two\nlines - é");
    assert_eq!(line, Ok("WARN - two\nlines - é\n".to_string()));
    assert_eq!(ThreadFileRouter::Open.write_line(Level::Warn, ""), Ok("WARN - \n".to_string()));
}

#[test]
fn write_line_without_file_is_misuse() {
    let line = ThreadFileRouter::Uninitialized.write_line(Level::Info, "hello");
    assert_eq!(line, Err(LoggerError::Misuse));
}

#[test]
fn flush_needs_the_file() {
    assert_eq!(ThreadFileRouter::Open.flush(), Ok(()));
    assert_eq!(ThreadFileRouter::Uninitialized.flush(), Err(LoggerError::Misuse));
}

#[test]
fn misuse_has_a_diagnostic() {
    assert_eq!(
        LoggerError::Misuse.message(),
        "call the logger's initialize() function first"
    );
}

#[test]
fn new_router_is_uninitialized() {
    assert_eq!(ThreadFileRouter::new(), ThreadFileRouter::Uninitialized);
}

#[test]
fn file_open_failure_has_a_diagnostic() {
    assert_eq!(LoggerError::FileOpen.message(), "Can't open tracing file");
}

#[test]
fn ensure_open_names_the_file_once() {
    let mut router = ThreadFileRouter::new();
    let first = router.ensure_open("log-", Some("worker-1"), "ThreadId(2)");
    assert_eq!(first, Some("log-worker-1".to_string()));
    assert_eq!(router, ThreadFileRouter::Uninitialized);
    assert_eq!(router.opened(true), Ok(()));
    assert_eq!(router, ThreadFileRouter::Open);
    let second = router.ensure_open("log-", Some("worker-1"), "ThreadId(2)");
    assert_eq!(second, None);
    assert_eq!(router, ThreadFileRouter::Open);
}

#[test]
fn ensure_open_uses_the_identity_of_an_unnamed_thread() {
    let router = ThreadFileRouter::new();
    let path = router.ensure_open("trace.", None, "ThreadId(31)");
    assert_eq!(path, Some("trace.ThreadId31".to_string()));
}

#[test]
fn file_that_cannot_be_created_leaves_the_thread_closed() {
    let mut router = ThreadFileRouter::new();
    assert_eq!(router.opened(false), Err(LoggerError::FileOpen));
    assert_eq!(router, ThreadFileRouter::Uninitialized);
    let again = router.ensure_open("log-", Some("t"), "ThreadId(2)");
    assert_eq!(again, Some("log-t".to_string()));
}

#[test]
fn open_thread_stays_open() {
    let mut router = ThreadFileRouter::Open;
    assert_eq!(router.opened(true), Ok(()));
    assert_eq!(router, ThreadFileRouter::Open);
    assert_eq!(router.opened(false), Err(LoggerError::FileOpen));
    assert_eq!(router, ThreadFileRouter::Open);
}

#[test]
fn sink_writes_enabled_records() {
    let sink = FilePerThreadLogger::new(build_filter("info"));
    let action = sink.log(
        &Registration::Registered,
        &ThreadFileRouter::Open,
        Level::Info,
        "alpha",
        "hello",
    );
    assert_eq!(action, Ok(Some("INFO - hello\n".to_string())));
}

#[test]
fn sink_drops_filtered_records() {
    let sink = FilePerThreadLogger::new(build_filter("info"));
    let open = ThreadFileRouter::Open;
    let closed = ThreadFileRouter::Uninitialized;
    let yes = Registration::Registered;
    assert_eq!(sink.log(&yes, &open, Level::Debug, "alpha", "hello"), Ok(None));
    assert_eq!(sink.log(&yes, &closed, Level::Debug, "alpha", "hello"), Ok(None));
}

#[test]
fn sink_drops_everything_before_registration() {
    let sink = FilePerThreadLogger::new(build_filter("trace"));
    let no = Registration::Unregistered;
    let open = ThreadFileRouter::Open;
    let closed = ThreadFileRouter::Uninitialized;
    assert_eq!(sink.log(&no, &open, Level::Error, "alpha", "hello"), Ok(None));
    assert_eq!(sink.log(&no, &closed, Level::Error, "alpha", "hello"), Ok(None));
}

#[test]
fn sink_fails_on_a_thread_without_file() {
    let sink = FilePerThreadLogger::new(build_filter("info"));
    let action = sink.log(
        &Registration::Registered,
        &ThreadFileRouter::Uninitialized,
        Level::Warn,
        "alpha",
        "hello",
    );
    assert_eq!(action, Err(LoggerError::Misuse));
}

#[test]
fn sink_flush_follows_the_router() {
    let sink = FilePerThreadLogger::new(build_filter("info"));
    assert_eq!(sink.flush(&ThreadFileRouter::Open), Ok(()));
    assert_eq!(sink.flush(&ThreadFileRouter::Uninitialized), Err(LoggerError::Misuse));
}

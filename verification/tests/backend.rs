use file_logger::AlreadyInitializedError;
use file_logger::FileLogger;
use file_logger::Level;
use file_logger::Record;
use file_logger::Registry;
use file_logger::Transcript;
use file_logger::init;
use file_logger::init_with_level;
use file_logger::logger::render_line;

const ALL_LEVELS: [Level; 5] = [
    Level::Error,
    Level::Warn,
    Level::Info,
    Level::Debug,
    Level::Trace,
];

#[test]
fn enabled_iff_at_least_as_severe_for_all_pairs() {
    for threshold in ALL_LEVELS {
        let logger = FileLogger::new(String::from("pairs.log"), threshold);
        for candidate in ALL_LEVELS {
            let expected = candidate.severity_index() <= threshold.severity_index();
            assert_eq!(logger.enabled(candidate), expected);
        }
    }
}

#[test]
fn severity_order_is_error_first() {
    assert_eq!(Level::Error.severity_index(), 0);
    assert_eq!(Level::Warn.severity_index(), 1);
    assert_eq!(Level::Info.severity_index(), 2);
    assert_eq!(Level::Debug.severity_index(), 3);
    assert_eq!(Level::Trace.severity_index(), 4);
    assert!(Level::Error.is_at_least_as_severe_as(Level::Trace));
    assert!(!Level::Trace.is_at_least_as_severe_as(Level::Error));
    assert!(Level::Info.is_at_least_as_severe_as(Level::Info));
}

#[test]
fn render_line_exact_shape() {
    let line = render_line(&String::from("TS"), &String::from("a message"));
    assert_eq!(line, "[TS] a message");
    let empty = render_line(&String::from(""), &String::from(""));
    assert_eq!(empty, "[] ");
}

#[test]
fn below_threshold_is_a_no_op() {
    let logger = FileLogger::new(String::from("quiet.log"), Level::Warn);
    let mut sink = Transcript::new();
    sink.append(String::from("pre-existing"));

    assert!(logger.render(&Record::new(Level::Info, String::from("dropped"))).is_none());
    logger.log(&mut sink, &Record::new(Level::Info, String::from("dropped")));
    logger.log(&mut sink, &Record::new(Level::Trace, String::from("dropped too")));

    assert_eq!(sink.len(), 1);
    assert_eq!(sink.line(0), "pre-existing");
}

#[test]
fn accepted_records_append_in_call_order() {
    let logger = FileLogger::new(String::from("grow.log"), Level::Info);
    let mut sink = Transcript::new();
    sink.append(String::from("[old] kept"));

    let messages = ["first", "second", "third"];
    for message in messages {
        logger.log(&mut sink, &Record::new(Level::Info, String::from(message)));
    }

    assert_eq!(sink.len(), 1 + messages.len());
    assert_eq!(sink.line(0), "[old] kept");
    for (i, message) in messages.iter().enumerate() {
        let line = sink.line(1 + i);
        assert!(line.starts_with('['), "line has no timestamp prefix: {line}");
        let suffix = format!("] {message}");
        assert!(line.ends_with(&suffix), "line out of order or malformed: {line}");
        assert!(line.len() > 2 + suffix.len(), "timestamp is empty: {line}");
    }
}

#[test]
fn render_stamps_each_accepted_record() {
    let logger = FileLogger::new(String::from("stamp.log"), Level::Trace);
    let line = logger
        .render(&Record::new(Level::Debug, String::from("payload")))
        .expect("debug passes a trace threshold");
    assert!(line.starts_with('['));
    assert!(line.ends_with("] payload"));
    // The timestamp between the brackets is the clock's rendering, never empty.
    assert!(line.len() > "[] payload".len());
}

#[test]
fn second_install_fails_and_keeps_the_first() {
    let mut registry = Registry::new();
    assert!(!registry.installed());

    let first = init_with_level(&mut registry, String::from("first.log"), Level::Info);
    assert!(first.is_ok());
    assert!(registry.installed());

    let second = init_with_level(&mut registry, String::from("second.log"), Level::Error);
    assert_eq!(second, Err(AlreadyInitializedError {}));

    let third = init(&mut registry, String::from("third.log"));
    assert_eq!(third, Err(AlreadyInitializedError {}));

    // The first installation still receives writes, with its own threshold.
    let mut sink = Transcript::new();
    registry.log(&mut sink, &Record::new(Level::Info, String::from("still here")));
    registry.log(&mut sink, &Record::new(Level::Debug, String::from("filtered")));
    assert_eq!(sink.len(), 1);
    assert!(sink.line(0).ends_with("] still here"));
}

#[test]
fn uninstalled_registry_drops_everything() {
    let registry = Registry::new();
    let mut sink = Transcript::new();
    registry.log(&mut sink, &Record::new(Level::Error, String::from("nobody listens")));
    assert_eq!(sink.len(), 0);
    assert!(!registry.enabled(Level::Error));
    registry.flush();
}

#[test]
fn registry_ceiling_matches_installed_threshold() {
    let mut registry = Registry::new();
    init_with_level(&mut registry, String::from("ceiling.log"), Level::Warn).unwrap();
    assert!(registry.enabled(Level::Error));
    assert!(registry.enabled(Level::Warn));
    assert!(!registry.enabled(Level::Info));
    assert!(!registry.enabled(Level::Trace));
}

#[test]
fn end_to_end_hello() {
    let mut registry = Registry::new();
    init(&mut registry, String::from("out.log")).unwrap();

    let mut sink = Transcript::new();
    registry.log(&mut sink, &Record::new(Level::Info, String::from("hello")));
    registry.flush();

    assert_eq!(sink.len(), 1);
    let line = sink.line(0);
    // One line matching `^\[.+\] hello$`.
    assert!(line.starts_with('['));
    assert!(line.ends_with("] hello"));
    assert!(line.len() > "[] hello".len());
}

#[test]
fn constructor_is_pure_and_keeps_its_arguments() {
    let logger = FileLogger::new(String::from("kept/path.log"), Level::Debug);
    assert_eq!(logger.log_file(), "kept/path.log");
    assert_eq!(logger.level(), Level::Debug);
    logger.flush();

    let record = Record::new(Level::Warn, String::from("message text"));
    assert_eq!(record.level, Level::Warn);
    assert_eq!(record.message, "message text");
}

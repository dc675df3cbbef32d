use readyset_scheduler::clock::Moment;
use readyset_scheduler::messages::{
    get_log_verbosity, print_error, print_info, print_message_with_ts, print_note, print_warning,
    set_log_verbosity, Log, Message, MessageType, Stream,
};

const LEVELS: [MessageType; 4] =
    [MessageType::Info, MessageType::Note, MessageType::Warning, MessageType::Error];

#[test]
fn levels_are_ordered_as_declared() {
    assert!(MessageType::Info < MessageType::Note);
    assert!(MessageType::Note < MessageType::Warning);
    assert!(MessageType::Warning < MessageType::Error);
    for (i, level) in LEVELS.iter().enumerate() {
        assert_eq!(level.level() as usize, i);
    }
}

#[test]
fn a_message_is_written_where_its_level_reaches_the_threshold() {
    for level in LEVELS {
        for threshold in LEVELS {
            assert_eq!(level.is_written(threshold), level >= threshold);
            let mut log = Log::new(7);
            set_log_verbosity(&mut log, threshold);
            print_message_with_ts(&mut log, "m", level, "2024-01-02 03:04:05");
            assert_eq!(log.lines.len(), if level >= threshold { 1 } else { 0 });
        }
    }
}

#[test]
fn warnings_and_errors_go_to_standard_error() {
    assert_eq!(MessageType::Info.goes_to(), Stream::Output);
    assert_eq!(MessageType::Note.goes_to(), Stream::Output);
    assert_eq!(MessageType::Warning.goes_to(), Stream::Error);
    assert_eq!(MessageType::Error.goes_to(), Stream::Error);
}

#[test]
fn a_line_reads_time_level_process_and_message() {
    let mut log = Log::new(4242);
    set_log_verbosity(&mut log, MessageType::Info);
    print_message_with_ts(&mut log, "Running readyset_scheduler", MessageType::Info, "2024-01-02 03:04:05");
    print_message_with_ts(&mut log, "n", MessageType::Note, "2024-01-02 03:04:06");
    print_message_with_ts(&mut log, "w", MessageType::Warning, "2024-01-02 03:04:07");
    print_message_with_ts(&mut log, "e", MessageType::Error, "2024-01-02 03:04:08");
    let lines = log.take_lines();
    assert_eq!(lines.len(), 4);
    assert_eq!(lines[0].text, "2024-01-02 03:04:05 [INFO] Readyset[4242]: Running readyset_scheduler");
    assert_eq!(lines[0].stream, Stream::Output);
    assert_eq!(lines[1].text, "2024-01-02 03:04:06 [NOTE] Readyset[4242]: n");
    assert_eq!(lines[1].stream, Stream::Output);
    assert_eq!(lines[2].text, "2024-01-02 03:04:07 [WARNING] Readyset[4242]: w");
    assert_eq!(lines[2].stream, Stream::Error);
    assert_eq!(lines[3].text, "2024-01-02 03:04:08 [ERROR] Readyset[4242]: e");
    assert_eq!(lines[3].stream, Stream::Error);
    assert!(log.lines.is_empty());
}

#[test]
fn the_threshold_is_a_note_until_it_is_set() {
    let mut log = Log::new(1);
    assert_eq!(get_log_verbosity(&log), MessageType::Note);
    print_info(&mut log, "dropped");
    assert!(log.lines.is_empty());
    print_note(&mut log, "kept");
    assert_eq!(log.lines.len(), 1);
    set_log_verbosity(&mut log, MessageType::Error);
    assert_eq!(get_log_verbosity(&log), MessageType::Error);
    print_warning(&mut log, "dropped");
    assert_eq!(log.lines.len(), 1);
    print_error(&mut log, "kept");
    assert_eq!(log.lines.len(), 2);
    assert_eq!(log.lines[1].stream, Stream::Error);
}

#[test]
fn a_printed_line_starts_with_the_local_time() {
    let mut log = Log::new(99);
    let before = Moment::now();
    print_note(&mut log, "hello");
    let after = Moment::now();
    let line = &log.lines[0].text;
    assert!(line.ends_with(" [NOTE] Readyset[99]: hello"));
    let stamp = &line[..line.len() - " [NOTE] Readyset[99]: hello".len()];
    assert!(before.stamp.as_str() <= stamp && stamp <= after.stamp.as_str());
}

#[test]
fn a_recorded_message_is_printed_at_its_level() {
    let mut log = Log::new(5);
    log.record(&Message::new(MessageType::Warning, "careful".to_string()));
    log.record(&Message::new(MessageType::Info, "quiet".to_string()));
    assert_eq!(log.lines.len(), 1);
    assert_eq!(log.lines[0].stream, Stream::Error);
    assert!(log.lines[0].text.ends_with(" [WARNING] Readyset[5]: careful"));
}

#[test]
fn level_names() {
    assert_eq!(MessageType::Info.to_string(), "Info");
    assert_eq!(MessageType::Note.to_string(), "Note");
    assert_eq!(MessageType::Warning.to_string(), "Warning");
    assert_eq!(MessageType::Error.to_string(), "Error");
}

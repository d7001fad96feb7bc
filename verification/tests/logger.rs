use void_client::util::logger::{InitStep, Logger};

#[test]
fn logs_to_console_only_before_init() {
    let logger = Logger::new();
    let record = logger.log("Attached to javaw.exe");
    assert_eq!(record.console, "Attached to javaw.exe\n");
    assert!(record.file.is_none());
    assert!(!logger.has_log_file());
}

#[test]
fn logs_to_file_after_init() {
    let mut logger = Logger::new();
    assert_eq!(logger.begin_init(), InitStep::OpenLogFile);
    logger.finish_init(true);
    assert!(logger.has_log_file());
    let record = logger.log("Set Global vars");
    assert_eq!(record.console, "Set Global vars\n");
    assert_eq!(record.file, Some("Set Global vars\n".to_string()));
}

#[test]
fn second_init_does_nothing() {
    let mut logger = Logger::new();
    assert_eq!(logger.begin_init(), InitStep::OpenLogFile);
    logger.finish_init(true);
    assert_eq!(logger.begin_init(), InitStep::AlreadyInitialized);
    assert!(logger.has_log_file());
    assert_eq!(logger.begin_init(), InitStep::AlreadyInitialized);
}

#[test]
fn failed_init_poisons_later_inits() {
    let mut logger = Logger::new();
    assert_eq!(logger.begin_init(), InitStep::OpenLogFile);
    logger.finish_init(false);
    assert!(!logger.has_log_file());
    assert_eq!(logger.begin_init(), InitStep::Poisoned);
    let record = logger.log("x");
    assert_eq!(record.console, "x\n");
    assert!(record.file.is_none());
}

#[test]
fn empty_message_is_a_line_break() {
    let logger = Logger::new();
    assert_eq!(logger.log("").console, "\n");
}

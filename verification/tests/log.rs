use backend::error::{CoreError, IOError};
use backend::lock::{MutexProvider, OptionMutexProvider};
use backend::log::{
    log_direct, log_global, LoadedLogger, Logger, LoggerLevel, LoggerRedirect, LoggerWrite,
    Redirect,
};

const LEVELS: [LoggerLevel; 5] = [
    LoggerLevel::Debug,
    LoggerLevel::Info,
    LoggerLevel::Warning,
    LoggerLevel::Error,
    LoggerLevel::Critical,
];

#[test]
fn test_logger_write() {
    let log = Logger::default();
    log.open(LoggerLevel::Debug, LoggerRedirect::default());
    assert!(log.is_open());
    assert_eq!(log.level(), Some(LoggerLevel::Debug));

    for level in LEVELS {
        let record = log_global(&log, level, "hello".to_string()).unwrap();
        assert_eq!(record.shown, "hello");
        let line = String::from_utf8(record.line).unwrap();
        assert!(line.ends_with(&format!(" {} hello\n", level.to_string())));
    }
    for level in LEVELS {
        let record = log_global(&log, level, "hello 2".to_string()).unwrap();
        assert_eq!(record.shown, "hello 2");
    }

    log.reset();
    assert!(!log.is_open());
    assert_eq!(log.level(), None);
    assert!(log_global(&log, LoggerLevel::Critical, "late".to_string()).is_none());
    assert!(!log.is_poisoned());
}

#[test]
fn level_names_and_ranks() {
    let names = ["DEBUG", "INFO", "WARNING", "ERROR", "CRITICAL"];
    for (i, level) in LEVELS.iter().enumerate() {
        assert_eq!(level.to_string(), names[i]);
        assert_eq!(level.number() as usize, i + 1);
        for (j, other) in LEVELS.iter().enumerate() {
            assert_eq!(level.at_least(*other), i >= j);
            assert_eq!(level >= other, i >= j);
            assert_eq!(level < other, i < j);
            assert_eq!(level.cmp(other), i.cmp(&j));
            assert_eq!(level.partial_cmp(other), Some(i.cmp(&j)));
        }
    }
}

#[test]
fn redirect_targets() {
    let write = |level| LoggerWrite::new_str("t".to_string(), "c".to_string(), level);
    let default = LoggerRedirect::default();
    assert_eq!(default.handle_redirect(&write(LoggerLevel::Debug)), Redirect::Nowhere);
    assert_eq!(default.handle_redirect(&write(LoggerLevel::Warning)), Redirect::Nowhere);
    assert_eq!(default.handle_redirect(&write(LoggerLevel::Error)), Redirect::StdErr);
    assert_eq!(default.handle_redirect(&write(LoggerLevel::Critical)), Redirect::StdErr);

    let chatty = LoggerRedirect::new(Some(LoggerLevel::Info), true);
    assert_eq!(chatty.handle_redirect(&write(LoggerLevel::Debug)), Redirect::Nowhere);
    assert_eq!(chatty.handle_redirect(&write(LoggerLevel::Info)), Redirect::StdOut);
    assert_eq!(chatty.handle_redirect(&write(LoggerLevel::Warning)), Redirect::StdOut);
    assert_eq!(chatty.handle_redirect(&write(LoggerLevel::Error)), Redirect::StdErr);

    let no_errors = LoggerRedirect::new(Some(LoggerLevel::Critical), false);
    assert_eq!(no_errors.handle_redirect(&write(LoggerLevel::Error)), Redirect::Nowhere);
    assert_eq!(no_errors.handle_redirect(&write(LoggerLevel::Critical)), Redirect::StdOut);

    let silent = LoggerRedirect::new(None, false);
    for level in LEVELS {
        assert_eq!(silent.handle_redirect(&write(level)), Redirect::Nowhere);
    }
    assert_eq!(LoggerRedirect::default(), LoggerRedirect::new(None, true));
}

#[test]
fn logger_write_pieces() {
    let mut write = LoggerWrite::blank(LoggerLevel::Warning, "12:00".to_string());
    assert_eq!(write.contents(), "");
    assert_eq!(write.level(), LoggerLevel::Warning);
    write.append(&"a");
    write.append(&7);
    write.append_str(" b");
    assert_eq!(write.contents(), "\"a\"7 b");
    assert!(!write.ignore(LoggerLevel::Debug));
    assert!(!write.ignore(LoggerLevel::Warning));
    assert!(write.ignore(LoggerLevel::Error));
    assert_eq!(write.clone().into_bytes(), b"12:00 WARNING \"a\"7 b\n");

    let shown = LoggerWrite::new("t".to_string(), &vec![1, 2], LoggerLevel::Info);
    assert_eq!(shown.contents(), "[1, 2]");
    let plain = LoggerWrite::new_str("t".to_string(), "héllo".to_string(), LoggerLevel::Critical);
    assert_eq!(plain.into_bytes(), "t CRITICAL héllo\n".as_bytes());
}

#[test]
fn log_is_written_piece_by_piece() {
    let mut logger = LoadedLogger::new(LoggerLevel::Info, LoggerRedirect::new(Some(LoggerLevel::Debug), true));
    assert_eq!(logger.level(), LoggerLevel::Info);
    assert!(!logger.is_writing());
    assert_eq!(logger.writing_level(), None);
    assert_eq!(logger.current_log_ignored(), None);
    assert!(!logger.write(&"lost"));
    assert!(!logger.write_str("lost"));
    assert!(matches!(logger.closing_record(), Err(IOError::Core(CoreError::Operation(_)))));
    match logger.end_log() {
        Err(error) => assert_eq!(
            error.to_string(),
            "the operation 'end log' is not allowed due to 'end log'"
        ),
        Ok(()) => panic!("no log was started"),
    }

    assert!(logger.start_log_at(LoggerLevel::Warning, "09:30 ".to_string()).is_ok());
    assert!(logger.is_writing());
    assert_eq!(logger.writing_level(), Some(LoggerLevel::Warning));
    assert_eq!(logger.current_log_ignored(), Some(false));
    let error = logger.start_log_at(LoggerLevel::Debug, "x".to_string()).unwrap_err();
    assert_eq!(
        error,
        backend::error::OperationError::new(
            "start log".to_string(),
            "log already started at level WARNING".to_string()
        )
    );
    assert!(logger.start_log(LoggerLevel::Debug).is_err());
    assert_eq!(logger.writing_level(), Some(LoggerLevel::Warning));
    assert!(logger.write_str("disk "));
    assert!(logger.write(&95));
    assert!(logger.write_str("% full"));
    let record = logger.closing_record().unwrap().unwrap();
    assert_eq!(record.line, b"09:30 disk 95% full\n");
    assert_eq!(record.shown, "disk 95% full");
    assert_eq!(record.target, Redirect::StdOut);
    assert!(logger.is_writing());
    assert!(logger.end_log().is_ok());
    assert!(!logger.is_writing());
    assert!(logger.end_log().is_err());
}

#[test]
fn low_records_are_left_out() {
    let mut logger = LoadedLogger::new(LoggerLevel::Error, LoggerRedirect::default());
    assert!(logger.start_log(LoggerLevel::Warning).is_ok());
    assert_eq!(logger.current_log_ignored(), Some(true));
    assert!(logger.write_str("never seen"));
    assert!(logger.closing_record().unwrap().is_none());
    assert!(logger.end_log().is_ok());

    assert!(log_direct(&logger, LoggerLevel::Warning, "w".to_string()).is_none());
    let record = log_direct(&logger, LoggerLevel::Error, "e".to_string()).unwrap();
    assert_eq!(record.target, Redirect::StdErr);
    assert_eq!(record.shown, "e");
    assert!(String::from_utf8(record.line).unwrap().ends_with(" ERROR e\n"));
    assert!(log_direct(&logger, LoggerLevel::Critical, "c".to_string()).is_some());
}

#[test]
fn write_direct_at_a_given_time() {
    let mut logger = LoadedLogger::new(LoggerLevel::Debug, LoggerRedirect::default());
    logger.set_redirect(LoggerRedirect::new(Some(LoggerLevel::Warning), false));
    assert_eq!(*logger.redirect(), LoggerRedirect::new(Some(LoggerLevel::Warning), false));
    let record = logger.write_direct_at("2024-01-01".to_string(), "started".to_string(), LoggerLevel::Info);
    assert_eq!(record.line, b"2024-01-01 INFO started\n");
    assert_eq!(record.target, Redirect::Nowhere);
    let record = logger.write_direct("x".to_string(), LoggerLevel::Error);
    assert_eq!(record.target, Redirect::StdOut);
    let line = String::from_utf8(record.line).unwrap();
    assert!(line.ends_with(" ERROR x\n"));
    assert!(line.len() > " ERROR x\n".len());
}

#[test]
fn shared_logger_passes_and_resets() {
    let log = Logger::default();
    assert!(!log.is_open());
    assert_eq!(log.level(), None);
    log.pass(LoadedLogger::new(LoggerLevel::Critical, LoggerRedirect::default()));
    assert!(log.is_open());
    assert_eq!(log.level(), Some(LoggerLevel::Critical));
    assert!(log_global(&log, LoggerLevel::Error, "quiet".to_string()).is_none());
    {
        let mut guard = log.access();
        let logger = guard.access_mut().unwrap();
        assert!(logger.start_log_at(LoggerLevel::Critical, "t ".to_string()).is_ok());
    }
    {
        let guard = log.access();
        assert!(guard.access().unwrap().is_writing());
        assert!(guard.access_error().is_none());
    }
    log.reset();
    assert!(!log.is_open());
}

//! The logger, free of I/O: levels, where a record is shown, and the state
//! of a log that is written piece by piece. What comes out is a record for
//! the caller to write to its file and its console.

use vstd::prelude::*;
use vstd::string::StringSliceAdditionalSpecFns;
use vstd::string::StrSliceExecFns;
use vstd::utf8::encode_utf8;
use std::cmp::Ordering;
use std::sync::{Arc, Mutex};
use crate::error::{CoreError, IOError, OperationError};
use crate::lock::{MutexProvider, OptionMutexProvider, ProtectedAccess};
use crate::outside::{debug_text, local_time_text, mutex_new};

verus! {

/// How grave a record is.
#[derive(Clone, Copy, Debug, PartialEq, Eq, Ord, Structural)]
pub enum LoggerLevel {
    Debug,
    Info,
    Warning,
    Error,
    Critical,
}

impl LoggerLevel {
    /// The rank of this level, from 1 for `Debug` to 5 for `Critical`.
    pub open spec fn rank(self) -> nat {
        match self {
            LoggerLevel::Debug => 1,
            LoggerLevel::Info => 2,
            LoggerLevel::Warning => 3,
            LoggerLevel::Error => 4,
            LoggerLevel::Critical => 5,
        }
    }

    /// The name of this level, in capitals.
    pub open spec fn name(self) -> Seq<char> {
        match self {
            LoggerLevel::Debug => "DEBUG"@,
            LoggerLevel::Info => "INFO"@,
            LoggerLevel::Warning => "WARNING"@,
            LoggerLevel::Error => "ERROR"@,
            LoggerLevel::Critical => "CRITICAL"@,
        }
    }

    /// The rank of this level.
    pub fn number(self) -> (rank: u8)
        ensures
            rank == self.rank(),
    {
        match self {
            LoggerLevel::Debug => 1,
            LoggerLevel::Info => 2,
            LoggerLevel::Warning => 3,
            LoggerLevel::Error => 4,
            LoggerLevel::Critical => 5,
        }
    }

    /// Whether this level is at least as grave as `other`.
    pub fn at_least(self, other: LoggerLevel) -> (reaches: bool)
        ensures
            reaches == (self.rank() >= other.rank()),
    {
        self.number() >= other.number()
    }

    /// The name of this level, as a string.
    pub fn to_string(&self) -> (text: String)
        ensures
            text@ == self.name(),
    {
        match self {
            LoggerLevel::Debug => "DEBUG".to_owned(),
            LoggerLevel::Info => "INFO".to_owned(),
            LoggerLevel::Warning => "WARNING".to_owned(),
            LoggerLevel::Error => "ERROR".to_owned(),
            LoggerLevel::Critical => "CRITICAL".to_owned(),
        }
    }
}

impl PartialOrd for LoggerLevel {
    fn partial_cmp(&self, other: &Self) -> (order: Option<Ordering>) {
        let own = self.number();
        let theirs = other.number();
        if own < theirs {
            Some(Ordering::Less)
        } else if own > theirs {
            Some(Ordering::Greater)
        } else {
            Some(Ordering::Equal)
        }
    }
}

impl vstd::std_specs::cmp::PartialOrdSpecImpl for LoggerLevel {
    open spec fn obeys_partial_cmp_spec() -> bool {
        true
    }

    /// Levels stand in the order of their ranks.
    open spec fn partial_cmp_spec(&self, other: &Self) -> Option<Ordering> {
        if self.rank() < other.rank() {
            Some(Ordering::Less)
        } else if self.rank() > other.rank() {
            Some(Ordering::Greater)
        } else {
            Some(Ordering::Equal)
        }
    }
}

/// Where on the console a record is shown.
#[derive(Clone, Copy, Debug, PartialEq, Eq, Structural)]
pub enum Redirect {
    /// On the error output.
    StdErr,
    /// On the standard output.
    StdOut,
    /// Not at all.
    Nowhere,
}

/// Which records go to the console: to the standard output those from a
/// given level on, to the error output the errors.
#[derive(Clone, Copy, Debug, PartialEq, Eq, Structural)]
pub struct LoggerRedirect {
    std_out: Option<LoggerLevel>,
    std_err: bool,
}

impl LoggerRedirect {
    /// The level from which on records go to the standard output, if any do.
    pub closed spec fn std_out(&self) -> Option<LoggerLevel> {
        self.std_out
    }

    /// Whether errors go to the error output.
    pub closed spec fn std_err(&self) -> bool {
        self.std_err
    }

    /// Where a record of `level` is shown: on the error output where errors
    /// go there and the level is `Error` or `Critical`; else on the standard
    /// output where the level reaches the one set for it; else nowhere.
    pub open spec fn target(&self, level: LoggerLevel) -> Redirect {
        if self.std_err() && (level == LoggerLevel::Error || level == LoggerLevel::Critical) {
            Redirect::StdErr
        } else if self.std_out() is Some && level.rank() >= self.std_out()->0.rank() {
            Redirect::StdOut
        } else {
            Redirect::Nowhere
        }
    }

    pub fn new(std_out: Option<LoggerLevel>, std_err: bool) -> (redirect: Self)
        ensures
            redirect.std_out() == std_out,
            redirect.std_err() == std_err,
    {
        LoggerRedirect { std_out, std_err }
    }

    /// Where the record `write` is to be shown.
    pub fn handle_redirect(&self, write: &LoggerWrite) -> (target: Redirect)
        ensures
            target == self.target(write.grade()),
    {
        let level = write.level();
        if self.std_err && (level == LoggerLevel::Error || level == LoggerLevel::Critical) {
            return Redirect::StdErr;
        }
        match self.std_out {
            Some(from) => {
                if level.at_least(from) {
                    Redirect::StdOut
                } else {
                    Redirect::Nowhere
                }
            },
            None => Redirect::Nowhere,
        }
    }
}

impl Default for LoggerRedirect {
    /// Nothing goes to the standard output; errors go to the error output.
    fn default() -> (redirect: Self)
        ensures
            redirect.std_out() == None::<LoggerLevel>,
            redirect.std_err(),
    {
        LoggerRedirect { std_out: None, std_err: true }
    }
}

/// One record of the log, while it is written.
#[derive(Clone, Debug)]
pub struct LoggerWrite {
    time_stamp: String,
    contents: String,
    level: LoggerLevel,
}

impl LoggerWrite {
    /// When the record was begun, as text.
    pub closed spec fn stamp(&self) -> Seq<char> {
        self.time_stamp@
    }

    /// What the record says so far.
    pub closed spec fn body(&self) -> Seq<char> {
        self.contents@
    }

    /// How grave the record is.
    pub closed spec fn grade(&self) -> LoggerLevel {
        self.level
    }

    /// The record as one line with its level: time, level and contents with
    /// a space between them.
    pub open spec fn levelled_line(&self) -> Seq<char> {
        self.stamp() + " "@ + self.grade().name() + " "@ + self.body() + "\n"@
    }

    /// The record as one line without its level: the contents right after
    /// the time.
    pub open spec fn plain_line(&self) -> Seq<char> {
        self.stamp() + self.body() + "\n"@
    }

    /// A record that says nothing yet.
    pub fn blank(level: LoggerLevel, time_stamp: String) -> (write: Self)
        ensures
            write.stamp() == time_stamp@,
            write.body() == Seq::<char>::empty(),
            write.grade() == level,
    {
        LoggerWrite { time_stamp, contents: String::new(), level }
    }

    /// A record that says `contents` as `Debug` shows it.
    pub fn new<T: core::fmt::Debug>(
        time_stamp: String,
        contents: &T,
        level: LoggerLevel,
    ) -> (write: Self)
        ensures
            write.stamp() == time_stamp@,
            write.grade() == level,
    {
        LoggerWrite { time_stamp, contents: debug_text(contents), level }
    }

    /// A record that says `contents`.
    pub fn new_str(time_stamp: String, contents: String, level: LoggerLevel) -> (write: Self)
        ensures
            write.stamp() == time_stamp@,
            write.body() == contents@,
            write.grade() == level,
    {
        LoggerWrite { time_stamp, contents, level }
    }

    /// Whether a logger at `level` leaves this record out: the record is
    /// less grave than the level.
    pub fn ignore(&self, level: LoggerLevel) -> (ignored: bool)
        ensures
            ignored == (self.grade().rank() < level.rank()),
    {
        self.level.number() < level.number()
    }

    pub fn contents(&self) -> (contents: &str)
        ensures
            contents@ == self.body(),
    {
        self.contents.as_str()
    }

    pub fn level(&self) -> (level: LoggerLevel)
        ensures
            level == self.grade(),
    {
        self.level
    }

    /// Adds `text` to what the record says.
    pub fn append_str(&mut self, text: &str)
        ensures
            final(self).stamp() == old(self).stamp(),
            final(self).grade() == old(self).grade(),
            final(self).body() == old(self).body() + text@,
    {
        self.contents.push_str(text);
    }

    /// Adds `cont`, as `Debug` shows it, to what the record says.
    pub fn append<T: core::fmt::Debug>(&mut self, cont: &T)
        ensures
            final(self).stamp() == old(self).stamp(),
            final(self).grade() == old(self).grade(),
            exists|shown: Seq<char>| final(self).body() == old(self).body() + shown,
    {
        let shown = debug_text(cont);
        self.append_str(shown.as_str());
    }

    /// The record as one line with its level, as bytes.
    pub fn into_bytes(self) -> (bytes: Vec<u8>)
        ensures
            bytes@ == encode_utf8(self.levelled_line()),
    {
        let mut line = self.time_stamp;
        line.push_str(" ");
        line.push_str(self.level.to_string().as_str());
        line.push_str(" ");
        line.push_str(self.contents.as_str());
        line.push_str("\n");
        assert(line@ =~= self.levelled_line());
        line.as_str().as_bytes_vec()
    }
}

/// Whether `line` is the line of a record of `level` that says `contents`,
/// begun at some time: the time, the name of the level and the contents
/// with a space between them and a line feed after them, in UTF-8.
pub open spec fn is_line_for(line: Seq<u8>, level: LoggerLevel, contents: Seq<char>) -> bool {
    exists|stamp: Seq<char>| line == line_at(stamp, level, contents)
}

/// The line of a record of `level` that says `contents`, begun at the time
/// `stamp`.
pub open spec fn line_at(stamp: Seq<char>, level: LoggerLevel, contents: Seq<char>) -> Seq<u8> {
    encode_utf8(stamp + " "@ + level.name() + " "@ + contents + "\n"@)
}

/// What a caller does with a finished record: write `line` to the file of
/// the log, and show `shown` on the console where `target` says.
#[derive(Clone, Debug)]
pub struct LogRecord {
    pub line: Vec<u8>,
    pub target: Redirect,
    pub shown: String,
}

/// The state of a logger: its level, where it shows records, and the record
/// that is being written, if one is.
#[derive(Clone, Debug)]
pub struct LoadedLogger {
    level: LoggerLevel,
    redirect: LoggerRedirect,
    write: Option<LoggerWrite>,
}

impl LoadedLogger {
    /// The level of the logger.
    pub closed spec fn grade(&self) -> LoggerLevel {
        self.level
    }

    /// Where the logger shows records.
    pub closed spec fn shows(&self) -> LoggerRedirect {
        self.redirect
    }

    /// The record that is being written, if one is.
    pub closed spec fn open_record(&self) -> Option<LoggerWrite> {
        self.write
    }

    /// A logger with no record begun.
    pub fn new(level: LoggerLevel, redirect: LoggerRedirect) -> (logger: Self)
        ensures
            logger.grade() == level,
            logger.shows() == redirect,
            logger.open_record() is None,
    {
        LoadedLogger { level, redirect, write: None }
    }

    pub fn level(&self) -> (level: LoggerLevel)
        ensures
            level == self.grade(),
    {
        self.level
    }

    pub fn redirect(&self) -> (redirect: &LoggerRedirect)
        ensures
            *redirect == self.shows(),
    {
        &self.redirect
    }

    pub fn set_redirect(&mut self, new: LoggerRedirect)
        ensures
            final(self).shows() == new,
            final(self).grade() == old(self).grade(),
            final(self).open_record() == old(self).open_record(),
    {
        self.redirect = new
    }

    /// Whether a record is being written.
    pub fn is_writing(&self) -> (writing: bool)
        ensures
            writing == self.open_record() is Some,
    {
        self.write.is_some()
    }

    /// The level of the record that is being written.
    pub fn writing_level(&self) -> (level: Option<LoggerLevel>)
        ensures
            level == match self.open_record() {
                Some(write) => Some(write.grade()),
                None => None,
            },
    {
        match &self.write {
            Some(write) => Some(write.level()),
            None => None,
        }
    }

    /// Whether the record that is being written will be left out.
    pub fn current_log_ignored(&self) -> (ignored: Option<bool>)
        ensures
            ignored == match self.open_record() {
                Some(write) => Some(write.grade().rank() < self.grade().rank()),
                None => None,
            },
    {
        match &self.write {
            Some(write) => Some(write.ignore(self.level)),
            None => None,
        }
    }

    /// Begins a record of `level` at the time `time_stamp`. Fails, and
    /// changes nothing, where a record is being written already.
    pub fn start_log_at(
        &mut self,
        level: LoggerLevel,
        time_stamp: String,
    ) -> (result: Result<(), OperationError>)
        ensures
            final(self).grade() == old(self).grade(),
            final(self).shows() == old(self).shows(),
            old(self).open_record() is Some ==> result is Err && *final(self) == *old(self)
                && result->Err_0.action() == "start log"@ && result->Err_0.reason()
                == "log already started at level "@ + old(self).open_record()->0.grade().name(),
            old(self).open_record() is None ==> result is Ok && final(self).open_record() is Some
                && final(self).open_record()->0.stamp() == time_stamp@ && final(self).open_record()->0.body() == Seq::<char>::empty() && final(self).open_record()->0.grade() == level,
    {
        match &self.write {
            Some(write) => {
                let mut reason = "log already started at level ".to_owned();
                reason.push_str(write.level().to_string().as_str());
                return Err(OperationError::new("start log".to_owned(), reason));
            },
            None => {},
        }
        self.write = Some(LoggerWrite::new_str(time_stamp, String::new(), level));
        Ok(())
    }

    /// Begins a record of `level` at the present time, as `start_log_at`
    /// does.
    pub fn start_log(&mut self, level: LoggerLevel) -> (result: Result<(), OperationError>)
        ensures
            final(self).grade() == old(self).grade(),
            final(self).shows() == old(self).shows(),
            result is Ok <==> old(self).open_record() is None,
            result is Err ==> *final(self) == *old(self),
            result is Ok ==> final(self).open_record() is Some && final(self).open_record()->0.grade() == level && final(self).open_record()->0.body()
                == Seq::<char>::empty(),
    {
        self.start_log_at(level, local_time_text())
    }

    /// Adds `text` to the record that is being written; false, with nothing
    /// changed, where none is.
    pub fn write_str(&mut self, text: &str) -> (written: bool)
        ensures
            final(self).grade() == old(self).grade(),
            final(self).shows() == old(self).shows(),
            written == old(self).open_record() is Some,
            !written ==> *final(self) == *old(self),
            written ==> final(self).open_record() is Some && final(self).open_record()->0.stamp()
                == old(self).open_record()->0.stamp() && final(self).open_record()->0.grade()
                == old(self).open_record()->0.grade() && final(self).open_record()->0.body()
                == old(self).open_record()->0.body() + text@,
    {
        match self.write.take() {
            Some(mut write) => {
                write.append_str(text);
                self.write = Some(write);
                true
            },
            None => false,
        }
    }

    /// Adds `obj`, as `Debug` shows it, to the record that is being written;
    /// false, with nothing changed, where none is.
    pub fn write<T: core::fmt::Debug>(&mut self, obj: &T) -> (written: bool)
        ensures
            final(self).grade() == old(self).grade(),
            final(self).shows() == old(self).shows(),
            written == old(self).open_record() is Some,
            !written ==> *final(self) == *old(self),
    {
        let shown = debug_text(obj);
        self.write_str(shown.as_str())
    }

    /// What ending the record asks of the caller: nothing where the record
    /// is left out, else the line for the file and where to show the
    /// contents. An error where no record is being written.
    pub fn closing_record(&self) -> (result: Result<Option<LogRecord>, IOError>)
        ensures
            self.open_record() is None ==> result is Err && result->Err_0 is Core,
            self.open_record() is Some ==> result is Ok,
            self.open_record() is Some && self.open_record()->0.grade().rank() < self.grade().rank()
                ==> result->Ok_0 is None,
            self.open_record() is Some && self.open_record()->0.grade().rank()
                >= self.grade().rank() ==> result->Ok_0 is Some && result->Ok_0->0.line@
                == encode_utf8(self.open_record()->0.plain_line()) && result->Ok_0->0.target
                == self.shows().target(self.open_record()->0.grade()) && result->Ok_0->0.shown@
                == self.open_record()->0.body(),
    {
        match &self.write {
            None => Err(
                IOError::Core(
                    CoreError::Operation(
                        OperationError::new("end log".to_owned(), "no log was started".to_owned()),
                    ),
                ),
            ),
            Some(write) => {
                if write.ignore(self.level) {
                    Ok(None)
                } else {
                    let mut line = write.time_stamp.clone();
                    line.push_str(write.contents());
                    line.push_str("\n");
                    assert(line@ =~= write.plain_line());
                    Ok(
                        Some(
                            LogRecord {
                                line: line.as_str().as_bytes_vec(),
                                target: self.redirect.handle_redirect(write),
                                shown: write.contents.clone(),
                            },
                        ),
                    )
                }
            },
        }
    }

    /// Ends the record that is being written, once what `closing_record`
    /// asked for is done. An error, with nothing changed, where none is.
    pub fn end_log(&mut self) -> (result: Result<(), IOError>)
        ensures
            final(self).grade() == old(self).grade(),
            final(self).shows() == old(self).shows(),
            final(self).open_record() is None,
            result is Ok <==> old(self).open_record() is Some,
            result is Err ==> result->Err_0 is Core,
    {
        if self.write.is_none() {
            return Err(
                IOError::Core(
                    CoreError::Operation(
                        OperationError::new("end log".to_owned(), "no log was started".to_owned()),
                    ),
                ),
            );
        }
        self.write = None;
        Ok(())
    }

    /// The record for `contents` at `level`, written at once at the time
    /// `time_stamp`, whether or not another record is being written.
    pub fn write_direct_at(
        &self,
        time_stamp: String,
        contents: String,
        level: LoggerLevel,
    ) -> (record: LogRecord)
        ensures
            record.line@ == line_at(time_stamp@, level, contents@),
            record.target == self.shows().target(level),
            record.shown@ == contents@,
    {
        let shown = contents.clone();
        let write = LoggerWrite::new_str(time_stamp, contents, level);
        let target = self.redirect.handle_redirect(&write);
        LogRecord { line: write.into_bytes(), target, shown }
    }

    /// The record for `contents` at `level`, written at once at the present
    /// time.
    pub fn write_direct(&self, contents: String, level: LoggerLevel) -> (record: LogRecord)
        ensures
            is_line_for(record.line@, level, contents@),
            record.target == self.shows().target(level),
            record.shown@ == contents@,
    {
        let stamp = local_time_text();
        let record = self.write_direct_at(stamp, contents, level);
        assert(record.line@ == line_at(stamp@, level, contents@));
        record
    }
}

/// The record that `logger` writes for `contents` at `level`: one where the
/// level reaches that of the logger, none where it does not.
pub fn log_direct(
    logger: &LoadedLogger,
    level: LoggerLevel,
    contents: String,
) -> (record: Option<LogRecord>)
    ensures
        record is Some <==> level.rank() >= logger.grade().rank(),
        record is Some ==> ({
            &&& is_line_for(record->0.line@, level, contents@)
            &&& record->0.target == logger.shows().target(level)
            &&& record->0.shown@ == contents@
        }),
{
    if level.at_least(logger.level()) {
        Some(logger.write_direct(contents, level))
    } else {
        None
    }
}

/// A logger that threads share: a mutex around the state of a logger, or
/// around nothing while the log is closed.
pub struct Logger {
    data: Arc<Mutex<Option<LoadedLogger>>>,
}

impl Default for Logger {
    /// A closed log.
    fn default() -> Self {
        Logger { data: Arc::new(mutex_new(None)) }
    }
}

impl Logger {
    /// The lock that the threads share.
    pub closed spec fn shared(&self) -> Arc<Mutex<Option<LoadedLogger>>> {
        self.data
    }
}

impl MutexProvider for Logger {
    type Data = Option<LoadedLogger>;

    /// Leads to the lock of this provider.
    fn access_raw(&self) -> (access: ProtectedAccess<'_, Arc<Mutex<Self::Data>>>)
        ensures
            *access.data() == self.shared(),
    {
        ProtectedAccess::new(&self.data)
    }
}

impl OptionMutexProvider<LoadedLogger> for Logger {

}

impl Logger {
    /// Opens the log at `level`, showing records as `redirect` says.
    pub fn open(&self, level: LoggerLevel, redirect: LoggerRedirect) {
        self.pass(LoadedLogger::new(level, redirect));
    }

    /// The level of the log; none while it is closed or its mutex is
    /// poisoned.
    pub fn level(&self) -> Option<LoggerLevel> {
        let guard = self.access();
        match guard.access() {
            Some(logger) => Some(logger.level()),
            None => None,
        }
    }
}

/// The record that the shared log `log` writes for `contents` at `level`:
/// none while the log is closed, else what `log_direct` gives. Whether the
/// log is open, and at which level, the threads that share it decide; a
/// record that is written says `contents` at `level`.
pub fn log_global(log: &Logger, level: LoggerLevel, contents: String) -> (record: Option<LogRecord>)
    ensures
        record is Some ==> ({
            &&& is_line_for(record->0.line@, level, contents@)
            &&& record->0.shown@ == contents@
        }),
{
    if !log.is_open() {
        return None;
    }
    let mut lock = log.access();
    match lock.access_mut() {
        Some(logger) => log_direct(logger, level, contents),
        None => None,
    }
}

} // verus!

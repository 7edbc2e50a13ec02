use vstd::prelude::*;
use vstd::string::*;

use crate::ansi_string::{cursor_move_code, ShAnsiString};
use crate::escape_sequence::{ESC0M, ESC2J};

verus! {

/// What a command reports after a step: finished, or to be stepped again.
#[derive(Debug, Clone, Copy, PartialEq, Eq, PartialOrd, Ord, Structural)]
pub enum ShExecuteStatus {
    Done,
    Running,
}

/// Numeric codes of [`ShExecuteStatus`] as seen by scripts.
pub struct ExecuteStatus;

impl ExecuteStatus {
    pub const DONE: u8 = 0;
    pub const RUNNING: u8 = 1;
}

/// Standard basic color indexes of a terminal's 256-color palette.
pub struct Color256;

impl Color256 {
    pub const BLACK: i16 = 0;
    pub const RED: i16 = 1;
    pub const GREEN: i16 = 2;
    pub const YELLOW: i16 = 3;
    pub const BLUE: i16 = 4;
    pub const MAGENTA: i16 = 5;
    pub const CYAN: i16 = 6;
    pub const WHITE: i16 = 7;
    pub const BRIGHT_BLACK: i16 = 8;
    pub const BRIGHT_RED: i16 = 9;
    pub const BRIGHT_GREEN: i16 = 10;
    pub const BRIGHT_YELLOW: i16 = 11;
    pub const BRIGHT_BLUE: i16 = 12;
    pub const BRIGHT_MAGENTA: i16 = 13;
    pub const BRIGHT_CYAN: i16 = 14;
    pub const BRIGHT_WHITE: i16 = 15;
}

/// A command registered by name; scripts override its steps, and by default
/// every step finishes at once.
pub struct Command {
    /// The registered command name.
    pub command_name: String,
}

impl Command {
    /// Runs when the command is entered, with its space-separated parameters.
    pub fn start(&self, params: &Vec<String>) -> (r: ShExecuteStatus)
        ensures
            r == ShExecuteStatus::Done,
    {
        ShExecuteStatus::Done
    }

    /// Runs on every tick while the command reports `Running`.
    pub fn running(&self) -> (r: ShExecuteStatus)
        ensures
            r == ShExecuteStatus::Done,
    {
        ShExecuteStatus::Done
    }

    /// Runs on an interrupt (Control+C); does nothing by default.
    pub fn interrupting(&self) {
    }
}

/// The `cls` command: clears the screen and puts the cursor home.
pub struct CmdCls;

impl CmdCls {
    pub fn command_name(&self) -> (r: String)
        ensures
            r@ == "cls"@,
    {
        String::from_str("cls")
    }

    /// Returns the status and the text to echo.
    pub fn start(&mut self) -> (r: (ShExecuteStatus, ShAnsiString))
        ensures
            r.0 == ShExecuteStatus::Done,
            r.1.text() == ESC2J@ + cursor_move_code(1, 1),
    {
        let echo = ShAnsiString::new().clear_entire_screen().cursor_move_to(1, 1);
        (ShExecuteStatus::Done, echo)
    }
}

/// The `version` command: reports the shell's and the terminal's versions.
pub struct CmdVersion;

impl CmdVersion {
    pub fn command_name(&self) -> (r: String)
        ensures
            r@ == "version"@,
    {
        String::from_str("version")
    }

    /// Returns the status and the text to echo.
    pub fn start(&mut self, shell_version: &str, terminal_version: &str) -> (r: (
        ShExecuteStatus,
        ShAnsiString,
    ))
        ensures
            r.0 == ShExecuteStatus::Done,
            r.1.text() == "Termdot Shell Version: "@ + shell_version@ + "\r\n"@
                + "Termdot Terminal Version: "@ + terminal_version@ + "\r\n"@,
    {
        let mut line = String::from_str("Termdot Shell Version: ");
        line.append(shell_version);
        line.append("\r\n");
        line.append("Termdot Terminal Version: ");
        line.append(terminal_version);
        line.append("\r\n");
        proof {
            reveal_strlit("\r\n");
        }
        let echo = ShAnsiString::new().append(line.as_str());
        proof {
            assert(echo.text() =~= "Termdot Shell Version: "@ + shell_version@ + "\r\n"@
                + "Termdot Terminal Version: "@ + terminal_version@ + "\r\n"@);
        }
        (ShExecuteStatus::Done, echo)
    }
}

/// One queued log line followed by a line break in its own colors.
pub open spec fn log_line(l: ShAnsiString) -> Seq<char> {
    l.text() + l.colored("\r\n"@)
}

/// The lines of `logs`, in order.
pub open spec fn log_lines(logs: Seq<ShAnsiString>) -> Seq<char>
    decreases logs.len(),
{
    if logs.len() == 0 {
        Seq::empty()
    } else {
        log_lines(logs.drop_last()) + log_line(logs.last())
    }
}

/// The level tag of a log line.
#[derive(Debug, Clone, Copy, PartialEq, Eq, Structural)]
pub enum LogLevel {
    Info,
    Warn,
    Error,
}

/// The `log` command: echoes queued log lines, at most `max_peek` per tick.
pub struct CmdLog {
    max_peek: usize,
}

/// Lines echoed per tick by the `log` command.
pub const LOG_MAX_PEEK: usize = 500;

impl CmdLog {
    pub closed spec fn spec_max_peek(&self) -> usize {
        self.max_peek
    }

    pub fn new() -> (r: Self)
        ensures
            r.spec_max_peek() == LOG_MAX_PEEK,
    {
        CmdLog { max_peek: LOG_MAX_PEEK }
    }

    pub fn command_name(&self) -> (r: String)
        ensures
            r@ == "log"@,
    {
        String::from_str("log")
    }

    pub fn start(&mut self) -> (r: ShExecuteStatus)
        ensures
            r == ShExecuteStatus::Running,
    {
        ShExecuteStatus::Running
    }

    /// Takes up to `max_peek` lines from the front of `logs` and returns the
    /// text to echo: each taken line followed by a line break. Keeps running.
    pub fn running(&mut self, logs: &mut Vec<ShAnsiString>) -> (r: (ShExecuteStatus, ShAnsiString))
        requires
            old(self).spec_max_peek() >= 1,
        ensures
            r.0 == ShExecuteStatus::Running,
            ({
                let n = if old(logs)@.len() < old(self).spec_max_peek() {
                    old(logs)@.len()
                } else {
                    old(self).spec_max_peek() as nat
                };
                &&& final(logs)@ == old(logs)@.subrange(n as int, old(logs)@.len() as int)
                &&& r.1.text() == log_lines(old(logs)@.subrange(0, n as int))
            }),
            *final(self) == *old(self),
    {
        let ghost all = logs@;
        let mut echo = ShAnsiString::new();
        let mut peeked: usize = 0;
        proof {
            reveal_strlit("\r\n");
            assert(all.subrange(0, 0) =~= Seq::<ShAnsiString>::empty());
            assert(all.subrange(0, all.len() as int) =~= all);
        }
        while logs.len() > 0 && peeked < self.max_peek
            invariant
                peeked <= self.max_peek,
                peeked <= all.len(),
                logs@ == all.subrange(peeked as int, all.len() as int),
                echo.text() == log_lines(all.subrange(0, peeked as int)),
                echo.no_colors(),
            decreases logs@.len(),
        {
            let log = logs.remove(0);
            proof {
                reveal_strlit("\r\n");
            }
            let line = log.append("\r\n");
            let ghost before = echo.text();
            proof {
                assert(log == all[peeked as int]);
                assert(line.text() == log_line(log));
                assert(log.colored("\r\n"@).len() >= 2);
            }
            echo = echo.append(line.as_str());
            peeked += 1;
            proof {
                assert(echo.text() == before + line.text());
                assert(all.subrange(0, peeked as int).last() == log);
                assert(all.subrange(0, peeked as int).drop_last() =~= all.subrange(
                    0,
                    peeked - 1,
                ));
                assert(logs@ =~= all.subrange(peeked as int, all.len() as int));
                assert(echo.text() =~= log_lines(all.subrange(0, peeked as int)));
            }
        }
        (ShExecuteStatus::Running, echo)
    }

    /// The log line for `log` at `level`: `[time] [LEVEL] log`, the level
    /// colored green, yellow or red.
    pub fn format_line(time: &str, level: LogLevel, log: &str) -> (r: ShAnsiString)
        ensures
            r.no_colors(),
            r.text() == "["@ + time@ + "] "@ + "["@ + (match level {
                LogLevel::Info => "\u{1b}[38;5;2mINFO"@,
                LogLevel::Warn => "\u{1b}[38;5;3mWARN"@,
                LogLevel::Error => "\u{1b}[38;5;1mERROR"@,
            }) + ESC0M@ + "] "@ + log@,
    {
        let mut stamp = String::from_str("[");
        stamp.append(time);
        stamp.append("] ");
        let (color, tag) = match level {
            LogLevel::Info => (Color256::GREEN, "INFO"),
            LogLevel::Warn => (Color256::YELLOW, "WARN"),
            LogLevel::Error => (Color256::RED, "ERROR"),
        };
        proof {
            reveal_strlit("[");
            reveal_strlit("] ");
            reveal_strlit("INFO");
            reveal_strlit("WARN");
            reveal_strlit("ERROR");
            reveal_strlit("\u{1b}[38;5;");
            reveal_strlit("m");
            reveal_strlit("\u{1b}[38;5;2mINFO");
            reveal_strlit("\u{1b}[38;5;3mWARN");
            reveal_strlit("\u{1b}[38;5;1mERROR");
        }
        let r = ShAnsiString::new().append(stamp.as_str()).append("[").foreground_256(color).append(
            tag,
        ).clear_style().append("] ").append(log);
        r
    }
}

} // verus!

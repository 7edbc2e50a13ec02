use termdot::ansi_string::ShAnsiString;
use termdot::ansi_string_node::AnsiString;
use termdot::command::{CmdCls, CmdLog, CmdVersion, Color256, Command, ExecuteStatus, LogLevel, ShExecuteStatus};

#[test]
fn test_ansi_string() {
    let ansi_str = ShAnsiString::new()
        .foreground_256(15)
        .background_rgb(112, 112, 112)
        .italic()
        .underline()
        .strikethrough()
        .append("Hello World!")
        .tab()
        .de_underline()
        .de_strikethrough()
        .bold()
        .foreground_rgb(175, 0, 0)
        .background_256(32)
        .append(" Hello you!")
        .clear_style()
        .space()
        .crlf()
        .de_bold()
        .de_italic()
        .blinking()
        .background_256(64)
        .append_bool(true)
        .space_in(1)
        .append_char('💖')
        .space()
        .append(&0.43f32.to_string())
        .space()
        .append(&0.64f64.to_string())
        .space()
        .append_i16(12)
        .space()
        .append_i32(44)
        .space()
        .append_i64(32)
        .space()
        .append_i8(8)
        .space()
        .append_u8(123)
        .space()
        .append_u16(32)
        .space()
        .append_u32(42)
        .space()
        .append_u64(32)
        .save_cursor_position()
        .cursor_move_to(0, 0)
        .append("Home")
        .restore_cursor_position()
        .append_i32(0xffffff)
        .clear_style();
    println!("{}", ansi_str.as_str());
    assert_eq!(ansi_str.clear_str().as_str(), "");
}

#[test]
fn colors_wrap_appended_text() {
    let s = ShAnsiString::new().foreground_256(15).append("Hi");
    assert_eq!(s.as_str(), "\u{1b}[38;5;15mHi");
    let s = ShAnsiString::new()
        .foreground_256(15)
        .background_rgb(112, 112, 112)
        .append("X");
    assert_eq!(s.as_str(), "\u{1b}[48;2;112;112;112m\u{1b}[38;5;15mX");
    let s = ShAnsiString::new()
        .background_256(32)
        .foreground_rgb(175, 0, 0)
        .append("Y");
    assert_eq!(s.as_str(), "\u{1b}[38;2;175;0;0m\u{1b}[48;5;32mY");
}

#[test]
fn out_of_range_colors_are_ignored() {
    let s = ShAnsiString::new().foreground_256(300).background_256(-1).append("a");
    assert_eq!(s.as_str(), "a");
    let s = ShAnsiString::new().foreground_rgb(1, 256, 3).background_rgb(-2, 0, 0).append("b");
    assert_eq!(s.as_str(), "b");
    // An RGB foreground replaces a palette foreground and the other way round.
    let s = ShAnsiString::new().foreground_256(1).foreground_rgb(1, 2, 3).append("c");
    assert_eq!(s.as_str(), "\u{1b}[38;2;1;2;3mc");
}

#[test]
fn clear_style_resets_colors() {
    let s = ShAnsiString::new().foreground_256(3).clear_style().append("z");
    assert_eq!(s.as_str(), "\u{1b}[0mz");
    let s = ShAnsiString::default().append("");
    assert!(s.is_empty());
}

#[test]
fn numbers_and_cursor() {
    let s = ShAnsiString::new()
        .append_i64(i64::MIN)
        .space()
        .append_u64(u64::MAX)
        .space()
        .append_i8(-8)
        .cursor_move_to(-3, 12);
    assert_eq!(
        s.as_str(),
        "-9223372036854775808 18446744073709551615 -8\u{1b}[-3;12H"
    );
    let s = ShAnsiString::new().append_u32(0).append_u16(65535).append_i16(-32768);
    assert_eq!(s.as_str(), "065535-32768");
}

#[test]
fn fixed_text_cuts_or_pads() {
    assert_eq!(ShAnsiString::new().append_fixed_text("abc", 5).as_str(), "abc  ");
    assert_eq!(ShAnsiString::new().append_fixed_text("abcdef", 3).as_str(), "abc");
    assert_eq!(ShAnsiString::new().append_fixed_text("ééé", 4).as_str(), "ééé");
    assert_eq!(ShAnsiString::new().append_fixed_text("é", 2).as_str(), "é ");
    assert_eq!(ShAnsiString::new().append_fixed_text("", 2).as_str(), "  ");
}

#[test]
fn styles_and_layout_sequences() {
    let s = ShAnsiString::new()
        .bold()
        .de_bold()
        .italic()
        .de_italic()
        .underline()
        .de_underline()
        .blinking()
        .de_blinking()
        .strikethrough()
        .de_strikethrough();
    assert_eq!(
        s.as_str(),
        "\u{1b}[1m\u{1b}[22m\u{1b}[3m\u{1b}[23m\u{1b}[4m\u{1b}[24m\u{1b}[5m\u{1b}[25m\u{1b}[9m\u{1b}[29m"
    );
    let s = ShAnsiString::new()
        .save_cursor_position()
        .restore_cursor_position()
        .clear_cursor_to_end()
        .clear_cursor_to_start()
        .clear_line()
        .clear_entire_screen()
        .crlf()
        .tab()
        .space()
        .space_in(3);
    assert_eq!(
        s.as_str(),
        "\u{1b}[s\u{1b}[u\u{1b}[0K\u{1b}[1K\u{1b}[2K\u{1b}[2J\r\n\t    "
    );
}

#[test]
fn text_length_is_in_bytes() {
    let s = ShAnsiString::new().append("é").append_bool(false).append_char('💖');
    assert_eq!(s.as_str(), "éfalse💖");
    assert_eq!(s.len(), 11);
    assert!(!s.is_empty());
}

#[test]
fn node_builder_matches_value_builder() {
    let mut node = AnsiString::new();
    node.foreground_256(2);
    node.append("ok");
    node.bold();
    node.append_int(-5);
    node.clear_style();
    node.space_in(2);
    node.append_bool(true);
    node.cursor_move_to(1, 2);
    let value = ShAnsiString::new()
        .foreground_256(2)
        .append("ok")
        .bold()
        .append_i32(-5)
        .clear_style()
        .space_in(2)
        .append_bool(true)
        .cursor_move_to(1, 2);
    assert_eq!(node.as_str(), value.as_str());
    assert_eq!(node.len(), value.len() as i32);
    node.clear_str();
    assert!(node.is_empty());
    node.background_rgb(1, 2, 3);
    node.foreground_rgb(4, 5, 6);
    node.background_256(7);
    node.append("q");
    assert_eq!(node.as_str(), "\u{1b}[38;2;4;5;6m\u{1b}[48;5;7mq");
    let value = ShAnsiString::from(node).append("r");
    assert_eq!(value.as_str(), "\u{1b}[38;2;4;5;6m\u{1b}[48;5;7mq\u{1b}[38;2;4;5;6m\u{1b}[48;5;7mr");
}

#[test]
fn node_style_sequences() {
    let mut node = AnsiString::new();
    node.italic();
    node.de_italic();
    node.underline();
    node.de_underline();
    node.blinking();
    node.de_blinking();
    node.strikethrough();
    node.de_strikethrough();
    node.de_bold();
    node.save_cursor_position();
    node.restore_cursor_position();
    node.crlf();
    node.tab();
    node.space();
    node.clear_cursor_to_end();
    node.clear_cursor_to_start();
    node.clear_line();
    assert_eq!(
        node.as_str(),
        "\u{1b}[3m\u{1b}[23m\u{1b}[4m\u{1b}[24m\u{1b}[5m\u{1b}[25m\u{1b}[9m\u{1b}[29m\u{1b}[22m\u{1b}[s\u{1b}[u\r\n\t \u{1b}[0K\u{1b}[1K\u{1b}[2K"
    );
}

#[test]
fn internal_commands() {
    let (status, echo) = CmdCls.start();
    assert_eq!(status, ShExecuteStatus::Done);
    assert_eq!(echo.as_str(), "\u{1b}[2J\u{1b}[1;1H");
    assert_eq!(CmdCls.command_name(), "cls");

    let (status, echo) = CmdVersion.start("1.0", "2.0");
    assert_eq!(status, ShExecuteStatus::Done);
    assert_eq!(
        echo.as_str(),
        "Termdot Shell Version: 1.0\r\nTermdot Terminal Version: 2.0\r\n"
    );
    assert_eq!(CmdVersion.command_name(), "version");
}

#[test]
fn log_lines_format_and_peek() {
    let line = CmdLog::format_line("12:00", LogLevel::Info, "hello");
    assert_eq!(line.as_str(), "[12:00] [\u{1b}[38;5;2mINFO\u{1b}[0m] hello");
    let line = CmdLog::format_line("t", LogLevel::Error, "x");
    assert_eq!(line.as_str(), "[t] [\u{1b}[38;5;1mERROR\u{1b}[0m] x");
    let warn = CmdLog::format_line("t", LogLevel::Warn, "w");
    assert_eq!(warn.as_str(), "[t] [\u{1b}[38;5;3mWARN\u{1b}[0m] w");

    let mut cmd = CmdLog::new();
    assert_eq!(cmd.command_name(), "log");
    assert_eq!(cmd.start(), ShExecuteStatus::Running);
    let mut logs = vec![ShAnsiString::new().append("a"), ShAnsiString::new().append("b")];
    let (status, echo) = cmd.running(&mut logs);
    assert_eq!(status, ShExecuteStatus::Running);
    assert_eq!(echo.as_str(), "a\r\nb\r\n");
    assert!(logs.is_empty());

    let mut logs: Vec<ShAnsiString> = (0..501).map(|_| ShAnsiString::new().append("l")).collect();
    let (_, echo) = cmd.running(&mut logs);
    assert_eq!(logs.len(), 1);
    assert_eq!(echo.len(), 1500);
}

#[test]
fn command_defaults_and_codes() {
    let cmd = Command { command_name: String::from("hello") };
    assert_eq!(cmd.start(&vec![String::from("a")]), ShExecuteStatus::Done);
    assert_eq!(cmd.running(), ShExecuteStatus::Done);
    cmd.interrupting();
    assert_eq!(ExecuteStatus::DONE, 0);
    assert_eq!(ExecuteStatus::RUNNING, 1);
    assert_eq!(Color256::GREEN, 2);
    assert_eq!(Color256::BRIGHT_WHITE, 15);
    assert!(ShExecuteStatus::Done < ShExecuteStatus::Running);
}

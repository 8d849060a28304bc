//! How log lines are routed and written: ZMQ lines to their own file,
//! serial lines to theirs, everything else to the application log.

use vstd::prelude::*;
use vstd::string::StringExecFns;
use crate::text::{contains_text, padded_decimal, padded_right, push_padded_decimal, push_padded_right, str_contains};

verus! {

/// The file a log target is written to: targets within the ZMQ module go
/// to the ZMQ log, those within the serial module to the serial log, all
/// others to the application log.
pub open spec fn log_file_of(target: Seq<char>) -> Seq<char> {
    if contains_text(target, "radar_egui::zmq"@) {
        "logs/zmq.log"@
    } else if contains_text(target, "radar_egui::serial"@) {
        "logs/serial.log"@
    } else {
        "logs/app.log"@
    }
}

/// The file a log target is written to.
pub fn log_file_for_target(target: &str) -> (r: &'static str)
    ensures
        r@ == log_file_of(target@),
{
    if str_contains(target, "radar_egui::zmq") {
        "logs/zmq.log"
    } else if str_contains(target, "radar_egui::serial") {
        "logs/serial.log"
    } else {
        "logs/app.log"
    }
}

/// One log line: `"[<timestamp> <level padded to five> <target>] <message>\n"`.
pub open spec fn log_line_text(timestamp: Seq<char>, level: Seq<char>, target: Seq<char>, message: Seq<char>) -> Seq<char> {
    "["@ + timestamp + " "@ + padded_right(level, 5) + " "@ + target + "] "@ + message + "\n"@
}

/// One log line.
pub fn log_line(timestamp: &str, level: &str, target: &str, message: &str) -> (r: String)
    ensures
        r@ == log_line_text(timestamp@, level@, target@, message@),
{
    let mut s = String::from_str("[");
    s.append(timestamp);
    s.append(" ");
    push_padded_right(&mut s, level, 5);
    s.append(" ");
    s.append(target);
    s.append("] ");
    s.append(message);
    s.append("\n");
    s
}

/// A local date and time with milliseconds: `YYYY-MM-DD HH:MM:SS.mmm`.
pub open spec fn timestamp_of(year: u64, month: u64, day: u64, hour: u64, minute: u64, second: u64, millis: u64) -> Seq<char> {
    padded_decimal(year as nat, 4) + "-"@ + padded_decimal(month as nat, 2) + "-"@ + padded_decimal(
        day as nat,
        2,
    ) + " "@ + padded_decimal(hour as nat, 2) + ":"@ + padded_decimal(minute as nat, 2) + ":"@
        + padded_decimal(second as nat, 2) + "."@ + padded_decimal(millis as nat, 3)
}

/// A local date and time with milliseconds: `YYYY-MM-DD HH:MM:SS.mmm`.
pub fn format_timestamp(year: u64, month: u64, day: u64, hour: u64, minute: u64, second: u64, millis: u64) -> (r: String)
    ensures
        r@ == timestamp_of(year, month, day, hour, minute, second, millis),
{
    let mut s = String::new();
    push_padded_decimal(&mut s, year, 4);
    s.append("-");
    push_padded_decimal(&mut s, month, 2);
    s.append("-");
    push_padded_decimal(&mut s, day, 2);
    s.append(" ");
    push_padded_decimal(&mut s, hour, 2);
    s.append(":");
    push_padded_decimal(&mut s, minute, 2);
    s.append(":");
    push_padded_decimal(&mut s, second, 2);
    s.append(".");
    push_padded_decimal(&mut s, millis, 3);
    s
}

} // verus!

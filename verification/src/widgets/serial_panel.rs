//! The texts of the serial monitor: the game phase, the winner, the dirty
//! flags of the received command groups, and the frame log lines.

use vstd::prelude::*;
use vstd::string::StringExecFns;
use crate::text::{decimal, decimal_string};

verus! {

/// The serial monitor panel.
pub struct SerialPanel;

impl SerialPanel {
    /// The panel.
    pub fn new() -> (r: SerialPanel) {
        SerialPanel
    }
}

/// What a frame log line reports.
#[derive(Clone, Copy, Debug, PartialEq, Eq)]
pub enum SerialLogKind {
    Success,
    Failure,
    Rx,
    Tx,
    Info,
}

/// One line of the frame log.
#[derive(Clone, Debug)]
pub struct SerialFrameLogLine {
    pub text: String,
    pub kind: SerialLogKind,
}

/// The name of a game phase (the referee's `game_progress`).
pub open spec fn phase_text(progress: u8) -> Seq<char> {
    if progress == 0 {
        "未开始"@
    } else if progress == 1 {
        "准备阶段"@
    } else if progress == 2 {
        "十五秒倒计时"@
    } else if progress == 3 {
        "比赛中"@
    } else if progress == 4 {
        "结算中"@
    } else if progress == 5 {
        "比赛结束"@
    } else {
        "未知阶段"@
    }
}

/// The name of a game phase.
pub fn phase_label(progress: u8) -> (r: &'static str)
    ensures
        r@ == phase_text(progress),
{
    match progress {
        0 => "未开始",
        1 => "准备阶段",
        2 => "十五秒倒计时",
        3 => "比赛中",
        4 => "结算中",
        5 => "比赛结束",
        _ => "未知阶段",
    }
}

/// The winner of a game: none yet, red, blue, a draw, or the raw value.
pub open spec fn winner_text(winner: u8) -> Seq<char> {
    if winner == 0 {
        "—"@
    } else if winner == 1 {
        "红方"@
    } else if winner == 2 {
        "蓝方"@
    } else if winner == 3 {
        "平局"@
    } else {
        decimal(winner as nat)
    }
}

/// The winner of a game.
pub fn winner_label(winner: u8) -> (r: String)
    ensures
        r@ == winner_text(winner),
{
    match winner {
        0 => String::from_str("—"),
        1 => String::from_str("红方"),
        2 => String::from_str("蓝方"),
        3 => String::from_str("平局"),
        n => decimal_string(n as u64),
    }
}

/// One flag as a digit.
pub open spec fn flag_char(b: u8) -> Seq<char> {
    if b != 0 {
        "1"@
    } else {
        "0"@
    }
}

/// The first flags, one digit each.
pub open spec fn flag_digits(bits: Seq<u8>, n: int) -> Seq<char>
    decreases n,
{
    if n <= 0 {
        Seq::empty()
    } else {
        flag_digits(bits, n - 1) + flag_char(bits[n - 1])
    }
}

/// The first eight dirty flags as digits, followed by an ellipsis.
pub fn bits_preview(bits: &[u8; 15]) -> (r: String)
    ensures
        r@ == flag_digits(bits@, 8) + "…"@,
{
    let mut s = String::new();
    let mut i: usize = 0;
    while i < 8
        invariant
            i <= 8,
            bits@.len() == 15,
            s@ == flag_digits(bits@, i as int),
        decreases 8 - i,
    {
        if bits[i] != 0 {
            s.append("1");
        } else {
            s.append("0");
        }
        i = i + 1;
    }
    s.append("…");
    s
}

/// The command identifiers that the dirty flags stand for, in flag order.
pub open spec fn flag_command(i: int) -> Seq<char> {
    if i == 0 {
        "0x0001"@
    } else if i == 1 {
        "0x0002"@
    } else if i == 2 {
        "0x0101"@
    } else if i == 3 {
        "0x0105"@
    } else if i == 4 {
        "0x020C"@
    } else if i == 5 {
        "0x020E"@
    } else if i == 6 {
        "0x0301"@
    } else if i == 7 {
        "0x0121"@
    } else {
        "0x0305"@
    }
}

fn flag_command_name(i: usize) -> (r: &'static str)
    requires
        i < 9,
    ensures
        r@ == flag_command(i as int),
{
    if i == 0 {
        "0x0001"
    } else if i == 1 {
        "0x0002"
    } else if i == 2 {
        "0x0101"
    } else if i == 3 {
        "0x0105"
    } else if i == 4 {
        "0x020C"
    } else if i == 5 {
        "0x020E"
    } else if i == 6 {
        "0x0301"
    } else if i == 7 {
        "0x0121"
    } else {
        "0x0305"
    }
}

/// The command of the first set flag among the first nine, or a dash.
pub open spec fn last_cmd_text(bits: Seq<u8>) -> Seq<char> {
    if exists|i: int| 0 <= i < 9 && bits[i] != 0 {
        flag_command(choose|i: int| 0 <= i < 9 && bits[i] != 0 && forall|j: int| 0 <= j < i ==> bits[j] == 0)
    } else {
        "—"@
    }
}

/// The command of the first set flag among the first nine, or a dash.
pub fn last_cmd_hint(bits: &[u8; 15]) -> (r: String)
    ensures
        r@ == last_cmd_text(bits@),
{
    let mut i: usize = 0;
    while i < 9
        invariant
            i <= 9,
            bits@.len() == 15,
            forall|j: int| 0 <= j < i ==> bits@[j] == 0,
        decreases 9 - i,
    {
        if bits[i] != 0 {
            let ghost k = choose|k: int| 0 <= k < 9 && bits@[k] != 0 && forall|j: int| 0 <= j < k ==> bits@[j] == 0;
            assert(0 <= i < 9 && bits@[i as int] != 0 && forall|j: int| 0 <= j < i ==> bits@[j] == 0);
            assert(k == i) by {
                if k < i {
                    assert(bits@[k] == 0);
                } else if k > i {
                    assert(bits@[i as int] == 0);
                }
            }
            return String::from_str(flag_command_name(i));
        }
        i = i + 1;
    }
    String::from_str("—")
}

} // verus!

//! Wire encodings and the mode-transition table.
//!
//! The device understands commands in exactly one encoding at a time. There is
//! no universal "switch to X" command: each ordered pair of encodings has its
//! own bootstrap sequence, issued while the device still listens in the
//! current encoding. The table lives here as a spec-level plan; the session
//! executes it and is proved to write exactly the planned lines.

use crate::json::json_line;
use vstd::prelude::*;

verus! {

/// The wire encoding the device is believed to be in. `Unknown` holds only
/// between opening the transport and the first negotiation; it is never a
/// valid target.
#[derive(Clone, Copy, Debug, PartialEq, Eq, Structural)]
pub enum Mode {
    Unknown,
    Text,
    JsonLines,
    MsgPack,
}

/// A bare text command line: the keyword followed by a newline.
pub open spec fn text_line(cmd: Seq<char>) -> Seq<char> {
    cmd + "\n"@
}

/// A framed parameterless JSON command line.
pub open spec fn json_cmd_line_spec(cmd: Seq<char>) -> Seq<char> {
    json_line(cmd, Seq::<u8>::empty())
}

/// Whether the session knows a transition from `current` to `desired`.
/// `Unknown` is never a valid target, in any state — not even one already in
/// `Unknown`; staying in place is a no-op for the three real encodings.
pub open spec fn plan_ok(current: Mode, desired: Mode) -> bool {
    &&& desired != Mode::Unknown
    &&& {
        ||| current == desired
        ||| (desired == Mode::Text && (current == Mode::JsonLines || current == Mode::MsgPack))
        ||| desired == Mode::JsonLines
        ||| (desired == Mode::MsgPack && (current == Mode::JsonLines || current == Mode::Text))
    }
}

/// Whether the transition ends with the no-op synchronization probe: entering
/// `JsonLines` from text framing or from an unnegotiated wire first stops any
/// continuous acquisition, and the probe absorbs residual stream bytes.
pub open spec fn plan_probe(current: Mode, desired: Mode) -> bool {
    desired == Mode::JsonLines && (current == Mode::Text || current == Mode::Unknown)
}

/// The exact lines a transition writes, in order. Meaningful only where
/// `plan_ok(current, desired)` holds; a no-op pair writes nothing.
pub open spec fn plan_writes(current: Mode, desired: Mode) -> Seq<Seq<char>> {
    if current == desired {
        Seq::<Seq<char>>::empty()
    } else {
        match (desired, current) {
            (Mode::Text, Mode::JsonLines) => seq![text_line("jsonlines"@)],
            (Mode::Text, Mode::MsgPack) => seq![
                text_line("jsonlines"@),
                text_line("messagepack"@),
            ],
            (Mode::JsonLines, Mode::MsgPack) => seq![text_line("messagepack"@)],
            (Mode::JsonLines, _) => seq![
                json_cmd_line_spec("stop"@),
                json_cmd_line_spec("sdatac"@),
                text_line("jsonlines"@),
                json_cmd_line_spec("nop"@),
            ],
            (Mode::MsgPack, Mode::JsonLines) => seq![text_line("jsonlines"@)],
            (Mode::MsgPack, Mode::Text) => seq![json_cmd_line_spec("text"@)],
            _ => Seq::<Seq<char>>::empty(),
        }
    }
}

/// Asking for the real mode the session is already in plans no wire traffic:
/// with the session's contract that a no-op request reports `false` and a
/// completed transition records the target, a repeated request transitions on
/// the first call only and writes nothing on the second.
pub proof fn lemma_same_mode_plans_nothing(m: Mode)
    requires
        m != Mode::Unknown,
    ensures
        plan_ok(m, m),
        plan_writes(m, m) =~= Seq::<Seq<char>>::empty(),
{
}

/// The write log grew by some leading part of the transition's plan: what an
/// aborted transition may leave behind.
pub open spec fn wrote_plan_prefix(
    w0: Seq<Seq<char>>,
    w1: Seq<Seq<char>>,
    current: Mode,
    desired: Mode,
) -> bool {
    exists|k: int|
        0 <= k <= plan_writes(current, desired).len() && w1 =~= w0 + plan_writes(
            current,
            desired,
        ).take(k)
}

/// The bring-up table, written out: every ordered pair of distinct known
/// encodings has a transition, and its command sequence is exactly the one
/// the hardware documentation prescribes.
pub proof fn lemma_transition_completeness(current: Mode, desired: Mode)
    requires
        current != Mode::Unknown,
        desired != Mode::Unknown,
        current != desired,
    ensures
        plan_ok(current, desired),
        plan_writes(current, desired).len() > 0,
        plan_writes(Mode::JsonLines, Mode::Text) =~= seq![text_line("jsonlines"@)],
        plan_writes(Mode::MsgPack, Mode::Text) =~= seq![
            text_line("jsonlines"@),
            text_line("messagepack"@),
        ],
        plan_writes(Mode::MsgPack, Mode::JsonLines) =~= seq![text_line("messagepack"@)],
        plan_writes(Mode::Text, Mode::JsonLines) =~= seq![
            json_cmd_line_spec("stop"@),
            json_cmd_line_spec("sdatac"@),
            text_line("jsonlines"@),
            json_cmd_line_spec("nop"@),
        ],
        plan_writes(Mode::JsonLines, Mode::MsgPack) =~= seq![text_line("jsonlines"@)],
        plan_writes(Mode::Text, Mode::MsgPack) =~= seq![json_cmd_line_spec("text"@)],
{
}

} // verus!

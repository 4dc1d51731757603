//! The session: a transport paired with the device's believed wire encoding.
//!
//! Every operation either leaves the recorded mode alone or, in
//! `ensure_mode`, moves it to the target exactly when the whole bootstrap
//! sequence went out. The recorded mode and the device's actual encoding must
//! agree; `ensure_mode` is the only place the recorded side changes.

use crate::commands::{FromJsonLine, NoOp};
use crate::err::{ClientError, TransportError};
use crate::json;
use crate::modes::{
    json_cmd_line_spec, plan_ok, plan_probe, plan_writes, text_line, wrote_plan_prefix, Mode,
};
use crate::transport::Transport;
use vstd::prelude::*;
use vstd::seq_lib::*;
use vstd::string::StringExecFns;

verus! {

/// A session over a line transport: owns the channel exclusively and records
/// the encoding the device is believed to be in.
pub struct HackEEGClient<T: Transport> {
    transport: T,
    mode: Mode,
}

impl<T: Transport> HackEEGClient<T> {
    /// The believed device encoding.
    pub closed spec fn mode_spec(&self) -> Mode {
        self.mode
    }

    /// The lines this session has written to the wire, oldest first.
    pub closed spec fn written_spec(&self) -> Seq<Seq<char>> {
        self.transport.written()
    }

    /// The lines the wire still has to offer, next first.
    pub closed spec fn incoming_spec(&self) -> Seq<Seq<char>> {
        self.transport.incoming()
    }

    /// Resumes a session over `transport` whose device is already known to be
    /// in `mode`.
    pub fn with_mode(transport: T, mode: Mode) -> (c: Self)
        ensures
            c.mode_spec() == mode,
            c.written_spec() == transport.written(),
            c.incoming_spec() == transport.incoming(),
    {
        HackEEGClient { transport, mode }
    }

    /// Opens a session on a freshly connected transport: the device encoding
    /// starts out unknown and the session at once drives it to the JsonLines
    /// default, propagating a failed negotiation to the caller.
    pub fn new(transport: T) -> (r: Result<Self, ClientError>)
        ensures
            r matches Ok(c) ==> c.mode_spec() == Mode::JsonLines && (c.written_spec()
                =~= transport.written() + plan_writes(Mode::Unknown, Mode::JsonLines))
                && transport.incoming().len() > 0 && c.incoming_spec()
                == transport.incoming().drop_first(),
            r matches Err(e) ==> e matches ClientError::Transport(_),
    {
        let mut c = HackEEGClient { transport, mode: Mode::Unknown };
        match c.ensure_mode(Mode::JsonLines) {
            Ok(_) => Ok(c),
            Err(e) => Err(e),
        }
    }

    /// The believed device encoding.
    pub fn current_mode(&self) -> (m: Mode)
        ensures
            m == self.mode_spec(),
    {
        self.mode
    }

    /// The transport under the session, for inspection.
    pub fn transport(&self) -> (t: &T)
        ensures
            t.written() == self.written_spec(),
            t.incoming() == self.incoming_spec(),
    {
        &self.transport
    }

    /// Writes the bare keyword `cmd` followed by a newline: the framing the
    /// bootstrap commands use while the device listens in text mode. Returns
    /// how many characters went out.
    pub fn send_text_cmd(&mut self, cmd: &str) -> (r: Result<usize, TransportError>)
        ensures
            final(self).mode_spec() == old(self).mode_spec(),
            final(self).incoming_spec() == old(self).incoming_spec(),
            r matches Ok(n) ==> final(self).written_spec() == old(self).written_spec().push(
                text_line(cmd@),
            ) && n == text_line(cmd@).len(),
            r matches Err(_) ==> final(self).written_spec() == old(self).written_spec(),
    {
        let line = String::from_str(cmd).concat("\n");
        let n = line.as_str().unicode_len();
        match self.transport.write_line(line.as_str()) {
            Ok(_) => Ok(n),
            Err(e) => Err(e),
        }
    }

    /// Writes the JSON command object for `cmd` with no parameters, CRLF
    /// terminated. Returns how many characters went out.
    pub fn send_json_cmd(&mut self, cmd: &str) -> (r: Result<usize, TransportError>)
        ensures
            final(self).mode_spec() == old(self).mode_spec(),
            final(self).incoming_spec() == old(self).incoming_spec(),
            r matches Ok(n) ==> final(self).written_spec() == old(self).written_spec().push(
                json_cmd_line_spec(cmd@),
            ) && n == json_cmd_line_spec(cmd@).len(),
            (r matches Ok(_) && json::json_plain(cmd@)) ==> final(self).written_spec() == old(
                self,
            ).written_spec().push("{\"COMMAND\":\""@ + cmd@ + "\",\"PARAMETERS\":[]}\r\n"@),
            r matches Err(_) ==> final(self).written_spec() == old(self).written_spec(),
    {
        let line = json::json_cmd_line(cmd);
        let n = line.as_str().unicode_len();
        match self.transport.write_line(line.as_str()) {
            Ok(_) => Ok(n),
            Err(e) => Err(e),
        }
    }

    /// Sends the `jsonlines` bootstrap keyword as a bare text command.
    pub fn jsonlines(&mut self) -> (r: Result<usize, TransportError>)
        ensures
            final(self).mode_spec() == old(self).mode_spec(),
            final(self).incoming_spec() == old(self).incoming_spec(),
            r matches Ok(n) ==> final(self).written_spec() == old(self).written_spec().push(
                text_line("jsonlines"@),
            ) && n == text_line("jsonlines"@).len(),
            r matches Err(_) ==> final(self).written_spec() == old(self).written_spec(),
    {
        self.send_text_cmd("jsonlines")
    }

    /// Turns the board LED on.
    pub fn board_led_on(&mut self) -> (r: Result<(), TransportError>)
        ensures
            final(self).mode_spec() == old(self).mode_spec(),
            final(self).incoming_spec() == old(self).incoming_spec(),
            r matches Ok(_) ==> final(self).written_spec() == old(self).written_spec().push(
                json_cmd_line_spec("boardledon"@),
            ),
            r matches Err(_) ==> final(self).written_spec() == old(self).written_spec(),
    {
        match self.send_json_cmd("boardledon") {
            Ok(_) => Ok(()),
            Err(e) => Err(e),
        }
    }

    /// Turns the board LED off.
    pub fn board_led_off(&mut self) -> (r: Result<(), TransportError>)
        ensures
            final(self).mode_spec() == old(self).mode_spec(),
            final(self).incoming_spec() == old(self).incoming_spec(),
            r matches Ok(_) ==> final(self).written_spec() == old(self).written_spec().push(
                json_cmd_line_spec("boardledoff"@),
            ),
            r matches Err(_) ==> final(self).written_spec() == old(self).written_spec(),
    {
        match self.send_json_cmd("boardledoff") {
            Ok(_) => Ok(()),
            Err(e) => Err(e),
        }
    }

    /// Blocks until one response line arrives or the transport read times
    /// out; the line served is the next incoming one.
    pub fn read_response(&mut self) -> (r: Result<String, TransportError>)
        ensures
            final(self).mode_spec() == old(self).mode_spec(),
            final(self).written_spec() == old(self).written_spec(),
            r matches Ok(l) ==> old(self).incoming_spec().len() > 0 && l@ == old(self).incoming_spec()[0] && final(self).incoming_spec() == old(self).incoming_spec().drop_first(),
            r matches Err(_) ==> final(self).incoming_spec() == old(self).incoming_spec(),
    {
        self.transport.read_line()
    }

    /// Writes `line`, reads one response line and parses it as `R`.
    fn exchange<R: FromJsonLine>(&mut self, line: String) -> (r: Result<R, ClientError>)
        ensures
            final(self).mode_spec() == old(self).mode_spec(),
            r matches Ok(v) ==> final(self).written_spec() == old(self).written_spec().push(line@)
                && old(self).incoming_spec().len() > 0
                && final(self).incoming_spec() == old(self).incoming_spec().drop_first()
                && R::line_ok(old(self).incoming_spec()[0])
                && R::of_line(old(self).incoming_spec()[0], v),
            r matches Err(e) ==> (e matches ClientError::Transport(_) || e
                == ClientError::Deserialize),
            r == Err::<R, ClientError>(ClientError::Deserialize) ==> final(self).written_spec()
                == old(self).written_spec().push(line@) && old(self).incoming_spec().len() > 0
                && final(self).incoming_spec() == old(self).incoming_spec().drop_first()
                && !R::line_ok(old(self).incoming_spec()[0]),
            (r matches Err(e) && e matches ClientError::Transport(_)) ==> final(self).incoming_spec() == old(self).incoming_spec() && (final(self).written_spec() == old(self).written_spec() || final(self).written_spec() == old(self).written_spec().push(line@)),
    {
        match self.transport.write_line(line.as_str()) {
            Ok(_) => {},
            Err(e) => {
                return Err(ClientError::Transport(e));
            },
        }
        let resp = match self.transport.read_line() {
            Ok(l) => l,
            Err(e) => {
                return Err(ClientError::Transport(e));
            },
        };
        R::parse_line(resp.as_str())
    }

    /// Sends the parameterless JSON command `cmd`, reads exactly one response
    /// line and parses it as the caller-selected shape `R`. A line that does
    /// not parse is a deserialization error; the recorded mode is never
    /// touched either way.
    pub fn execute_json_cmd<R: FromJsonLine>(&mut self, cmd: &str) -> (r: Result<R, ClientError>)
        ensures
            final(self).mode_spec() == old(self).mode_spec(),
            r matches Ok(v) ==> final(self).written_spec() == old(self).written_spec().push(
                json_cmd_line_spec(cmd@),
            ) && old(self).incoming_spec().len() > 0 && final(self).incoming_spec() == old(self).incoming_spec().drop_first() && R::line_ok(old(self).incoming_spec()[0])
                && R::of_line(old(self).incoming_spec()[0], v),
            r matches Err(e) ==> (e matches ClientError::Transport(_) || e
                == ClientError::Deserialize),
            r == Err::<R, ClientError>(ClientError::Deserialize) ==> final(self).written_spec()
                == old(self).written_spec().push(json_cmd_line_spec(cmd@)) && old(self).incoming_spec().len() > 0 && final(self).incoming_spec() == old(self).incoming_spec().drop_first() && !R::line_ok(old(self).incoming_spec()[0]),
            (r matches Err(e) && e matches ClientError::Transport(_)) ==> final(self).incoming_spec() == old(self).incoming_spec() && (final(self).written_spec() == old(self).written_spec() || final(self).written_spec() == old(self).written_spec().push(
                json_cmd_line_spec(cmd@),
            )),
    {
        let line = json::json_cmd_line(cmd);
        self.exchange(line)
    }

    /// Issues the register-write command: one JSON command whose parameters
    /// are the register address and the value, response parsed as `R`. The
    /// returned status is not asserted here; callers inspect it and call
    /// `Status::assert_ok` where failure is fatal for them.
    pub fn write_register<R: FromJsonLine>(&mut self, address: u8, value: u8) -> (r: Result<
        R,
        ClientError,
    >)
        ensures
            final(self).mode_spec() == old(self).mode_spec(),
            r matches Ok(v) ==> final(self).written_spec() == old(self).written_spec().push(
                json::json_line("wreg"@, seq![address, value]),
            ) && old(self).incoming_spec().len() > 0 && final(self).incoming_spec() == old(self).incoming_spec().drop_first() && R::line_ok(old(self).incoming_spec()[0])
                && R::of_line(old(self).incoming_spec()[0], v),
            r matches Err(e) ==> (e matches ClientError::Transport(_) || e
                == ClientError::Deserialize),
            r == Err::<R, ClientError>(ClientError::Deserialize) ==> final(self).written_spec()
                == old(self).written_spec().push(json::json_line("wreg"@, seq![address, value]))
                && old(self).incoming_spec().len() > 0 && final(self).incoming_spec() == old(self).incoming_spec().drop_first() && !R::line_ok(old(self).incoming_spec()[0]),
            (r matches Err(e) && e matches ClientError::Transport(_)) ==> final(self).incoming_spec() == old(self).incoming_spec() && (final(self).written_spec() == old(self).written_spec() || final(self).written_spec() == old(self).written_spec().push(
                json::json_line("wreg"@, seq![address, value]),
            )),
    {
        let line = json::json_cmd_pair("wreg", address, value).concat("\r\n");
        self.exchange(line)
    }

    /// The no-op synchronization probe: executes `nop` and reports whether
    /// the reply parsed as the no-op shape. A parse failure is tolerated here
    /// and only here — the probe's reply is unreliable on some firmware
    /// states — while a transport failure is still an error.
    pub fn noop(&mut self) -> (r: Result<bool, ClientError>)
        ensures
            final(self).mode_spec() == old(self).mode_spec(),
            r matches Ok(b) ==> final(self).written_spec() == old(self).written_spec().push(
                json_cmd_line_spec("nop"@),
            ) && old(self).incoming_spec().len() > 0 && final(self).incoming_spec() == old(self).incoming_spec().drop_first() && b == <NoOp as FromJsonLine>::line_ok(
                old(self).incoming_spec()[0],
            ),
            r matches Err(e) ==> e matches ClientError::Transport(_),
            r matches Err(_) ==> final(self).incoming_spec() == old(self).incoming_spec() && (
            final(self).written_spec() == old(self).written_spec() || final(self).written_spec()
                == old(self).written_spec().push(json_cmd_line_spec("nop"@))),
    {
        match self.execute_json_cmd::<NoOp>("nop") {
            Ok(_v) => Ok(true),
            Err(ClientError::Deserialize) => Ok(false),
            Err(e) => Err(e),
        }
    }

    /// Drives the device into `desired` and records it: `Ok(true)` when a
    /// transition ran, `Ok(false)` when the device was already there. On
    /// success the lines written are exactly the bring-up sequence of the
    /// (current, desired) pair; on any error the recorded mode is unchanged.
    /// A pair the device does not support — any pair leading out of or into
    /// `Unknown` except staying put — reports the caller's contract violation.
    pub fn ensure_mode(&mut self, desired: Mode) -> (r: Result<bool, ClientError>)
        ensures
            r matches Ok(b) ==> final(self).mode_spec() == desired && plan_ok(
                old(self).mode_spec(),
                desired,
            ) && (b <==> old(self).mode_spec() != desired),
            (old(self).mode_spec() == desired && desired != Mode::Unknown) ==> r == Ok::<
                bool,
                ClientError,
            >(false) && final(self).written_spec() == old(self).written_spec() && final(self).incoming_spec() == old(self).incoming_spec(),
            r matches Ok(_) ==> final(self).written_spec() =~= old(self).written_spec()
                + plan_writes(old(self).mode_spec(), desired),
            (r matches Ok(_) && plan_probe(old(self).mode_spec(), desired)) ==> old(self).incoming_spec().len() > 0 && final(self).incoming_spec() == old(self).incoming_spec().drop_first(),
            (r matches Ok(_) && !plan_probe(old(self).mode_spec(), desired)) ==> final(self).incoming_spec() == old(self).incoming_spec(),
            r matches Err(_) ==> final(self).mode_spec() == old(self).mode_spec(),
            r matches Err(e) ==> (e matches ClientError::Transport(_) || e
                == ClientError::InvalidTransition),
            !plan_ok(old(self).mode_spec(), desired) ==> r == Err::<bool, ClientError>(
                ClientError::InvalidTransition,
            ) && final(self).written_spec() == old(self).written_spec(),
            r == Err::<bool, ClientError>(ClientError::InvalidTransition) ==> !plan_ok(
                old(self).mode_spec(),
                desired,
            ),
            r matches Err(_) ==> wrote_plan_prefix(
                old(self).written_spec(),
                final(self).written_spec(),
                old(self).mode_spec(),
                desired,
            ) && final(self).incoming_spec() == old(self).incoming_spec(),
    {
        let current = self.mode;
        if desired == Mode::Unknown {
            proof {
                lemma_wrote_plan_prefix(old(self).written_spec(), self.written_spec(), current, desired, 0);
            }
            return Err(ClientError::InvalidTransition);
        }
        if current == desired {
            return Ok(false);
        }
        match (desired, current) {
            (Mode::Text, Mode::JsonLines) => {
                match self.send_text_cmd("jsonlines") {
                    Ok(_) => {},
                    Err(e) => {
                        proof {
                            lemma_wrote_plan_prefix(old(self).written_spec(), self.written_spec(), current, desired, 0);
                        }
                        return Err(ClientError::Transport(e));
                    },
                }
            },
            (Mode::Text, Mode::MsgPack) => {
                match self.send_text_cmd("jsonlines") {
                    Ok(_) => {},
                    Err(e) => {
                        proof {
                            lemma_wrote_plan_prefix(old(self).written_spec(), self.written_spec(), current, desired, 0);
                        }
                        return Err(ClientError::Transport(e));
                    },
                }
                match self.send_text_cmd("messagepack") {
                    Ok(_) => {},
                    Err(e) => {
                        proof {
                            lemma_wrote_plan_prefix(old(self).written_spec(), self.written_spec(), current, desired, 1);
                        }
                        return Err(ClientError::Transport(e));
                    },
                }
            },
            (Mode::JsonLines, Mode::MsgPack) => {
                match self.send_text_cmd("messagepack") {
                    Ok(_) => {},
                    Err(e) => {
                        proof {
                            lemma_wrote_plan_prefix(old(self).written_spec(), self.written_spec(), current, desired, 0);
                        }
                        return Err(ClientError::Transport(e));
                    },
                }
            },
            (Mode::JsonLines, Mode::Text) | (Mode::JsonLines, Mode::Unknown) => {
                match self.send_json_cmd("stop") {
                    Ok(_) => {},
                    Err(e) => {
                        proof {
                            lemma_wrote_plan_prefix(old(self).written_spec(), self.written_spec(), current, desired, 0);
                        }
                        return Err(ClientError::Transport(e));
                    },
                }
                match self.send_json_cmd("sdatac") {
                    Ok(_) => {},
                    Err(e) => {
                        proof {
                            lemma_wrote_plan_prefix(old(self).written_spec(), self.written_spec(), current, desired, 1);
                        }
                        return Err(ClientError::Transport(e));
                    },
                }
                match self.send_text_cmd("jsonlines") {
                    Ok(_) => {},
                    Err(e) => {
                        proof {
                            lemma_wrote_plan_prefix(old(self).written_spec(), self.written_spec(), current, desired, 2);
                        }
                        return Err(ClientError::Transport(e));
                    },
                }
                match self.noop() {
                    Ok(_) => {},
                    Err(e) => {
                        proof {
                            // The probe may fail before or after its own
                            // write went out; either leaves a plan prefix.
                            if self.written_spec() =~= old(self).written_spec() + plan_writes(
                                current,
                                desired,
                            ).take(3) {
                                lemma_wrote_plan_prefix(old(self).written_spec(), self.written_spec(), current, desired, 3);
                            } else {
                                lemma_wrote_plan_prefix(old(self).written_spec(), self.written_spec(), current, desired, 4);
                            }
                        }
                        return Err(e);
                    },
                }
            },
            (Mode::MsgPack, Mode::JsonLines) => {
                match self.send_text_cmd("jsonlines") {
                    Ok(_) => {},
                    Err(e) => {
                        proof {
                            lemma_wrote_plan_prefix(old(self).written_spec(), self.written_spec(), current, desired, 0);
                        }
                        return Err(ClientError::Transport(e));
                    },
                }
            },
            (Mode::MsgPack, Mode::Text) => {
                match self.send_json_cmd("text") {
                    Ok(_) => {},
                    Err(e) => {
                        proof {
                            lemma_wrote_plan_prefix(old(self).written_spec(), self.written_spec(), current, desired, 0);
                        }
                        return Err(ClientError::Transport(e));
                    },
                }
            },
            _ => {
                proof {
                    lemma_wrote_plan_prefix(old(self).written_spec(), self.written_spec(), current, desired, 0);
                }
                return Err(ClientError::InvalidTransition);
            },
        }
        self.mode = desired;
        proof {
            assert(self.written_spec() =~= old(self).written_spec() + plan_writes(
                current,
                desired,
            ));
        }
        Ok(true)
    }
}

/// An aborted transition that has appended the first `k` planned lines to the
/// write log left a plan prefix behind.
proof fn lemma_wrote_plan_prefix(
    w0: Seq<Seq<char>>,
    w1: Seq<Seq<char>>,
    current: Mode,
    desired: Mode,
    k: int,
)
    requires
        0 <= k <= plan_writes(current, desired).len(),
        w1 =~= w0 + plan_writes(current, desired).take(k),
    ensures
        wrote_plan_prefix(w0, w1, current, desired),
{
}

} // verus!

//! The byte channel under the session, seen as a line transport.
//!
//! The session layer never touches a device directly: it goes through this
//! trait, whose model is the sequence of lines written so far and the sequence
//! of lines still to be read. A real serial port implements it outside the
//! library; `MemTransport` implements it here over vectors, for exercising the
//! session without hardware.

use crate::err::TransportError;
use vstd::prelude::*;
use vstd::string::StringExecFns;

verus! {

/// A serial-like channel that accepts whole lines and yields whole lines.
/// Either operation may fail at any time (the wire is physical); what the
/// contracts promise is only how the two logs change when it does not.
pub trait Transport: Sized {
    /// The lines written so far, oldest first.
    spec fn written(&self) -> Seq<Seq<char>>;

    /// The lines still to be read, next first.
    spec fn incoming(&self) -> Seq<Seq<char>>;

    /// Writes one line. On success the line is appended to the write log;
    /// on failure nothing was written.
    fn write_line(&mut self, line: &str) -> (r: Result<(), TransportError>)
        ensures
            final(self).incoming() == old(self).incoming(),
            r matches Ok(_) ==> final(self).written() == old(self).written().push(line@),
            r matches Err(_) ==> final(self).written() == old(self).written(),
    ;

    /// Blocks until one complete line arrives or the read times out. On
    /// success the line served is the next incoming one.
    fn read_line(&mut self) -> (r: Result<String, TransportError>)
        ensures
            final(self).written() == old(self).written(),
            r matches Ok(l) ==> old(self).incoming().len() > 0 && l@ == old(self).incoming()[0]
                && final(self).incoming() == old(self).incoming().drop_first(),
            r matches Err(_) ==> final(self).incoming() == old(self).incoming(),
    ;
}

/// A raw line channel as a real port offers it: writes a line, reads a line,
/// no model. Serial-like channels outside the library implement this;
/// `RawTransport` lifts such a channel to the modeled `Transport`.
pub trait RawLineIo: Sized {
    /// Writes one complete line to the channel.
    fn raw_write_line(&mut self, line: &str) -> Result<(), TransportError>;

    /// Blocks until one complete line arrives or the channel's read times
    /// out.
    fn raw_read_line(&mut self) -> Result<String, TransportError>;
}

/// A raw channel lifted to the modeled transport. The model is ghost: the
/// write log grows with each accepted line, and the incoming lines are
/// whatever the channel will serve, unknown ahead of time.
pub struct RawTransport<R: RawLineIo> {
    io: R,
    log: Ghost<Seq<Seq<char>>>,
    queue: Ghost<Seq<Seq<char>>>,
}

impl<R: RawLineIo> RawTransport<R> {
    /// Wraps a freshly opened channel: nothing written yet, and whatever the
    /// device will send still ahead.
    pub fn new(io: R) -> (t: Self)
        ensures
            t.written() == Seq::<Seq<char>>::empty(),
    {
        RawTransport { io, log: Ghost(Seq::empty()), queue: Ghost(arbitrary()) }
    }

    /// Relies on the channel serving complete lines in their arrival order:
    /// the line handed back is the next one the wire had to offer.
    #[verifier::external_body]
    fn read_next(&mut self) -> (r: Result<String, TransportError>)
        ensures
            final(self).written() == old(self).written(),
            r matches Ok(l) ==> old(self).incoming().len() > 0 && l@ == old(self).incoming()[0]
                && final(self).incoming() == old(self).incoming().drop_first(),
            r matches Err(_) ==> final(self).incoming() == old(self).incoming(),
    {
        self.io.raw_read_line()
    }
}

impl<R: RawLineIo> Transport for RawTransport<R> {
    closed spec fn written(&self) -> Seq<Seq<char>> {
        self.log@
    }

    closed spec fn incoming(&self) -> Seq<Seq<char>> {
        self.queue@
    }

    fn write_line(&mut self, line: &str) -> (r: Result<(), TransportError>) {
        match self.io.raw_write_line(line) {
            Ok(_) => {
                self.log = Ghost(self.log@.push(line@));
                Ok(())
            },
            Err(e) => Err(e),
        }
    }

    fn read_line(&mut self) -> (r: Result<String, TransportError>) {
        self.read_next()
    }
}

/// An in-memory transport: writes are recorded, reads are served from a queue
/// of canned replies and time out once the queue is exhausted.
pub struct MemTransport {
    sent: Vec<String>,
    replies: Vec<String>,
    served: usize,
}

impl MemTransport {
    /// A transport that will serve `replies` in order.
    pub fn new(replies: Vec<String>) -> (t: MemTransport)
        ensures
            t.written() == Seq::<Seq<char>>::empty(),
            t.incoming() == replies@.map_values(|s: String| s@),
    {
        let t = MemTransport { sent: Vec::new(), replies, served: 0 };
        proof {
            assert(t.written() =~= Seq::<Seq<char>>::empty());
            assert(t.incoming() =~= t.replies@.map_values(|s: String| s@));
        }
        t
    }

    /// The lines written so far, for inspection.
    pub fn sent_lines(&self) -> (r: &Vec<String>)
        ensures
            r@.map_values(|s: String| s@) == self.written(),
    {
        &self.sent
    }
}

impl Transport for MemTransport {
    closed spec fn written(&self) -> Seq<Seq<char>> {
        self.sent@.map_values(|s: String| s@)
    }

    closed spec fn incoming(&self) -> Seq<Seq<char>> {
        self.replies@.map_values(|s: String| s@).skip(self.served as int)
    }

    fn write_line(&mut self, line: &str) -> (r: Result<(), TransportError>) {
        self.sent.push(String::from_str(line));
        proof {
            assert(self.written() =~= old(self).written().push(line@));
            assert(self.incoming() =~= old(self).incoming());
        }
        Ok(())
    }

    fn read_line(&mut self) -> (r: Result<String, TransportError>) {
        if self.served < self.replies.len() {
            let line = self.replies[self.served].clone();
            self.served = self.served + 1;
            proof {
                let all = self.replies@.map_values(|s: String| s@);
                assert(old(self).incoming().len() > 0);
                assert(line@ == old(self).incoming()[0]);
                assert(self.incoming() =~= old(self).incoming().drop_first());
            }
            Ok(line)
        } else {
            Err(TransportError::Timeout)
        }
    }
}

} // verus!

//! An in-memory transport: a scripted byte source with a log of every byte
//! sent into it.
//!
//! The protocol needs only two transport operations — send a frame, then
//! read an exact number of bytes — so a transport is modelled as the byte
//! script the device side will answer with, a cursor into it, and the log
//! of sent bytes. The controller is verified against this model; an adapter
//! that owns a real serial port performs the same two operations on the
//! wire and feeds the session functions directly.

use vstd::prelude::*;
use vstd::slice::slice_subrange;
use vstd::slice::slice_to_vec;

use crate::protocol::ControllerErr;

verus! {

/// A transport backed by a fixed byte script.
pub struct ScriptTransport {
    /// The bytes the device side returns, in order.
    pub input: Vec<u8>,
    /// How many bytes of `input` have been handed out so far.
    pub pos: usize,
    /// Every byte sent over the transport so far, in order.
    pub sent: Vec<u8>,
}

impl ScriptTransport {
    /// A fresh transport over `input`, nothing read or sent yet.
    pub fn new(input: Vec<u8>) -> (t: ScriptTransport)
        ensures
            t.input@ == input@,
            t.pos == 0,
            t.sent@ == Seq::<u8>::empty(),
    {
        ScriptTransport { input, pos: 0, sent: Vec::new() }
    }

    /// Writes the exact byte sequence: every byte is appended to the sent
    /// log, and the reading side is untouched.
    pub fn send(&mut self, bytes: &Vec<u8>)
        ensures
            final(self).sent@ == old(self).sent@ + bytes@,
            final(self).input@ == old(self).input@,
            final(self).pos == old(self).pos,
    {
        proof {
            assert(self.sent@ + bytes@.subrange(0, 0) =~= self.sent@);
        }
        let mut i: usize = 0;
        while i < bytes.len()
            invariant
                i <= bytes@.len(),
                self.input@ == old(self).input@,
                self.pos == old(self).pos,
                self.sent@ == old(self).sent@ + bytes@.subrange(0, i as int),
            decreases bytes@.len() - i,
        {
            self.sent.push(bytes[i]);
            proof {
                assert(old(self).sent@ + bytes@.subrange(0, i as int) + seq![bytes@[i as int]]
                    =~= old(self).sent@ + bytes@.subrange(0, i + 1));
            }
            i = i + 1;
        }
        proof {
            assert(bytes@.subrange(0, bytes@.len() as int) =~= bytes@);
        }
    }

    /// Blocks until exactly `n` bytes are available — here: returns the
    /// next `n` script bytes and advances the cursor past them. When the
    /// script holds fewer than `n` pending bytes the read fails like a
    /// timed-out serial read, returning no partial result and leaving the
    /// cursor where it was.
    pub fn receive_exact(&mut self, n: usize) -> (r: Result<Vec<u8>, ControllerErr>)
        ensures
            old(self).pos + n <= old(self).input@.len() ==> (r is Ok && r->Ok_0@ == old(
                self,
            ).input@.subrange(old(self).pos as int, old(self).pos + n) && final(self).pos == old(
                self,
            ).pos + n),
            old(self).pos + n > old(self).input@.len() ==> (r == Err::<Vec<u8>, ControllerErr>(
                ControllerErr::SerialPortError,
            ) && final(self).pos == old(self).pos),
            final(self).input@ == old(self).input@,
            final(self).sent@ == old(self).sent@,
    {
        if self.pos <= self.input.len() && n <= self.input.len() - self.pos {
            let taken = slice_subrange(self.input.as_slice(), self.pos, self.pos + n);
            let out = slice_to_vec(taken);
            self.pos = self.pos + n;
            Ok(out)
        } else {
            Err(ControllerErr::SerialPortError)
        }
    }
}

} // verus!

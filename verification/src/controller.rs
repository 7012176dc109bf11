//! The controller: drives a full request/response session over a transport.
//!
//! `read_outcome` and `write_outcome` state, as functions of the command
//! and of the transport's pending bytes, exactly which reply comes back,
//! where the cursor ends up, and which bytes go out on the wire; `read`
//! and `write` are proved to realise them. The lemmas at the end record
//! the protocol's laws: only documented frames are ever sent, unsupported
//! commands cause no traffic, the power-down guard stops a read before its
//! second query, and a read is a pure decode of the pending bytes.

use vstd::prelude::*;

use crate::protocol::Command;
use crate::protocol::ControllerErr;
use crate::protocol::Reply;
use crate::protocol::SubCommand;
use crate::protocol::decode_reply_spec;
use crate::protocol::header_len_spec;
use crate::protocol::is_readable_spec;
use crate::protocol::is_writable_spec;
use crate::protocol::min_payload_len_spec;
use crate::protocol::payload_length;
use crate::protocol::power_status_frame_spec;
use crate::protocol::status_frame_spec;
use crate::protocol::write_frame_spec;
use crate::session::ReadStep;
use crate::session::read_continue;
use crate::session::read_finish;
use crate::session::read_request;
use crate::session::write_request;
use crate::transport::ScriptTransport;

verus! {

/// A five-byte response header lies within the script at `pos`.
pub open spec fn header_fits(input: Seq<u8>, pos: int) -> bool {
    0 <= pos && pos + header_len_spec() <= input.len()
}

/// Where one response exchange starting at `pos` ends: past the header
/// and past the payload whose length the header's byte index 3 declares.
pub open spec fn exchange_end(input: Seq<u8>, pos: int) -> int
    recommends
        header_fits(input, pos),
{
    pos + header_len_spec() + input[pos + 3]
}

/// A whole response exchange — header and declared payload — lies within
/// the script at `pos`.
pub open spec fn exchange_fits(input: Seq<u8>, pos: int) -> bool {
    header_fits(input, pos) && exchange_end(input, pos) <= input.len()
}

/// The payload of the response exchange starting at `pos`.
pub open spec fn exchange_payload(input: Seq<u8>, pos: int) -> Seq<u8>
    recommends
        exchange_fits(input, pos),
{
    input.subrange(pos + header_len_spec(), exchange_end(input, pos))
}

/// Everything a read does, as a function of the command, the byte script
/// and the cursor before the call: the reply or error returned, the cursor
/// after the call, and the bytes sent. A response the script cuts short,
/// like a payload too short for the command's decode rule, is a transport
/// fault; the power query's payload decides whether a non-power read may
/// issue its second exchange at all.
pub open spec fn read_outcome(c: Command, input: Seq<u8>, pos: int) -> (
    Result<Reply, ControllerErr>,
    int,
    Seq<u8>,
) {
    if !is_readable_spec(c) {
        (Err(ControllerErr::UnsupportedCommand), pos, Seq::<u8>::empty())
    } else if !header_fits(input, pos) {
        (Err(ControllerErr::SerialPortError), pos, power_status_frame_spec())
    } else if !exchange_fits(input, pos) {
        (Err(ControllerErr::SerialPortError), pos + header_len_spec(), power_status_frame_spec())
    } else {
        let power_payload = exchange_payload(input, pos);
        let mid = exchange_end(input, pos);
        if power_payload.len() < 3 {
            (Err(ControllerErr::SerialPortError), mid, power_status_frame_spec())
        } else if c == Command::Power(SubCommand::Status) {
            (Ok(Reply::State(power_payload[2] > 0)), mid, power_status_frame_spec())
        } else if power_payload[2] == 0 {
            (Err(ControllerErr::PowerIsDown), mid, power_status_frame_spec())
        } else {
            let sent = power_status_frame_spec() + status_frame_spec(c);
            if !header_fits(input, mid) {
                (Err(ControllerErr::SerialPortError), mid, sent)
            } else if !exchange_fits(input, mid) {
                (Err(ControllerErr::SerialPortError), mid + header_len_spec(), sent)
            } else {
                let payload = exchange_payload(input, mid);
                let end = exchange_end(input, mid);
                if payload.len() < min_payload_len_spec(c) {
                    (Err(ControllerErr::SerialPortError), end, sent)
                } else {
                    (Ok(decode_reply_spec(c, payload)), end, sent)
                }
            }
        }
    }
}

/// Everything a write does, as a function of the command alone: the
/// result returned and the bytes sent. A write never reads, so the
/// cursor is untouched.
pub open spec fn write_outcome(c: Command) -> (Result<(), ControllerErr>, Seq<u8>) {
    if is_writable_spec(c) {
        (Ok(()), write_frame_spec(c))
    } else {
        (Err(ControllerErr::UnsupportedCommand), Seq::<u8>::empty())
    }
}

/// The protocol controller: the sole owner of its transport, driving one
/// blocking request/response session at a time.
pub struct Controller {
    pub transport: ScriptTransport,
}

impl Controller {
    /// A controller over a transport of its own.
    pub fn new(transport: ScriptTransport) -> (c: Controller)
        ensures
            c.transport == transport,
    {
        Controller { transport }
    }

    /// Performs one exchange of the transport: sends `frame`, reads the
    /// five-byte header, then reads the payload the header declares.
    fn exchange(&mut self, frame: &Vec<u8>) -> (r: Result<Vec<u8>, ControllerErr>)
        ensures
            final(self).transport.input@ == old(self).transport.input@,
            final(self).transport.sent@ == old(self).transport.sent@ + frame@,
            ({
                let input = old(self).transport.input@;
                let pos = old(self).transport.pos as int;
                if !header_fits(input, pos) {
                    r == Err::<Vec<u8>, ControllerErr>(ControllerErr::SerialPortError) && final(self).transport.pos as int == pos
                } else if !exchange_fits(input, pos) {
                    r == Err::<Vec<u8>, ControllerErr>(ControllerErr::SerialPortError) && final(self).transport.pos as int == pos + header_len_spec()
                } else {
                    r is Ok && r->Ok_0@ == exchange_payload(input, pos) && final(self).transport.pos as int == exchange_end(input, pos)
                }
            }),
    {
        self.transport.send(frame);
        let header = match self.transport.receive_exact(5) {
            Ok(h) => h,
            Err(e) => {
                return Err(e);
            },
        };
        let n: usize = payload_length(&header);
        match self.transport.receive_exact(n) {
            Ok(payload) => Ok(payload),
            Err(e) => Err(e),
        }
    }

    /// Reads the current value of a `Status` query or of `LampTime`:
    /// queries the power state first, answers a power query on the spot,
    /// refuses everything else with `PowerIsDown` while the device is
    /// off, and otherwise decodes the command's own status response.
    pub fn read(&mut self, command: &Command) -> (r: Result<Reply, ControllerErr>)
        ensures
            ({
                let (res, end, sent) = read_outcome(
                    *command,
                    old(self).transport.input@,
                    old(self).transport.pos as int,
                );
                r == res && final(self).transport.input@ == old(self).transport.input@ && final(self).transport.pos as int == end && final(self).transport.sent@ == old(self).transport.sent@ + sent
            }),
    {
        let frame = match read_request(command) {
            Ok(f) => f,
            Err(e) => {
                return Err(e);
            },
        };
        let power_payload = match self.exchange(&frame) {
            Ok(p) => p,
            Err(e) => {
                return Err(e);
            },
        };
        match read_continue(command, &power_payload) {
            ReadStep::Reply(reply) => Ok(reply),
            ReadStep::Fail(e) => Err(e),
            ReadStep::Send(second) => {
                let payload = match self.exchange(&second) {
                    Ok(p) => p,
                    Err(e) => {
                        return Err(e);
                    },
                };
                read_finish(command, payload)
            },
        }
    }

    /// Sends the literal frame of an `Up`/`Down` command; a `Status`
    /// sub-command or `LampTime` is refused with `UnsupportedCommand`
    /// before any transport traffic. No response is decoded.
    pub fn write(&mut self, command: &Command) -> (r: Result<(), ControllerErr>)
        ensures
            ({
                let (res, sent) = write_outcome(*command);
                r == res && final(self).transport.input@ == old(self).transport.input@ && final(self).transport.pos == old(self).transport.pos && final(self).transport.sent@ == old(self).transport.sent@ + sent
            }),
    {
        match write_request(command) {
            Ok(frame) => {
                self.transport.send(&frame);
                Ok(())
            },
            Err(e) => Err(e),
        }
    }
}

/// Law: a read sends only documented traffic — the power-status query,
/// possibly followed by the single literal status frame of the command
/// being read, and never any other bytes.
pub proof fn lemma_read_sends_documented_frames(c: Command, input: Seq<u8>, pos: int)
    requires
        is_readable_spec(c),
    ensures
        read_outcome(c, input, pos).2 == power_status_frame_spec() || read_outcome(c, input, pos).2
            == power_status_frame_spec() + status_frame_spec(c),
{
}

/// Law: a read that returns a reply sent exactly the documented frames —
/// the power query alone for the power-status read, and the power query
/// followed by the command's own literal status frame for every other
/// readable command.
pub proof fn lemma_read_sends_exact_frames(c: Command, input: Seq<u8>, pos: int)
    requires
        is_readable_spec(c),
        read_outcome(c, input, pos).0 is Ok,
    ensures
        c == Command::Power(SubCommand::Status) ==> read_outcome(c, input, pos).2
            == power_status_frame_spec(),
        c != Command::Power(SubCommand::Status) ==> read_outcome(c, input, pos).2
            == power_status_frame_spec() + status_frame_spec(c),
{
}

/// Law: a write of an `Up`/`Down` command succeeds and sends exactly the
/// literal frame documented for its (property, direction) pair.
pub proof fn lemma_write_sends_exact_frame(c: Command)
    requires
        is_writable_spec(c),
    ensures
        write_outcome(c) == (Ok::<(), ControllerErr>(()), write_frame_spec(c)),
{
}

/// Law: a command outside the protocol table causes no transport traffic.
/// A write with a `Status` sub-command or of `LampTime`, and a read of an
/// `Up`/`Down` command, fail with `UnsupportedCommand`, send nothing, and
/// consume nothing.
pub proof fn lemma_unsupported_causes_no_traffic(c: Command, input: Seq<u8>, pos: int)
    ensures
        !is_writable_spec(c) ==> write_outcome(c) == (
            Err::<(), ControllerErr>(ControllerErr::UnsupportedCommand),
            Seq::<u8>::empty(),
        ),
        !is_readable_spec(c) ==> read_outcome(c, input, pos) == (
            Err::<Reply, ControllerErr>(ControllerErr::UnsupportedCommand),
            pos,
            Seq::<u8>::empty(),
        ),
{
}

/// Law: the power-down guard. When the power payload's byte index 2 is
/// zero, every non-power read fails with `PowerIsDown`, and the second
/// status frame is never sent.
pub proof fn lemma_power_down_blocks_read(c: Command, input: Seq<u8>, pos: int)
    requires
        is_readable_spec(c),
        c != Command::Power(SubCommand::Status),
        exchange_fits(input, pos),
        exchange_payload(input, pos).len() >= 3,
        exchange_payload(input, pos)[2] == 0,
    ensures
        read_outcome(c, input, pos).0 == Err::<Reply, ControllerErr>(ControllerErr::PowerIsDown),
        read_outcome(c, input, pos).1 == exchange_end(input, pos),
        read_outcome(c, input, pos).2 == power_status_frame_spec(),
{
}

/// Two equal pending-byte suffixes stay equal after both cursors advance
/// by the same distance.
proof fn lemma_suffix_eq_shift(input1: Seq<u8>, pos1: int, input2: Seq<u8>, pos2: int, d: int)
    requires
        0 <= pos1 <= input1.len(),
        0 <= pos2 <= input2.len(),
        input1.skip(pos1) == input2.skip(pos2),
        0 <= d <= input1.len() - pos1,
    ensures
        input1.skip(pos1 + d) == input2.skip(pos2 + d),
{
    assert(input1.skip(pos1).len() == input1.len() - pos1);
    assert(input2.skip(pos2).len() == input2.len() - pos2);
    assert(input1.len() - pos1 == input2.len() - pos2);
    assert(input1.skip(pos1 + d) =~= input2.skip(pos2 + d)) by {
        assert forall|i: int| 0 <= i < input1.len() - pos1 - d implies #[trigger] input1.skip(
            pos1 + d,
        )[i] == input2.skip(pos2 + d)[i] by {
            assert(input1.skip(pos1 + d)[i] == input1[pos1 + d + i]);
            assert(input1.skip(pos1)[d + i] == input1[pos1 + d + i]);
            assert(input2.skip(pos2)[d + i] == input2[pos2 + d + i]);
            assert(input2.skip(pos2 + d)[i] == input2[pos2 + d + i]);
        }
    }
}

/// One response exchange looks the same from two cursors with equal
/// pending bytes: it fits in one script exactly when it fits in the
/// other, consumes the same distance, and carries the same payload.
proof fn lemma_exchange_matches(input1: Seq<u8>, pos1: int, input2: Seq<u8>, pos2: int)
    requires
        0 <= pos1 <= input1.len(),
        0 <= pos2 <= input2.len(),
        input1.skip(pos1) == input2.skip(pos2),
    ensures
        header_fits(input1, pos1) == header_fits(input2, pos2),
        header_fits(input1, pos1) ==> exchange_end(input1, pos1) - pos1 == exchange_end(
            input2,
            pos2,
        ) - pos2,
        header_fits(input1, pos1) ==> exchange_fits(input1, pos1) == exchange_fits(input2, pos2),
        exchange_fits(input1, pos1) ==> exchange_payload(input1, pos1) == exchange_payload(
            input2,
            pos2,
        ),
{
    assert(input1.skip(pos1).len() == input1.len() - pos1);
    assert(input2.skip(pos2).len() == input2.len() - pos2);
    assert(input1.len() - pos1 == input2.len() - pos2);
    if header_fits(input1, pos1) {
        assert(header_fits(input2, pos2));
        assert(input1.skip(pos1)[3] == input1[pos1 + 3]);
        assert(input2.skip(pos2)[3] == input2[pos2 + 3]);
        if exchange_fits(input1, pos1) {
            let n = input1[pos1 + 3] as int;
            assert(exchange_payload(input1, pos1) =~= exchange_payload(input2, pos2)) by {
                assert forall|i: int| 0 <= i < n implies exchange_payload(input1, pos1)[i]
                    == exchange_payload(input2, pos2)[i] by {
                    assert(exchange_payload(input1, pos1)[i] == input1[pos1 + 5 + i]);
                    assert(input1.skip(pos1)[5 + i] == input1[pos1 + 5 + i]);
                    assert(input2.skip(pos2)[5 + i] == input2[pos2 + 5 + i]);
                    assert(exchange_payload(input2, pos2)[i] == input2[pos2 + 5 + i]);
                }
            }
        }
    }
}

/// Law: a read is a pure decode. Its outcome is a function of the command
/// and of the bytes still pending on the transport alone, so repeated
/// identical reads over identical pending bytes return identical replies,
/// consume the same number of bytes, and send the same frames.
pub proof fn lemma_read_is_pure_decode(
    c: Command,
    input1: Seq<u8>,
    pos1: int,
    input2: Seq<u8>,
    pos2: int,
)
    requires
        0 <= pos1 <= input1.len(),
        0 <= pos2 <= input2.len(),
        input1.skip(pos1) == input2.skip(pos2),
    ensures
        read_outcome(c, input1, pos1).0 == read_outcome(c, input2, pos2).0,
        read_outcome(c, input1, pos1).1 - pos1 == read_outcome(c, input2, pos2).1 - pos2,
        read_outcome(c, input1, pos1).2 == read_outcome(c, input2, pos2).2,
{
    lemma_exchange_matches(input1, pos1, input2, pos2);
    if is_readable_spec(c) && exchange_fits(input1, pos1) {
        let mid1 = exchange_end(input1, pos1);
        let mid2 = exchange_end(input2, pos2);
        lemma_suffix_eq_shift(input1, pos1, input2, pos2, mid1 - pos1);
        assert(mid2 == pos2 + (mid1 - pos1));
        lemma_exchange_matches(input1, mid1, input2, mid2);
    }
}

} // verus!

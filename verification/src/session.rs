//! The controller's session logic, one decision per step.
//!
//! A read is two request/response exchanges at most: the power-status query
//! always goes first, then — if the device is on and the caller asked for
//! something else — the command's own status query. A write is a single
//! frame with no decoded response. Each step here is a pure decision from
//! command and received payload to the next action, so an adapter that owns
//! a real serial port only moves bytes: it sends what a step hands it and
//! feeds back what the device answered.

use vstd::prelude::*;

use crate::protocol::Command;
use crate::protocol::ControllerErr;
use crate::protocol::Reply;
use crate::protocol::SubCommand;
use crate::protocol::decode_reply;
use crate::protocol::decode_reply_spec;
use crate::protocol::is_readable_spec;
use crate::protocol::is_writable_spec;
use crate::protocol::min_payload_len_spec;
use crate::protocol::power_status_frame_spec;
use crate::protocol::status_frame;
use crate::protocol::status_frame_spec;
use crate::protocol::write_frame;
use crate::protocol::write_frame_spec;

verus! {

/// What a read session does next once the power payload is in hand.
#[derive(Debug)]
pub enum ReadStep {
    /// The session is finished with this reply.
    Reply(Reply),
    /// Send this frame and hand its payload to `read_finish`.
    Send(Vec<u8>),
    /// The session failed; nothing more may be sent.
    Fail(ControllerErr),
}

/// Opens a read session. Commands outside the read table are rejected
/// before any transport traffic; for the rest the frame to send first is
/// always the power-status query, since most properties are unreadable
/// while the device is off.
pub fn read_request(command: &Command) -> (r: Result<Vec<u8>, ControllerErr>)
    ensures
        is_readable_spec(*command) ==> r is Ok && r->Ok_0@ == power_status_frame_spec(),
        !is_readable_spec(*command) ==> r == Err::<Vec<u8>, ControllerErr>(
            ControllerErr::UnsupportedCommand,
        ),
{
    if command.is_readable() {
        Ok(status_frame(&Command::Power(SubCommand::Status)))
    } else {
        Err(ControllerErr::UnsupportedCommand)
    }
}

/// Decides the second half of a read session from the power payload:
/// a power query is answered on the spot; any other query is refused with
/// `PowerIsDown` when the power byte is zero, and otherwise advances to
/// the command's own status frame. A payload too short to carry the power
/// byte is a protocol fault of the transport.
pub fn read_continue(command: &Command, power_payload: &Vec<u8>) -> (step: ReadStep)
    requires
        is_readable_spec(*command),
    ensures
        power_payload@.len() < 3 ==> step == ReadStep::Fail(ControllerErr::SerialPortError),
        power_payload@.len() >= 3 && *command == Command::Power(SubCommand::Status) ==> step
            == ReadStep::Reply(Reply::State(power_payload@[2] > 0)),
        power_payload@.len() >= 3 && *command != Command::Power(SubCommand::Status)
            && power_payload@[2] == 0 ==> step == ReadStep::Fail(ControllerErr::PowerIsDown),
        power_payload@.len() >= 3 && *command != Command::Power(SubCommand::Status)
            && power_payload@[2] > 0 ==> step is Send && step->Send_0@ == status_frame_spec(
            *command,
        ),
{
    if power_payload.len() < 3 {
        return ReadStep::Fail(ControllerErr::SerialPortError);
    }
    let power_on = power_payload[2] > 0;
    if let Command::Power(SubCommand::Status) = command {
        return ReadStep::Reply(Reply::State(power_on));
    }
    if !power_on {
        return ReadStep::Fail(ControllerErr::PowerIsDown);
    }
    ReadStep::Send(status_frame(command))
}

/// Closes a read session: decodes the payload of the command's own status
/// query. A payload shorter than the decode rule needs is a protocol
/// fault of the transport.
pub fn read_finish(command: &Command, payload: Vec<u8>) -> (r: Result<Reply, ControllerErr>)
    requires
        is_readable_spec(*command),
    ensures
        payload@.len() >= min_payload_len_spec(*command) ==> r == Ok::<Reply, ControllerErr>(
            decode_reply_spec(*command, payload@),
        ),
        payload@.len() < min_payload_len_spec(*command) ==> r == Err::<Reply, ControllerErr>(
            ControllerErr::SerialPortError,
        ),
{
    let needed: usize = if let Command::LampTime = command {
        4
    } else {
        3
    };
    if payload.len() < needed {
        return Err(ControllerErr::SerialPortError);
    }
    Ok(decode_reply(command, payload))
}

/// Opens (and fully decides) a write session: the literal frame for an
/// `Up`/`Down` command, and `UnsupportedCommand` — before any transport
/// traffic — for a `Status` sub-command or for `LampTime`, which have no
/// write form.
pub fn write_request(command: &Command) -> (r: Result<Vec<u8>, ControllerErr>)
    ensures
        is_writable_spec(*command) ==> r is Ok && r->Ok_0@ == write_frame_spec(*command),
        !is_writable_spec(*command) ==> r == Err::<Vec<u8>, ControllerErr>(
            ControllerErr::UnsupportedCommand,
        ),
{
    let writable = match command {
        Command::Power(SubCommand::Up) => true,
        Command::Power(SubCommand::Down) => true,
        Command::Source(SubCommand::Up) => true,
        Command::Source(SubCommand::Down) => true,
        Command::Eco(SubCommand::Up) => true,
        Command::Eco(SubCommand::Down) => true,
        Command::Volume(SubCommand::Up) => true,
        Command::Volume(SubCommand::Down) => true,
        Command::Mute(SubCommand::Up) => true,
        Command::Mute(SubCommand::Down) => true,
        Command::Brightness(SubCommand::Up) => true,
        Command::Brightness(SubCommand::Down) => true,
        _ => false,
    };
    if writable {
        Ok(write_frame(command))
    } else {
        Err(ControllerErr::UnsupportedCommand)
    }
}

} // verus!

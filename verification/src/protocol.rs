//! The wire protocol: command and reply types, the literal frame table,
//! and the payload decoders.

use vstd::prelude::*;

verus! {

/// Direction or mode qualifier attached to a logical device property.
/// `Status` asks for the current value; `Up` and `Down` increment,
/// decrement or toggle it.
#[derive(Clone, Copy, Debug, PartialEq, Eq, Structural)]
pub enum SubCommand {
    Up,
    Down,
    Status,
}

/// A logical operation on the device. Every property carries a
/// `SubCommand`; lamp time can only be read, so it carries none.
#[derive(Clone, Copy, Debug, PartialEq, Eq, Structural)]
pub enum Command {
    Power(SubCommand),
    Eco(SubCommand),
    Brightness(SubCommand),
    Volume(SubCommand),
    Mute(SubCommand),
    Source(SubCommand),
    LampTime,
}

/// The decoded result of a read. Which variant comes back is fixed by the
/// command that was issued; the wire data is not self-describing.
#[derive(Clone, Copy, Debug, PartialEq, Eq, Structural)]
pub enum Reply {
    State(bool),
    ValueU8(u8),
    ValueU32(u32),
}

/// Why a request failed: the transport broke, the requested
/// (command, sub-command) pair is outside the protocol table, or the
/// device is powered off and cannot answer the query.
#[derive(Clone, Copy, Debug, PartialEq, Eq, Structural)]
pub enum ControllerErr {
    SerialPortError,
    PowerIsDown,
    UnsupportedCommand,
}

/// A command can be read when it queries a current value: any
/// `Status`-tagged property, or the lamp-time counter.
pub open spec fn is_readable_spec(c: Command) -> bool {
    match c {
        Command::Power(s) => s is Status,
        Command::Eco(s) => s is Status,
        Command::Brightness(s) => s is Status,
        Command::Volume(s) => s is Status,
        Command::Mute(s) => s is Status,
        Command::Source(s) => s is Status,
        Command::LampTime => true,
    }
}

/// A command can be written when it moves a value: any `Up`- or
/// `Down`-tagged property. Lamp time has no write form.
pub open spec fn is_writable_spec(c: Command) -> bool {
    match c {
        Command::Power(s) => s is Up || s is Down,
        Command::Eco(s) => s is Up || s is Down,
        Command::Brightness(s) => s is Up || s is Down,
        Command::Volume(s) => s is Up || s is Down,
        Command::Mute(s) => s is Up || s is Down,
        Command::Source(s) => s is Up || s is Down,
        Command::LampTime => false,
    }
}

impl Command {
    /// True exactly for the commands that `read` accepts: `Status`
    /// queries and `LampTime`.
    pub fn is_readable(&self) -> (r: bool)
        ensures
            r == is_readable_spec(*self),
    {
        match self {
            Command::Power(SubCommand::Status) => true,
            Command::Eco(SubCommand::Status) => true,
            Command::Brightness(SubCommand::Status) => true,
            Command::Volume(SubCommand::Status) => true,
            Command::Mute(SubCommand::Status) => true,
            Command::Source(SubCommand::Status) => true,
            Command::LampTime => true,
            _ => false,
        }
    }
}

/// The literal status-request frame for a readable command's property.
/// Each frame is eleven bytes; the final byte is the frame's pre-computed
/// checksum, kept as part of the literal (the checksum scheme is legacy
/// and never re-derived).
pub open spec fn status_frame_spec(c: Command) -> Seq<u8> {
    match c {
        Command::Power(_) => seq![0x07u8, 0x14, 0x00, 0x05, 0x00, 0x34, 0x00, 0x00, 0x11, 0x00, 0x5e],
        Command::Eco(_) => seq![0x07u8, 0x14, 0x00, 0x05, 0x00, 0x34, 0x00, 0x00, 0x11, 0x10, 0x6e],
        Command::Brightness(_) => seq![0x07u8, 0x14, 0x00, 0x05, 0x00, 0x34, 0x00, 0x00, 0x12, 0x03, 0x62],
        Command::Volume(_) => seq![0x07u8, 0x14, 0x00, 0x05, 0x00, 0x34, 0x00, 0x00, 0x14, 0x03, 0x64],
        Command::Mute(_) => seq![0x07u8, 0x14, 0x00, 0x05, 0x00, 0x34, 0x00, 0x00, 0x14, 0x00, 0x61],
        Command::Source(_) => seq![0x07u8, 0x14, 0x00, 0x05, 0x00, 0x34, 0x00, 0x00, 0x13, 0x01, 0x61],
        Command::LampTime => seq![0x07u8, 0x14, 0x00, 0x05, 0x00, 0x34, 0x00, 0x00, 0x15, 0x01, 0x63],
    }
}

/// The status frame that opens every read exchange: the power query.
pub open spec fn power_status_frame_spec() -> Seq<u8> {
    status_frame_spec(Command::Power(SubCommand::Status))
}

/// The literal write frame for a writable command: ten bytes, one literal
/// per (property, direction) pair, checksum pre-baked as the last byte.
pub open spec fn write_frame_spec(c: Command) -> Seq<u8> {
    match c {
        Command::Power(s) => if s is Up {
            seq![0x06u8, 0x14, 0x00, 0x04, 0x00, 0x34, 0x11, 0x00, 0x00, 0x5d]
        } else {
            seq![0x06u8, 0x14, 0x00, 0x04, 0x00, 0x34, 0x11, 0x01, 0x00, 0x5e]
        },
        Command::Source(s) => if s is Up {
            seq![0x06u8, 0x14, 0x00, 0x04, 0x00, 0x34, 0x13, 0x01, 0x03, 0x63]
        } else {
            seq![0x06u8, 0x14, 0x00, 0x04, 0x00, 0x34, 0x13, 0x01, 0x07, 0x67]
        },
        Command::Eco(s) => if s is Up {
            seq![0x06u8, 0x14, 0x00, 0x04, 0x00, 0x34, 0x11, 0x10, 0x03, 0x70]
        } else {
            seq![0x06u8, 0x14, 0x00, 0x04, 0x00, 0x34, 0x11, 0x10, 0x02, 0x6f]
        },
        Command::Volume(s) => if s is Up {
            seq![0x06u8, 0x14, 0x00, 0x04, 0x00, 0x34, 0x14, 0x01, 0x00, 0x61]
        } else {
            seq![0x06u8, 0x14, 0x00, 0x04, 0x00, 0x34, 0x14, 0x02, 0x00, 0x62]
        },
        Command::Mute(s) => if s is Up {
            seq![0x06u8, 0x14, 0x00, 0x04, 0x00, 0x34, 0x14, 0x00, 0x01, 0x61]
        } else {
            seq![0x06u8, 0x14, 0x00, 0x04, 0x00, 0x34, 0x14, 0x00, 0x00, 0x60]
        },
        Command::Brightness(s) => if s is Up {
            seq![0x06u8, 0x14, 0x00, 0x04, 0x00, 0x34, 0x12, 0x03, 0x01, 0x62]
        } else {
            seq![0x06u8, 0x14, 0x00, 0x04, 0x00, 0x34, 0x12, 0x03, 0x00, 0x61]
        },
        Command::LampTime => seq![],
    }
}

/// Builds the status-request frame for a readable command.
pub fn status_frame(command: &Command) -> (frame: Vec<u8>)
    requires
        is_readable_spec(*command),
    ensures
        frame@ == status_frame_spec(*command),
{
    let frame: Vec<u8> = match command {
        Command::Power(_) => vec![0x07u8, 0x14, 0x00, 0x05, 0x00, 0x34, 0x00, 0x00, 0x11, 0x00, 0x5e],
        Command::Eco(_) => vec![0x07u8, 0x14, 0x00, 0x05, 0x00, 0x34, 0x00, 0x00, 0x11, 0x10, 0x6e],
        Command::Brightness(_) => vec![0x07u8, 0x14, 0x00, 0x05, 0x00, 0x34, 0x00, 0x00, 0x12, 0x03, 0x62],
        Command::Volume(_) => vec![0x07u8, 0x14, 0x00, 0x05, 0x00, 0x34, 0x00, 0x00, 0x14, 0x03, 0x64],
        Command::Mute(_) => vec![0x07u8, 0x14, 0x00, 0x05, 0x00, 0x34, 0x00, 0x00, 0x14, 0x00, 0x61],
        Command::Source(_) => vec![0x07u8, 0x14, 0x00, 0x05, 0x00, 0x34, 0x00, 0x00, 0x13, 0x01, 0x61],
        Command::LampTime => vec![0x07u8, 0x14, 0x00, 0x05, 0x00, 0x34, 0x00, 0x00, 0x15, 0x01, 0x63],
    };
    proof {
        assert(frame@ =~= status_frame_spec(*command));
    }
    frame
}

/// Builds the write frame for a writable command.
pub fn write_frame(command: &Command) -> (frame: Vec<u8>)
    requires
        is_writable_spec(*command),
    ensures
        frame@ == write_frame_spec(*command),
{
    let frame: Vec<u8> = match command {
        Command::Power(SubCommand::Up) => vec![0x06u8, 0x14, 0x00, 0x04, 0x00, 0x34, 0x11, 0x00, 0x00, 0x5d],
        Command::Power(_) => vec![0x06u8, 0x14, 0x00, 0x04, 0x00, 0x34, 0x11, 0x01, 0x00, 0x5e],
        Command::Source(SubCommand::Up) => vec![0x06u8, 0x14, 0x00, 0x04, 0x00, 0x34, 0x13, 0x01, 0x03, 0x63],
        Command::Source(_) => vec![0x06u8, 0x14, 0x00, 0x04, 0x00, 0x34, 0x13, 0x01, 0x07, 0x67],
        Command::Eco(SubCommand::Up) => vec![0x06u8, 0x14, 0x00, 0x04, 0x00, 0x34, 0x11, 0x10, 0x03, 0x70],
        Command::Eco(_) => vec![0x06u8, 0x14, 0x00, 0x04, 0x00, 0x34, 0x11, 0x10, 0x02, 0x6f],
        Command::Volume(SubCommand::Up) => vec![0x06u8, 0x14, 0x00, 0x04, 0x00, 0x34, 0x14, 0x01, 0x00, 0x61],
        Command::Volume(_) => vec![0x06u8, 0x14, 0x00, 0x04, 0x00, 0x34, 0x14, 0x02, 0x00, 0x62],
        Command::Mute(SubCommand::Up) => vec![0x06u8, 0x14, 0x00, 0x04, 0x00, 0x34, 0x14, 0x00, 0x01, 0x61],
        Command::Mute(_) => vec![0x06u8, 0x14, 0x00, 0x04, 0x00, 0x34, 0x14, 0x00, 0x00, 0x60],
        Command::Brightness(SubCommand::Up) => vec![0x06u8, 0x14, 0x00, 0x04, 0x00, 0x34, 0x12, 0x03, 0x01, 0x62],
        Command::Brightness(_) => vec![0x06u8, 0x14, 0x00, 0x04, 0x00, 0x34, 0x12, 0x03, 0x00, 0x61],
        Command::LampTime => vec![],
    };
    proof {
        assert(frame@ =~= write_frame_spec(*command));
    }
    frame
}

/// How many payload bytes the decode rule for a readable command needs:
/// four for the lamp-time counter, three for every other property.
pub open spec fn min_payload_len_spec(c: Command) -> nat {
    if c is LampTime {
        4
    } else {
        3
    }
}

/// The lamp-time counter carried by a payload: the payload bytes are
/// reversed and the first four of the reversed sequence are read as a
/// big-endian 32-bit integer, so the counter is the last four payload
/// bytes in little-endian order.
pub open spec fn lamp_time_value_spec(data: Seq<u8>) -> u32
    recommends
        data.len() >= 4,
{
    (data[data.len() - 1] * 0x1000000 + data[data.len() - 2] * 0x10000 + data[data.len() - 3]
        * 0x100 + data[data.len() - 4]) as u32
}

/// The per-command decode rule for a status payload.
pub open spec fn decode_reply_spec(c: Command, payload: Seq<u8>) -> Reply
    recommends
        is_readable_spec(c),
        payload.len() >= min_payload_len_spec(c),
{
    match c {
        Command::Power(_) => Reply::State(payload[2] > 0),
        Command::Mute(_) => Reply::State(payload[2] > 0),
        Command::Eco(_) => Reply::State(payload[2] == 3),
        Command::Brightness(_) => Reply::ValueU8(payload[2]),
        Command::Volume(_) => Reply::ValueU8(payload[2]),
        Command::Source(_) => Reply::ValueU8(payload[2]),
        Command::LampTime => Reply::ValueU32(lamp_time_value_spec(payload)),
    }
}

/// Decodes an on/off payload: byte index 2 is a boolean, any value above
/// zero meaning on.
pub fn parse_state(data: Vec<u8>) -> (r: Reply)
    requires
        data@.len() >= 3,
    ensures
        r == Reply::State(data@[2] > 0),
{
    Reply::State(data[2] > 0)
}

/// Decodes an eco-mode payload: the mode is on exactly when byte index 2
/// equals three.
pub fn parse_eco_state(data: Vec<u8>) -> (r: Reply)
    requires
        data@.len() >= 3,
    ensures
        r == Reply::State(data@[2] == 3),
{
    Reply::State(data[2] == 3)
}

/// Decodes a one-byte value payload: the value sits at byte index 2.
pub fn parse_value_u8(data: Vec<u8>) -> (r: Reply)
    requires
        data@.len() >= 3,
    ensures
        r == Reply::ValueU8(data@[2]),
{
    Reply::ValueU8(data[2])
}

/// Decodes a lamp-time payload: reverse the byte order, then read the
/// first four bytes as a big-endian 32-bit integer.
pub fn parse_value_u32(data: Vec<u8>) -> (r: Reply)
    requires
        data@.len() >= 4,
    ensures
        r == Reply::ValueU32(lamp_time_value_spec(data@)),
{
    let n: usize = data.len();
    let b3 = data[n - 1] as u32;
    let b2 = data[n - 2] as u32;
    let b1 = data[n - 3] as u32;
    let b0 = data[n - 4] as u32;
    Reply::ValueU32(b3 * 0x1000000 + b2 * 0x10000 + b1 * 0x100 + b0)
}

/// Applies the decode rule of a readable command to its status payload.
pub fn decode_reply(command: &Command, data: Vec<u8>) -> (r: Reply)
    requires
        is_readable_spec(*command),
        data@.len() >= min_payload_len_spec(*command),
    ensures
        r == decode_reply_spec(*command, data@),
{
    match command {
        Command::Power(_) => parse_state(data),
        Command::Mute(_) => parse_state(data),
        Command::Eco(_) => parse_eco_state(data),
        Command::Brightness(_) => parse_value_u8(data),
        Command::Volume(_) => parse_value_u8(data),
        Command::Source(_) => parse_value_u8(data),
        Command::LampTime => parse_value_u32(data),
    }
}

/// A response header is always five bytes; its byte index 3 declares how
/// many payload bytes follow.
pub open spec fn header_len_spec() -> nat {
    5
}

/// Reads the declared payload length out of a five-byte response header.
/// The header must be read in full before the payload, since this byte
/// sizes the payload buffer.
pub fn payload_length(header: &Vec<u8>) -> (n: usize)
    requires
        header@.len() == header_len_spec(),
    ensures
        n == header@[3] as usize,
{
    header[3] as usize
}

/// The character for one decimal digit.
pub open spec fn decimal_digit(d: nat) -> char
    recommends
        d < 10,
{
    if d == 0 {
        '0'
    } else if d == 1 {
        '1'
    } else if d == 2 {
        '2'
    } else if d == 3 {
        '3'
    } else if d == 4 {
        '4'
    } else if d == 5 {
        '5'
    } else if d == 6 {
        '6'
    } else if d == 7 {
        '7'
    } else if d == 8 {
        '8'
    } else {
        '9'
    }
}

/// The decimal digits of a number, most significant first, with no
/// leading zeroes (zero itself is the single digit `0`).
pub open spec fn decimal_chars(n: nat) -> Seq<char>
    decreases n,
{
    if n < 10 {
        seq![decimal_digit(n)]
    } else {
        decimal_chars(n / 10) + seq![decimal_digit(n % 10)]
    }
}

/// The one-character string of a decimal digit.
fn decimal_digit_str(d: u32) -> (s: &'static str)
    requires
        d < 10,
    ensures
        s@ == seq![decimal_digit(d as nat)],
{
    proof {
        reveal_strlit("0");
        reveal_strlit("1");
        reveal_strlit("2");
        reveal_strlit("3");
        reveal_strlit("4");
        reveal_strlit("5");
        reveal_strlit("6");
        reveal_strlit("7");
        reveal_strlit("8");
        reveal_strlit("9");
    }
    let s: &'static str = if d == 0 {
        "0"
    } else if d == 1 {
        "1"
    } else if d == 2 {
        "2"
    } else if d == 3 {
        "3"
    } else if d == 4 {
        "4"
    } else if d == 5 {
        "5"
    } else if d == 6 {
        "6"
    } else if d == 7 {
        "7"
    } else if d == 8 {
        "8"
    } else {
        "9"
    };
    proof {
        assert(s@ =~= seq![decimal_digit(d as nat)]);
    }
    s
}

/// Renders a number in decimal.
pub fn decimal_string(n: u32) -> (s: String)
    ensures
        s@ == decimal_chars(n as nat),
    decreases n,
{
    if n < 10 {
        String::from_str(decimal_digit_str(n))
    } else {
        let mut s = decimal_string(n / 10);
        s.append(decimal_digit_str(n % 10));
        s
    }
}

/// The textual form of a reply: the words for an on/off state, decimal
/// digits for a numeric value.
pub open spec fn display_spec(r: Reply) -> Seq<char> {
    match r {
        Reply::State(v) => if v {
            "true"@
        } else {
            "false"@
        },
        Reply::ValueU8(v) => decimal_chars(v as nat),
        Reply::ValueU32(v) => decimal_chars(v as nat),
    }
}

impl Reply {
    /// Renders the reply for human-facing output.
    pub fn display_string(&self) -> (s: String)
        ensures
            s@ == display_spec(*self),
    {
        match self {
            Reply::State(v) => if *v {
                String::from_str("true")
            } else {
                String::from_str("false")
            },
            Reply::ValueU8(v) => decimal_string(*v as u32),
            Reply::ValueU32(v) => decimal_string(*v),
        }
    }
}

/// Character-for-character string equality.
pub fn str_eq(a: &str, b: &str) -> (r: bool)
    ensures
        r == (a@ == b@),
{
    let la: usize = a.unicode_len();
    let lb: usize = b.unicode_len();
    if la != lb {
        return false;
    }
    let mut i: usize = 0;
    while i < la
        invariant
            i <= la,
            la == a@.len(),
            la == b@.len(),
            forall|j: int| 0 <= j < i ==> a@[j] == b@[j],
        decreases la - i,
    {
        if a.get_char(i) != b.get_char(i) {
            return false;
        }
        i = i + 1;
    }
    proof {
        assert(a@ =~= b@);
    }
    true
}

/// The command a textual property name denotes, carrying the given
/// sub-command; unknown names are rejected. The lamp-time property maps
/// to the read-only `LampTime` command and drops the sub-command.
pub open spec fn get_command_spec(name: Seq<char>, state: SubCommand) -> Result<
    Command,
    ControllerErr,
> {
    if name == "power"@ {
        Ok(Command::Power(state))
    } else if name == "eco"@ {
        Ok(Command::Eco(state))
    } else if name == "source"@ {
        Ok(Command::Source(state))
    } else if name == "brightness"@ {
        Ok(Command::Brightness(state))
    } else if name == "volume"@ {
        Ok(Command::Volume(state))
    } else if name == "mute"@ {
        Ok(Command::Mute(state))
    } else if name == "lamp_time"@ {
        Ok(Command::LampTime)
    } else {
        Err(ControllerErr::UnsupportedCommand)
    }
}

/// Parses a textual property name into a `Command` carrying `state`.
pub fn get_command(command: &str, state: &SubCommand) -> (r: Result<Command, ControllerErr>)
    ensures
        r == get_command_spec(command@, *state),
{
    if str_eq(command, "power") {
        Ok(Command::Power(*state))
    } else if str_eq(command, "eco") {
        Ok(Command::Eco(*state))
    } else if str_eq(command, "source") {
        Ok(Command::Source(*state))
    } else if str_eq(command, "brightness") {
        Ok(Command::Brightness(*state))
    } else if str_eq(command, "volume") {
        Ok(Command::Volume(*state))
    } else if str_eq(command, "mute") {
        Ok(Command::Mute(*state))
    } else if str_eq(command, "lamp_time") {
        Ok(Command::LampTime)
    } else {
        Err(ControllerErr::UnsupportedCommand)
    }
}

} // verus!

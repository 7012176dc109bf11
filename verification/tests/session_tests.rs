use projectorctl::protocol::Command;
use projectorctl::protocol::ControllerErr;
use projectorctl::protocol::Reply;
use projectorctl::protocol::SubCommand;
use projectorctl::session::read_continue;
use projectorctl::session::read_finish;
use projectorctl::session::read_request;
use projectorctl::session::write_request;
use projectorctl::session::ReadStep;
use projectorctl::transport::ScriptTransport;

const POWER_STATUS_FRAME: [u8; 11] =
    [0x07, 0x14, 0x00, 0x05, 0x00, 0x34, 0x00, 0x00, 0x11, 0x00, 0x5e];

#[test]
fn read_request_always_opens_with_the_power_query() {
    for command in [
        Command::Power(SubCommand::Status),
        Command::Eco(SubCommand::Status),
        Command::Volume(SubCommand::Status),
        Command::LampTime,
    ] {
        assert_eq!(read_request(&command), Ok(POWER_STATUS_FRAME.to_vec()));
    }
    assert_eq!(
        read_request(&Command::Power(SubCommand::Up)),
        Err(ControllerErr::UnsupportedCommand)
    );
    assert_eq!(
        read_request(&Command::Source(SubCommand::Down)),
        Err(ControllerErr::UnsupportedCommand)
    );
}

#[test]
fn read_continue_answers_power_query_on_the_spot() {
    match read_continue(&Command::Power(SubCommand::Status), &vec![0x00, 0x00, 0x01]) {
        ReadStep::Reply(reply) => assert_eq!(reply, Reply::State(true)),
        other => panic!("expected a reply, got {:?}", other),
    }
    match read_continue(&Command::Power(SubCommand::Status), &vec![0x00, 0x00, 0x00]) {
        ReadStep::Reply(reply) => assert_eq!(reply, Reply::State(false)),
        other => panic!("expected a reply, got {:?}", other),
    }
}

#[test]
fn read_continue_guards_non_power_reads() {
    match read_continue(&Command::Volume(SubCommand::Status), &vec![0x00, 0x00, 0x00]) {
        ReadStep::Fail(e) => assert_eq!(e, ControllerErr::PowerIsDown),
        other => panic!("expected a failure, got {:?}", other),
    }
    match read_continue(&Command::Volume(SubCommand::Status), &vec![0x00, 0x00, 0x01]) {
        ReadStep::Send(frame) => assert_eq!(
            frame,
            vec![0x07, 0x14, 0x00, 0x05, 0x00, 0x34, 0x00, 0x00, 0x14, 0x03, 0x64]
        ),
        other => panic!("expected a second frame, got {:?}", other),
    }
}

#[test]
fn read_continue_rejects_short_power_payload() {
    match read_continue(&Command::Volume(SubCommand::Status), &vec![0x00, 0x00]) {
        ReadStep::Fail(e) => assert_eq!(e, ControllerErr::SerialPortError),
        other => panic!("expected a failure, got {:?}", other),
    }
}

#[test]
fn read_finish_decodes_per_command() {
    assert_eq!(
        read_finish(&Command::Eco(SubCommand::Status), vec![0x00, 0x00, 0x03]),
        Ok(Reply::State(true))
    );
    assert_eq!(
        read_finish(&Command::Brightness(SubCommand::Status), vec![0x00, 0x00, 0x17]),
        Ok(Reply::ValueU8(23))
    );
    assert_eq!(
        read_finish(&Command::LampTime, vec![0x01, 0x00, 0x00, 0x00]),
        Ok(Reply::ValueU32(1))
    );
    // Too short for the rule: three bytes satisfy every rule but lamp time's.
    assert_eq!(
        read_finish(&Command::LampTime, vec![0x01, 0x00, 0x00]),
        Err(ControllerErr::SerialPortError)
    );
    assert_eq!(
        read_finish(&Command::Mute(SubCommand::Status), vec![0x00, 0x00]),
        Err(ControllerErr::SerialPortError)
    );
}

#[test]
fn write_request_covers_exactly_the_twelve_pairs() {
    for command in [
        Command::Power(SubCommand::Up),
        Command::Power(SubCommand::Down),
        Command::Source(SubCommand::Up),
        Command::Source(SubCommand::Down),
        Command::Eco(SubCommand::Up),
        Command::Eco(SubCommand::Down),
        Command::Volume(SubCommand::Up),
        Command::Volume(SubCommand::Down),
        Command::Mute(SubCommand::Up),
        Command::Mute(SubCommand::Down),
        Command::Brightness(SubCommand::Up),
        Command::Brightness(SubCommand::Down),
    ] {
        let frame = write_request(&command).unwrap();
        assert_eq!(frame.len(), 10);
        assert_eq!(frame[0], 0x06);
    }
    for command in [
        Command::Power(SubCommand::Status),
        Command::Mute(SubCommand::Status),
        Command::LampTime,
    ] {
        assert_eq!(write_request(&command), Err(ControllerErr::UnsupportedCommand));
    }
}

#[test]
fn script_transport_logs_sends_and_replays_input() {
    let mut t = ScriptTransport::new(vec![1, 2, 3, 4, 5]);
    t.send(&vec![9, 8]);
    t.send(&vec![7]);
    assert_eq!(t.sent, vec![9, 8, 7]);
    assert_eq!(t.receive_exact(2), Ok(vec![1, 2]));
    assert_eq!(t.receive_exact(3), Ok(vec![3, 4, 5]));
    // The script is exhausted: no partial result, no cursor movement.
    assert_eq!(t.receive_exact(1), Err(ControllerErr::SerialPortError));
    assert_eq!(t.pos, 5);
    assert_eq!(t.input, vec![1, 2, 3, 4, 5]);
}

#[test]
fn receive_exact_returns_all_or_nothing() {
    let mut t = ScriptTransport::new(vec![1, 2, 3]);
    assert_eq!(t.receive_exact(4), Err(ControllerErr::SerialPortError));
    assert_eq!(t.pos, 0);
    assert_eq!(t.receive_exact(3), Ok(vec![1, 2, 3]));
}

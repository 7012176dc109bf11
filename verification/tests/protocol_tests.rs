use projectorctl::protocol::Command;
use projectorctl::protocol::ControllerErr;
use projectorctl::protocol::Reply;
use projectorctl::protocol::SubCommand;
use projectorctl::protocol::decimal_string;
use projectorctl::protocol::get_command;
use projectorctl::protocol::parse_eco_state;
use projectorctl::protocol::parse_state;
use projectorctl::protocol::parse_value_u32;
use projectorctl::protocol::parse_value_u8;
use projectorctl::protocol::payload_length;
use projectorctl::protocol::status_frame;
use projectorctl::protocol::str_eq;
use projectorctl::protocol::write_frame;

#[test]
fn readable_commands() {
    assert!(Command::Power(SubCommand::Status).is_readable());
    assert!(Command::Eco(SubCommand::Status).is_readable());
    assert!(Command::Brightness(SubCommand::Status).is_readable());
    assert!(Command::Volume(SubCommand::Status).is_readable());
    assert!(Command::Mute(SubCommand::Status).is_readable());
    assert!(Command::Source(SubCommand::Status).is_readable());
    assert!(Command::LampTime.is_readable());
    assert!(!Command::Power(SubCommand::Up).is_readable());
    assert!(!Command::Mute(SubCommand::Down).is_readable());
    assert!(!Command::Volume(SubCommand::Up).is_readable());
}

#[test]
fn status_frames_are_the_documented_literals() {
    assert_eq!(
        status_frame(&Command::Power(SubCommand::Status)),
        vec![0x07, 0x14, 0x00, 0x05, 0x00, 0x34, 0x00, 0x00, 0x11, 0x00, 0x5e]
    );
    assert_eq!(
        status_frame(&Command::Eco(SubCommand::Status)),
        vec![0x07, 0x14, 0x00, 0x05, 0x00, 0x34, 0x00, 0x00, 0x11, 0x10, 0x6e]
    );
    assert_eq!(
        status_frame(&Command::Brightness(SubCommand::Status)),
        vec![0x07, 0x14, 0x00, 0x05, 0x00, 0x34, 0x00, 0x00, 0x12, 0x03, 0x62]
    );
    assert_eq!(
        status_frame(&Command::Volume(SubCommand::Status)),
        vec![0x07, 0x14, 0x00, 0x05, 0x00, 0x34, 0x00, 0x00, 0x14, 0x03, 0x64]
    );
    assert_eq!(
        status_frame(&Command::Mute(SubCommand::Status)),
        vec![0x07, 0x14, 0x00, 0x05, 0x00, 0x34, 0x00, 0x00, 0x14, 0x00, 0x61]
    );
    assert_eq!(
        status_frame(&Command::Source(SubCommand::Status)),
        vec![0x07, 0x14, 0x00, 0x05, 0x00, 0x34, 0x00, 0x00, 0x13, 0x01, 0x61]
    );
    assert_eq!(
        status_frame(&Command::LampTime),
        vec![0x07, 0x14, 0x00, 0x05, 0x00, 0x34, 0x00, 0x00, 0x15, 0x01, 0x63]
    );
}

#[test]
fn write_frames_are_the_documented_literals() {
    assert_eq!(
        write_frame(&Command::Power(SubCommand::Up)),
        vec![0x06, 0x14, 0x00, 0x04, 0x00, 0x34, 0x11, 0x00, 0x00, 0x5d]
    );
    assert_eq!(
        write_frame(&Command::Power(SubCommand::Down)),
        vec![0x06, 0x14, 0x00, 0x04, 0x00, 0x34, 0x11, 0x01, 0x00, 0x5e]
    );
    assert_eq!(
        write_frame(&Command::Source(SubCommand::Up)),
        vec![0x06, 0x14, 0x00, 0x04, 0x00, 0x34, 0x13, 0x01, 0x03, 0x63]
    );
    assert_eq!(
        write_frame(&Command::Source(SubCommand::Down)),
        vec![0x06, 0x14, 0x00, 0x04, 0x00, 0x34, 0x13, 0x01, 0x07, 0x67]
    );
    assert_eq!(
        write_frame(&Command::Eco(SubCommand::Up)),
        vec![0x06, 0x14, 0x00, 0x04, 0x00, 0x34, 0x11, 0x10, 0x03, 0x70]
    );
    assert_eq!(
        write_frame(&Command::Eco(SubCommand::Down)),
        vec![0x06, 0x14, 0x00, 0x04, 0x00, 0x34, 0x11, 0x10, 0x02, 0x6f]
    );
    assert_eq!(
        write_frame(&Command::Volume(SubCommand::Up)),
        vec![0x06, 0x14, 0x00, 0x04, 0x00, 0x34, 0x14, 0x01, 0x00, 0x61]
    );
    assert_eq!(
        write_frame(&Command::Volume(SubCommand::Down)),
        vec![0x06, 0x14, 0x00, 0x04, 0x00, 0x34, 0x14, 0x02, 0x00, 0x62]
    );
    assert_eq!(
        write_frame(&Command::Mute(SubCommand::Up)),
        vec![0x06, 0x14, 0x00, 0x04, 0x00, 0x34, 0x14, 0x00, 0x01, 0x61]
    );
    assert_eq!(
        write_frame(&Command::Mute(SubCommand::Down)),
        vec![0x06, 0x14, 0x00, 0x04, 0x00, 0x34, 0x14, 0x00, 0x00, 0x60]
    );
    assert_eq!(
        write_frame(&Command::Brightness(SubCommand::Up)),
        vec![0x06, 0x14, 0x00, 0x04, 0x00, 0x34, 0x12, 0x03, 0x01, 0x62]
    );
    assert_eq!(
        write_frame(&Command::Brightness(SubCommand::Down)),
        vec![0x06, 0x14, 0x00, 0x04, 0x00, 0x34, 0x12, 0x03, 0x00, 0x61]
    );
}

#[test]
fn parse_state_boundary() {
    assert_eq!(parse_state(vec![0x00, 0x00, 0x00]), Reply::State(false));
    assert_eq!(parse_state(vec![0x00, 0x00, 0x01]), Reply::State(true));
    assert_eq!(parse_state(vec![0xff, 0xff, 0xff]), Reply::State(true));
}

#[test]
fn parse_eco_state_only_three_is_on() {
    assert_eq!(parse_eco_state(vec![0x00, 0x00, 0x03]), Reply::State(true));
    assert_eq!(parse_eco_state(vec![0x00, 0x00, 0x02]), Reply::State(false));
    assert_eq!(parse_eco_state(vec![0x00, 0x00, 0x00]), Reply::State(false));
    assert_eq!(parse_eco_state(vec![0x00, 0x00, 0x04]), Reply::State(false));
}

#[test]
fn parse_value_u8_reads_index_two() {
    assert_eq!(parse_value_u8(vec![0x09, 0x08, 0x2a]), Reply::ValueU8(42));
    assert_eq!(parse_value_u8(vec![0x00, 0x00, 0x00, 0x07]), Reply::ValueU8(0));
}

#[test]
fn parse_value_u32_reverses_then_reads_big_endian() {
    assert_eq!(parse_value_u32(vec![0x01, 0x00, 0x00, 0x00]), Reply::ValueU32(1));
    assert_eq!(parse_value_u32(vec![0x00, 0x00, 0x00, 0x01]), Reply::ValueU32(0x01000000));
    assert_eq!(
        parse_value_u32(vec![0x78, 0x56, 0x34, 0x12]),
        Reply::ValueU32(0x12345678)
    );
    // On a longer payload only the last four bytes count, in reverse order.
    assert_eq!(
        parse_value_u32(vec![0xaa, 0x78, 0x56, 0x34, 0x12]),
        Reply::ValueU32(0x12345678)
    );
}

#[test]
fn payload_length_is_header_byte_three() {
    assert_eq!(payload_length(&vec![0x05, 0x14, 0x00, 0x03, 0x00]), 3);
    assert_eq!(payload_length(&vec![0x05, 0x14, 0x00, 0x04, 0x00]), 4);
    assert_eq!(payload_length(&vec![0x00, 0x00, 0x00, 0x00, 0x00]), 0);
}

#[test]
fn str_eq_compares_by_characters() {
    assert!(str_eq("power", "power"));
    assert!(!str_eq("power", "power "));
    assert!(!str_eq("", "x"));
    assert!(str_eq("", ""));
}

#[test]
fn decimal_string_renders_exact_digits() {
    assert_eq!(decimal_string(0), "0");
    assert_eq!(decimal_string(7), "7");
    assert_eq!(decimal_string(10), "10");
    assert_eq!(decimal_string(4095), "4095");
    assert_eq!(decimal_string(u32::MAX), "4294967295");
}

#[test]
fn replies_render_like_their_values() {
    assert_eq!(Reply::State(true).display_string(), "true");
    assert_eq!(Reply::State(false).display_string(), "false");
    assert_eq!(Reply::ValueU8(42).display_string(), "42");
    assert_eq!(Reply::ValueU32(100000).display_string(), "100000");
}

#[test]
fn get_command_maps_names() {
    assert_eq!(
        get_command("power", &SubCommand::Status),
        Ok(Command::Power(SubCommand::Status))
    );
    assert_eq!(get_command("eco", &SubCommand::Up), Ok(Command::Eco(SubCommand::Up)));
    assert_eq!(
        get_command("source", &SubCommand::Down),
        Ok(Command::Source(SubCommand::Down))
    );
    assert_eq!(
        get_command("brightness", &SubCommand::Status),
        Ok(Command::Brightness(SubCommand::Status))
    );
    assert_eq!(
        get_command("volume", &SubCommand::Up),
        Ok(Command::Volume(SubCommand::Up))
    );
    assert_eq!(
        get_command("mute", &SubCommand::Down),
        Ok(Command::Mute(SubCommand::Down))
    );
    // The lamp-time property names the read-only command, whatever the
    // sub-command says.
    assert_eq!(get_command("lamp_time", &SubCommand::Up), Ok(Command::LampTime));
    assert_eq!(get_command("lamp_time", &SubCommand::Status), Ok(Command::LampTime));
    assert_eq!(
        get_command("gamma", &SubCommand::Status),
        Err(ControllerErr::UnsupportedCommand)
    );
    assert_eq!(get_command("", &SubCommand::Status), Err(ControllerErr::UnsupportedCommand));
}

use car_utils::command::{Command, CommandError, Navigate};

fn encode(c: &Command) -> Vec<u8> {
    let mut buf = vec![0u8; c.buf_len()];
    c.write(&mut buf);
    buf
}

#[test]
fn round_trip_every_variant() {
    let mut commands = vec![Command::NOP, Command::Statistics];
    for navigate in [Navigate::Brake, Navigate::Left, Navigate::Right, Navigate::Forward, Navigate::BackWard] {
        for speed in [0u8, 1, 50, 100] {
            commands.push(Command::Navigate { navigate, speed });
        }
    }
    for enabled in [false, true] {
        commands.push(Command::TH { enabled });
        commands.push(Command::Trace { enabled });
        commands.push(Command::Ultrasonic { enabled });
        commands.push(Command::Led { enabled });
        for brightness in 0..=7u8 {
            commands.push(Command::Nixie { enabled, brightness });
        }
    }
    for angle in [0u8, 45, 90, 135, 180] {
        commands.push(Command::Servos { angle });
    }
    for c in commands {
        assert_eq!(Command::parse(&encode(&c)), Ok(c));
    }
}

#[test]
fn encodings_match_the_wire_table() {
    assert_eq!(encode(&Command::NOP), vec![0]);
    assert_eq!(encode(&Command::Statistics), vec![1]);
    assert_eq!(encode(&Command::Navigate { navigate: Navigate::Forward, speed: 80 }), vec![2, 3, 80]);
    assert_eq!(encode(&Command::TH { enabled: true }), vec![3, 1]);
    assert_eq!(encode(&Command::Nixie { enabled: true, brightness: 5 }), vec![4, 1, 5]);
    assert_eq!(encode(&Command::Servos { angle: 135 }), vec![5, 135]);
    assert_eq!(encode(&Command::Trace { enabled: false }), vec![6, 0]);
    assert_eq!(encode(&Command::Ultrasonic { enabled: true }), vec![7, 1]);
    assert_eq!(encode(&Command::Led { enabled: true }), vec![8, 1]);
}

#[test]
fn short_input_is_parser_error_for_tags_with_extra_bytes() {
    for tag in 2..=8u8 {
        assert_eq!(Command::parse(&[tag]), Err(CommandError::ParserError));
    }
    assert_eq!(Command::parse(&[2, 3]), Err(CommandError::ParserError));
    assert_eq!(Command::parse(&[4, 1]), Err(CommandError::ParserError));
    assert_eq!(Command::parse(&[]), Err(CommandError::ParserError));
}

#[test]
fn tags_from_nine_up_are_unknown() {
    for tag in 9..=255u8 {
        assert_eq!(Command::parse(&[tag]), Err(CommandError::UnknownCommand));
        assert_eq!(Command::parse(&[tag, 1, 2]), Err(CommandError::UnknownCommand));
    }
}

#[test]
fn unknown_direction_decodes_as_brake() {
    assert_eq!(Command::parse(&[2, 5, 40]), Ok(Command::Navigate { navigate: Navigate::Brake, speed: 40 }));
    assert_eq!(Command::parse(&[2, 255, 1]), Ok(Command::Navigate { navigate: Navigate::Brake, speed: 1 }));
}

#[test]
fn fields_are_taken_verbatim() {
    assert_eq!(Command::parse(&[3, 7]), Ok(Command::TH { enabled: true }));
    assert_eq!(Command::parse(&[4, 0, 200]), Ok(Command::Nixie { enabled: false, brightness: 200 }));
    assert_eq!(Command::parse(&[5, 33]), Ok(Command::Servos { angle: 33 }));
    assert_eq!(Command::parse(&[0, 9, 9]), Ok(Command::NOP));
}

#[test]
fn direction_codes() {
    for code in 0..=4u8 {
        let n = Navigate::from_u8(code).unwrap();
        assert_eq!(n.to_u8(), code);
    }
    assert_eq!(Navigate::from_u8(5), None);
    assert_eq!(Navigate::from_u8(3), Some(Navigate::Forward));
}

use rc_commands::Command;
use rc_commands::CodecError;
use rc_commands::MotionVector;
use rc_commands::MotorPosition;
use rc_commands::Revision;

fn vector(x: f32, y: f32, z: f32) -> MotionVector {
    MotionVector { x_bits: x.to_bits(), y_bits: y.to_bits(), z_bits: z.to_bits() }
}

const ALL_MOTORS: [MotorPosition; 9] = [
    MotorPosition::FrontLeft,
    MotorPosition::FrontRight,
    MotorPosition::BackLeft,
    MotorPosition::BackRight,
    MotorPosition::Left,
    MotorPosition::Right,
    MotorPosition::Front,
    MotorPosition::Back,
    MotorPosition::All,
];

const MOTOR_TAGS: [u8; 9] = [0x01, 0x02, 0x03, 0x04, 0xF1, 0xF2, 0xF3, 0xF4, 0xFF];

#[test]
fn encode_toggle_led_exact_bytes() {
    assert_eq!(Command::ToggleLed.to_bytes(), vec![0x01]);
}

#[test]
fn encode_start_motor_rev1_exact_bytes() {
    let cmd = Command::StartMotor(Some(MotorPosition::FrontLeft));
    assert_eq!(cmd.to_bytes(), vec![0x0A, 0x01]);
}

#[test]
fn encode_send_motion_state_rev2_exact_bytes() {
    let cmd = Command::SendMotionState(vector(1.0, 0.0, -2.5), Some(true));
    assert_eq!(
        cmd.to_bytes(),
        vec![
            0x15, 0x3F, 0x80, 0x00, 0x00, 0x00, 0x00, 0x00, 0x00, 0xC0, 0x20, 0x00, 0x00, 0x01
        ]
    );
}

#[test]
fn encode_other_shapes_exact_bytes() {
    assert_eq!(Command::GetMotionState.to_bytes(), vec![0x14]);
    assert_eq!(Command::StartMotor(None).to_bytes(), vec![0x0A]);
    assert_eq!(Command::StopMotor(None).to_bytes(), vec![0x0B]);
    assert_eq!(Command::StopMotor(Some(MotorPosition::Back)).to_bytes(), vec![0x0B, 0xF4]);
    assert_eq!(
        Command::SendMotionState(vector(0.0, 0.0, 0.0), None).to_bytes(),
        vec![0x15, 0, 0, 0, 0, 0, 0, 0, 0, 0, 0, 0, 0]
    );
}

#[test]
fn bounded_encode_matches_growable_encode() {
    let commands = [
        Command::ToggleLed,
        Command::GetMotionState,
        Command::StartMotor(Some(MotorPosition::Right)),
        Command::StopMotor(None),
        Command::SendMotionState(vector(1.5, -0.25, 3.0), Some(false)),
        Command::SendMotionState(vector(0.1, 0.2, 0.3), None),
    ];
    for cmd in commands {
        let mut out: heapless::Vec<u8, 32> = heapless::Vec::new();
        assert_eq!(cmd.to_byte_array(&mut out), Ok(()));
        assert_eq!(out.as_slice(), cmd.to_bytes().as_slice());
    }
}

#[test]
fn round_trip_every_shape_rev1() {
    let mut commands = vec![
        Command::ToggleLed,
        Command::GetMotionState,
        Command::SendMotionState(vector(1.0, -1.0, 0.5), None),
        Command::SendMotionState(vector(f32::NAN, f32::INFINITY, -0.0), None),
    ];
    for m in ALL_MOTORS {
        commands.push(Command::StartMotor(Some(m)));
        commands.push(Command::StopMotor(Some(m)));
    }
    for cmd in commands {
        let bytes = cmd.to_bytes();
        assert_eq!(Command::from_byte_array(Revision::Rev1, &bytes), Ok(cmd));
    }
}

#[test]
fn round_trip_every_shape_rev2() {
    let commands = [
        Command::ToggleLed,
        Command::GetMotionState,
        Command::StartMotor(None),
        Command::StopMotor(None),
        Command::SendMotionState(vector(1.0, -1.0, 0.5), Some(true)),
        Command::SendMotionState(vector(f32::NAN, f32::NEG_INFINITY, -0.0), Some(false)),
    ];
    for cmd in commands {
        let bytes = cmd.to_bytes();
        assert_eq!(Command::from_byte_array(Revision::Rev2, &bytes), Ok(cmd));
    }
}

#[test]
fn round_trip_preserves_nan_bit_pattern() {
    let odd_nan: u32 = 0x7FC0_0123;
    let cmd = Command::SendMotionState(
        MotionVector { x_bits: odd_nan, y_bits: 0x7F80_0000, z_bits: 0xFF80_0000 },
        Some(true),
    );
    let bytes = cmd.to_bytes();
    match Command::from_byte_array(Revision::Rev2, &bytes) {
        Ok(Command::SendMotionState(v, armed)) => {
            assert_eq!(v.x_bits, odd_nan);
            assert_eq!(v.y_bits, 0x7F80_0000);
            assert_eq!(v.z_bits, 0xFF80_0000);
            assert_eq!(armed, Some(true));
        }
        other => panic!("expected a motion report, got {:?}", other),
    }
}

#[test]
fn command_tag_exhaustive() {
    for byte in 0..=255u8 {
        for rev in [Revision::Rev1, Revision::Rev2] {
            let shape = Command::try_from_byte(rev, byte);
            match byte {
                1 => assert!(matches!(shape, Ok(Command::ToggleLed))),
                10 => assert!(matches!(shape, Ok(Command::StartMotor(_)))),
                11 => assert!(matches!(shape, Ok(Command::StopMotor(_)))),
                20 => assert!(matches!(shape, Ok(Command::GetMotionState))),
                21 => assert!(matches!(shape, Ok(Command::SendMotionState(_, _)))),
                _ => assert_eq!(shape, Err(CodecError::InvalidCommandTag)),
            }
            if !matches!(byte, 1 | 10 | 11 | 20 | 21) {
                assert_eq!(
                    Command::from_byte_array(rev, &[byte]),
                    Err(CodecError::InvalidCommandTag)
                );
            }
        }
    }
}

#[test]
fn motor_tag_exhaustive() {
    for (m, tag) in ALL_MOTORS.iter().zip(MOTOR_TAGS.iter()) {
        assert_eq!(m.to_byte(), *tag);
        assert_eq!(MotorPosition::try_from_byte(*tag), Ok(*m));
    }
    for byte in 0..=255u8 {
        if !MOTOR_TAGS.contains(&byte) {
            assert_eq!(MotorPosition::try_from_byte(byte), Err(CodecError::InvalidMotorTag));
        }
    }
}

#[test]
fn invalid_motor_tag_while_decoding() {
    assert_eq!(
        Command::from_byte_array(Revision::Rev1, &[0x0A, 0x05]),
        Err(CodecError::InvalidMotorTag)
    );
    assert_eq!(
        Command::from_byte_array(Revision::Rev1, &[0x0B, 0xF0]),
        Err(CodecError::InvalidMotorTag)
    );
}

#[test]
fn truncated_at_exact_boundary() {
    assert_eq!(Command::from_byte_array(Revision::Rev1, &[]), Err(CodecError::Truncated));
    assert_eq!(Command::from_byte_array(Revision::Rev2, &[]), Err(CodecError::Truncated));
    assert_eq!(Command::from_byte_array(Revision::Rev1, &[0x0A]), Err(CodecError::Truncated));

    let full = Command::SendMotionState(vector(1.0, 2.0, 3.0), Some(true)).to_bytes();
    assert_eq!(full.len(), 14);
    assert_eq!(
        Command::from_byte_array(Revision::Rev2, &full[..13]),
        Err(CodecError::Truncated)
    );
    assert!(Command::from_byte_array(Revision::Rev2, &full).is_ok());

    let rev1_full = Command::SendMotionState(vector(1.0, 2.0, 3.0), None).to_bytes();
    assert_eq!(rev1_full.len(), 13);
    assert_eq!(
        Command::from_byte_array(Revision::Rev1, &rev1_full[..12]),
        Err(CodecError::Truncated)
    );
    assert!(Command::from_byte_array(Revision::Rev1, &rev1_full).is_ok());
}

#[test]
fn trailing_bytes_ignored_on_short_shapes() {
    assert_eq!(
        Command::from_byte_array(Revision::Rev1, &[0x01, 0xAA, 0xBB]),
        Ok(Command::ToggleLed)
    );
    assert_eq!(
        Command::from_byte_array(Revision::Rev2, &[0x0A, 0x99]),
        Ok(Command::StartMotor(None))
    );
}

#[test]
fn armed_byte_validation() {
    let mut bytes = Command::SendMotionState(vector(0.5, 0.5, 0.5), Some(false)).to_bytes();
    assert_eq!(bytes[13], 0);
    match Command::from_byte_array(Revision::Rev2, &bytes) {
        Ok(Command::SendMotionState(_, armed)) => assert_eq!(armed, Some(false)),
        other => panic!("expected a motion report, got {:?}", other),
    }

    bytes[13] = 1;
    match Command::from_byte_array(Revision::Rev2, &bytes) {
        Ok(Command::SendMotionState(_, armed)) => assert_eq!(armed, Some(true)),
        other => panic!("expected a motion report, got {:?}", other),
    }

    bytes[13] = 2;
    assert_eq!(Command::from_byte_array(Revision::Rev2, &bytes), Err(CodecError::InvalidBoolean));

    bytes[13] = 0xFF;
    assert_eq!(Command::from_byte_array(Revision::Rev2, &bytes), Err(CodecError::InvalidBoolean));
}

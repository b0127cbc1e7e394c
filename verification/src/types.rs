use vstd::prelude::*;

verus! {

/// Addressable motor or motor group on the vehicle.
///
/// Four motors can be addressed individually; four aliases address a
/// pair of motors at once, and `All` addresses every motor. Each variant
/// has a fixed one-byte wire tag: individual motors use `0x01`..`0x04`,
/// group aliases use `0xF1`..`0xF4`, and `All` uses `0xFF`.
#[derive(Clone, Copy, Debug, PartialEq, Eq, Structural)]
pub enum MotorPosition {
    FrontLeft,
    FrontRight,
    BackLeft,
    BackRight,
    Left,
    Right,
    Front,
    Back,
    All,
}

/// Wire-format revision. The two revisions are incompatible: revision 1
/// carries a motor tag with `StartMotor`/`StopMotor` and no armed flag
/// with `SendMotionState`; revision 2 drops motor targeting and appends
/// a one-byte armed flag to `SendMotionState`.
#[derive(Clone, Copy, Debug, PartialEq, Eq, Structural)]
pub enum Revision {
    Rev1,
    Rev2,
}

/// A 3-component angular-velocity vector, each component held as the
/// IEEE-754 bit pattern of a 32-bit float. The codec moves the exact
/// bit patterns over the wire (big-endian), never the rounded numeric
/// values, so NaN and infinity patterns pass through unchanged.
#[derive(Clone, Copy, Debug, PartialEq, Eq, Structural)]
pub struct MotionVector {
    pub x_bits: u32,
    pub y_bits: u32,
    pub z_bits: u32,
}

/// Revision-2 in-memory motion record kept by the caller: one throttle
/// value per motor (as IEEE-754 bit patterns) plus the armed flag. It is
/// not itself part of the wire format beyond the fields it supplies to
/// `SendMotionState`.
#[derive(Clone, Copy, Debug, PartialEq, Eq, Structural)]
pub struct MotorState {
    pub front_left_bits: u32,
    pub front_right_bits: u32,
    pub back_left_bits: u32,
    pub back_right_bits: u32,
    pub armed: bool,
}

/// A control command for the serial link.
///
/// The optional payloads follow the wire-format revision in use, see
/// [`Command::wf`]: under revision 1 `StartMotor`/`StopMotor` carry a
/// motor position and `SendMotionState` carries no armed flag; under
/// revision 2 it is the other way around.
#[derive(Clone, Copy, Debug, PartialEq, Eq)]
pub enum Command {
    StartMotor(Option<MotorPosition>),
    StopMotor(Option<MotorPosition>),
    GetMotionState,
    SendMotionState(MotionVector, Option<bool>),
    ToggleLed,
}

/// Everything that can go wrong while encoding or decoding a command.
#[derive(Clone, Copy, Debug, PartialEq, Eq, Structural)]
pub enum CodecError {
    /// The first byte of a raw buffer is not a known command tag.
    InvalidCommandTag,
    /// A motor payload byte is not a known motor-position tag.
    InvalidMotorTag,
    /// An armed payload byte is neither 0 nor 1.
    InvalidBoolean,
    /// The buffer ended before the bytes its tag's shape requires.
    Truncated,
    /// A fixed-capacity output buffer could not hold the next byte.
    BufferFull,
    /// The framing collaborator rejected a frame as malformed.
    FramingError,
}

/// One-byte wire tag of a motor position.
pub open spec fn spec_motor_tag(m: MotorPosition) -> u8 {
    match m {
        MotorPosition::FrontLeft => 0x01,
        MotorPosition::FrontRight => 0x02,
        MotorPosition::BackLeft => 0x03,
        MotorPosition::BackRight => 0x04,
        MotorPosition::Left => 0xF1,
        MotorPosition::Right => 0xF2,
        MotorPosition::Front => 0xF3,
        MotorPosition::Back => 0xF4,
        MotorPosition::All => 0xFF,
    }
}

/// Motor position denoted by a wire tag, `None` for the other 247 bytes.
pub open spec fn spec_motor_from_tag(value: u8) -> Option<MotorPosition> {
    if value == 0x01 {
        Some(MotorPosition::FrontLeft)
    } else if value == 0x02 {
        Some(MotorPosition::FrontRight)
    } else if value == 0x03 {
        Some(MotorPosition::BackLeft)
    } else if value == 0x04 {
        Some(MotorPosition::BackRight)
    } else if value == 0xF1 {
        Some(MotorPosition::Left)
    } else if value == 0xF2 {
        Some(MotorPosition::Right)
    } else if value == 0xF3 {
        Some(MotorPosition::Front)
    } else if value == 0xF4 {
        Some(MotorPosition::Back)
    } else if value == 0xFF {
        Some(MotorPosition::All)
    } else {
        None
    }
}

impl MotorPosition {
    /// Wire tag of this motor position.
    pub fn to_byte(self) -> (r: u8)
        ensures
            r == spec_motor_tag(self),
    {
        match self {
            MotorPosition::FrontLeft => 0x01,
            MotorPosition::FrontRight => 0x02,
            MotorPosition::BackLeft => 0x03,
            MotorPosition::BackRight => 0x04,
            MotorPosition::Left => 0xF1,
            MotorPosition::Right => 0xF2,
            MotorPosition::Front => 0xF3,
            MotorPosition::Back => 0xF4,
            MotorPosition::All => 0xFF,
        }
    }

    /// Motor position for a wire tag; `InvalidMotorTag` for any byte
    /// outside the nine defined tags.
    pub fn try_from_byte(value: u8) -> (r: Result<MotorPosition, CodecError>)
        ensures
            r == match spec_motor_from_tag(value) {
                Some(m) => Ok::<MotorPosition, CodecError>(m),
                None => Err::<MotorPosition, CodecError>(CodecError::InvalidMotorTag),
            },
    {
        match value {
            0x01 => Ok(MotorPosition::FrontLeft),
            0x02 => Ok(MotorPosition::FrontRight),
            0x03 => Ok(MotorPosition::BackLeft),
            0x04 => Ok(MotorPosition::BackRight),
            0xF1 => Ok(MotorPosition::Left),
            0xF2 => Ok(MotorPosition::Right),
            0xF3 => Ok(MotorPosition::Front),
            0xF4 => Ok(MotorPosition::Back),
            0xFF => Ok(MotorPosition::All),
            _ => Err(CodecError::InvalidMotorTag),
        }
    }
}

impl Command {
    /// Whether this command's payloads are the ones its revision gives it:
    /// revision 1 targets a motor in `StartMotor`/`StopMotor` and carries
    /// no armed flag; revision 2 targets no motor and carries one.
    pub open spec fn wf(self, rev: Revision) -> bool {
        match self {
            Command::StartMotor(m) => m is Some <==> rev is Rev1,
            Command::StopMotor(m) => m is Some <==> rev is Rev1,
            Command::GetMotionState => true,
            Command::SendMotionState(_, armed) => armed is Some <==> rev is Rev2,
            Command::ToggleLed => true,
        }
    }

    /// Wire tag of this command, stable across revisions.
    pub fn to_byte(self) -> (r: u8)
        ensures
            r == spec_command_tag(self),
    {
        match self {
            Command::ToggleLed => 1,
            Command::StartMotor(_) => 10,
            Command::StopMotor(_) => 11,
            Command::GetMotionState => 20,
            Command::SendMotionState(_, _) => 21,
        }
    }

    /// Command shape for a wire tag: a default-payload instance of the
    /// variant the tag names (payload bytes are read separately while
    /// decoding), or `InvalidCommandTag` for any byte outside the five
    /// command tags.
    pub fn try_from_byte(rev: Revision, value: u8) -> (r: Result<Command, CodecError>)
        ensures
            r == spec_command_from_tag(rev, value),
    {
        match value {
            1 => Ok(Command::ToggleLed),
            10 => Ok(Command::StartMotor(default_motor_target(rev))),
            11 => Ok(Command::StopMotor(default_motor_target(rev))),
            20 => Ok(Command::GetMotionState),
            21 => Ok(Command::SendMotionState(
                MotionVector { x_bits: 0, y_bits: 0, z_bits: 0 },
                default_armed(rev),
            )),
            _ => Err(CodecError::InvalidCommandTag),
        }
    }
}

/// Wire tag of a command.
pub open spec fn spec_command_tag(c: Command) -> u8 {
    match c {
        Command::ToggleLed => 1,
        Command::StartMotor(_) => 10,
        Command::StopMotor(_) => 11,
        Command::GetMotionState => 20,
        Command::SendMotionState(_, _) => 21,
    }
}

/// Default motor target of a freshly dispatched `StartMotor`/`StopMotor`
/// shape: all motors under revision 1, no target under revision 2.
pub open spec fn spec_default_motor_target(rev: Revision) -> Option<MotorPosition> {
    match rev {
        Revision::Rev1 => Some(MotorPosition::All),
        Revision::Rev2 => None,
    }
}

/// Default armed flag of a freshly dispatched `SendMotionState` shape:
/// absent under revision 1, disarmed under revision 2.
pub open spec fn spec_default_armed(rev: Revision) -> Option<bool> {
    match rev {
        Revision::Rev1 => None,
        Revision::Rev2 => Some(false),
    }
}

/// Command shape denoted by a wire tag, with default payloads;
/// `InvalidCommandTag` for the other 251 bytes.
pub open spec fn spec_command_from_tag(rev: Revision, value: u8) -> Result<Command, CodecError> {
    if value == 1 {
        Ok(Command::ToggleLed)
    } else if value == 10 {
        Ok(Command::StartMotor(spec_default_motor_target(rev)))
    } else if value == 11 {
        Ok(Command::StopMotor(spec_default_motor_target(rev)))
    } else if value == 20 {
        Ok(Command::GetMotionState)
    } else if value == 21 {
        Ok(Command::SendMotionState(
            MotionVector { x_bits: 0, y_bits: 0, z_bits: 0 },
            spec_default_armed(rev),
        ))
    } else {
        Err(CodecError::InvalidCommandTag)
    }
}

fn default_motor_target(rev: Revision) -> (r: Option<MotorPosition>)
    ensures
        r == spec_default_motor_target(rev),
{
    match rev {
        Revision::Rev1 => Some(MotorPosition::All),
        Revision::Rev2 => None,
    }
}

fn default_armed(rev: Revision) -> (r: Option<bool>)
    ensures
        r == spec_default_armed(rev),
{
    match rev {
        Revision::Rev1 => None,
        Revision::Rev2 => Some(false),
    }
}

/// Law: the five command tags and the five command shapes are in exact
/// correspondence. Every byte in {1, 10, 11, 20, 21} dispatches to the
/// variant with that tag, well formed for the revision in use, and every
/// other byte is rejected as an invalid command tag.
pub proof fn lemma_command_tag_exhaustive(rev: Revision)
    ensures
        forall|b: u8| #[trigger] spec_command_from_tag(rev, b) is Ok <==> (b == 1 || b == 10
            || b == 11 || b == 20 || b == 21),
        forall|b: u8| #[trigger] spec_command_from_tag(rev, b) matches Ok(c) ==> spec_command_tag(
            c,
        ) == b && c.wf(rev),
        forall|b: u8| spec_command_from_tag(rev, b) is Err ==> spec_command_from_tag(rev, b)
            == Err::<Command, CodecError>(CodecError::InvalidCommandTag),
{
}

/// Law: the nine motor tags and the nine motor positions are in exact
/// bidirectional correspondence, and every byte outside the nine tags
/// denotes no motor position.
pub proof fn lemma_motor_tag_exhaustive()
    ensures
        forall|m: MotorPosition| spec_motor_from_tag(spec_motor_tag(m)) == Some(m),
        forall|b: u8| #[trigger] spec_motor_from_tag(b) matches Some(m) ==> spec_motor_tag(m) == b,
        forall|b: u8| #[trigger] spec_motor_from_tag(b) is Some <==> (b == 0x01 || b == 0x02
            || b == 0x03 || b == 0x04 || b == 0xF1 || b == 0xF2 || b == 0xF3 || b == 0xF4
            || b == 0xFF),
{
    assert forall|m: MotorPosition| spec_motor_from_tag(spec_motor_tag(m)) == Some(m) by {
        match m {
            MotorPosition::FrontLeft => {},
            MotorPosition::FrontRight => {},
            MotorPosition::BackLeft => {},
            MotorPosition::BackRight => {},
            MotorPosition::Left => {},
            MotorPosition::Right => {},
            MotorPosition::Front => {},
            MotorPosition::Back => {},
            MotorPosition::All => {},
        }
    }
}

} // verus!

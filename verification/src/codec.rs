use vstd::prelude::*;

use crate::buffer::hvec_bytes;
use crate::buffer::hvec_clear;
use crate::buffer::hvec_push;
use crate::types::Command;
use crate::types::CodecError;
use crate::types::MotionVector;
use crate::types::MotorPosition;
use crate::types::Revision;
use crate::types::lemma_motor_tag_exhaustive;
use crate::types::spec_command_from_tag;
use crate::types::spec_command_tag;
use crate::types::spec_motor_from_tag;
use crate::types::spec_motor_tag;

verus! {

/// The four bytes of a 32-bit value in big-endian order.
pub open spec fn spec_be_bytes(x: u32) -> Seq<u8> {
    seq![
        ((x >> 24) & 0xFF) as u8,
        ((x >> 16) & 0xFF) as u8,
        ((x >> 8) & 0xFF) as u8,
        (x & 0xFF) as u8,
    ]
}

/// The 32-bit value whose big-endian bytes are `b0 b1 b2 b3`.
pub open spec fn spec_u32_be(b0: u8, b1: u8, b2: u8, b3: u8) -> u32 {
    ((b0 as u32) << 24) | ((b1 as u32) << 16) | ((b2 as u32) << 8) | (b3 as u32)
}

/// Reassembling the big-endian bytes of a value gives the value back.
pub proof fn lemma_be_round_trip(x: u32)
    ensures
        spec_u32_be(
            ((x >> 24) & 0xFF) as u8,
            ((x >> 16) & 0xFF) as u8,
            ((x >> 8) & 0xFF) as u8,
            (x & 0xFF) as u8,
        ) == x,
{
    assert(((((x >> 24) & 0xFF) as u8 as u32) << 24) | ((((x >> 16) & 0xFF) as u8 as u32) << 16)
        | ((((x >> 8) & 0xFF) as u8 as u32) << 8) | ((x & 0xFF) as u8 as u32) == x)
        by (bit_vector);
}

/// Raw wire bytes of a command: its tag, then its fixed-order payload.
/// The revision never appears on the wire; it shows only in which
/// payloads the command carries, so encoding needs no revision argument.
pub open spec fn spec_encode(c: Command) -> Seq<u8> {
    match c {
        Command::ToggleLed => seq![1u8],
        Command::GetMotionState => seq![20u8],
        Command::StartMotor(m) => match m {
            Some(p) => seq![10u8, spec_motor_tag(p)],
            None => seq![10u8],
        },
        Command::StopMotor(m) => match m {
            Some(p) => seq![11u8, spec_motor_tag(p)],
            None => seq![11u8],
        },
        Command::SendMotionState(v, armed) => seq![21u8] + spec_be_bytes(v.x_bits) + spec_be_bytes(
            v.y_bits,
        ) + spec_be_bytes(v.z_bits) + match armed {
            Some(true) => seq![1u8],
            Some(false) => seq![0u8],
            None => Seq::<u8>::empty(),
        },
    }
}

/// How many raw bytes the shape named by `tag` occupies under `rev`,
/// tag byte included. 1 for tags that name no shape.
pub open spec fn spec_wire_len(rev: Revision, tag: u8) -> int {
    if tag == 10 || tag == 11 {
        if rev is Rev1 {
            2
        } else {
            1
        }
    } else if tag == 21 {
        if rev is Rev1 {
            13
        } else {
            14
        }
    } else {
        1
    }
}

/// The angular-velocity vector held in bytes 1..13 of a raw buffer.
pub open spec fn spec_vector_of(data: Seq<u8>) -> MotionVector
    recommends
        data.len() >= 13,
{
    MotionVector {
        x_bits: spec_u32_be(data[1], data[2], data[3], data[4]),
        y_bits: spec_u32_be(data[5], data[6], data[7], data[8]),
        z_bits: spec_u32_be(data[9], data[10], data[11], data[12]),
    }
}

/// The command a raw buffer denotes under `rev`, or the first error met:
/// `Truncated` on an empty buffer or one shorter than its tag's shape
/// requires, `InvalidCommandTag` on an unknown first byte,
/// `InvalidMotorTag` on an unknown motor byte, `InvalidBoolean` on an
/// armed byte other than 0 or 1.
///
/// Bytes past the shape's end are deliberately ignored, a leniency that
/// leaves room for forward compatibility; a caller that wants strict
/// framing can compare the buffer's length against [`spec_wire_len`].
pub open spec fn spec_decode(rev: Revision, data: Seq<u8>) -> Result<Command, CodecError> {
    if data.len() == 0 {
        Err(CodecError::Truncated)
    } else if spec_command_from_tag(rev, data[0]) is Err {
        Err(CodecError::InvalidCommandTag)
    } else if data.len() < spec_wire_len(rev, data[0]) {
        Err(CodecError::Truncated)
    } else if data[0] == 1 {
        Ok(Command::ToggleLed)
    } else if data[0] == 20 {
        Ok(Command::GetMotionState)
    } else if data[0] == 10 || data[0] == 11 {
        match rev {
            Revision::Rev1 => match spec_motor_from_tag(data[1]) {
                Some(m) => Ok(
                    if data[0] == 10 {
                        Command::StartMotor(Some(m))
                    } else {
                        Command::StopMotor(Some(m))
                    },
                ),
                None => Err(CodecError::InvalidMotorTag),
            },
            Revision::Rev2 => Ok(
                if data[0] == 10 {
                    Command::StartMotor(None)
                } else {
                    Command::StopMotor(None)
                },
            ),
        }
    } else {
        match rev {
            Revision::Rev1 => Ok(Command::SendMotionState(spec_vector_of(data), None)),
            Revision::Rev2 => if data[13] == 0 {
                Ok(Command::SendMotionState(spec_vector_of(data), Some(false)))
            } else if data[13] == 1 {
                Ok(Command::SendMotionState(spec_vector_of(data), Some(true)))
            } else {
                Err(CodecError::InvalidBoolean)
            },
        }
    }
}

/// Splits a 32-bit value into its big-endian bytes.
fn be_split(x: u32) -> (r: (u8, u8, u8, u8))
    ensures
        r.0 == spec_be_bytes(x)[0],
        r.1 == spec_be_bytes(x)[1],
        r.2 == spec_be_bytes(x)[2],
        r.3 == spec_be_bytes(x)[3],
{
    proof {
        assert((x >> 24) & 0xFF < 256 && (x >> 16) & 0xFF < 256 && (x >> 8) & 0xFF < 256 && x
            & 0xFF < 256) by (bit_vector);
    }
    (
        ((x >> 24) & 0xFF) as u8,
        ((x >> 16) & 0xFF) as u8,
        ((x >> 8) & 0xFF) as u8,
        (x & 0xFF) as u8,
    )
}

/// Joins four big-endian bytes into a 32-bit value.
fn be_join(b0: u8, b1: u8, b2: u8, b3: u8) -> (r: u32)
    ensures
        r == spec_u32_be(b0, b1, b2, b3),
{
    ((b0 as u32) << 24) | ((b1 as u32) << 16) | ((b2 as u32) << 8) | (b3 as u32)
}

/// Appends the big-endian bytes of `x` to `out`.
fn push_be(out: &mut Vec<u8>, x: u32)
    ensures
        final(out)@ == old(out)@ + spec_be_bytes(x),
{
    let (b0, b1, b2, b3) = be_split(x);
    out.push(b0);
    out.push(b1);
    out.push(b2);
    out.push(b3);
    assert(out@ =~= old(out)@ + spec_be_bytes(x));
}

/// Appends the big-endian bytes of `x` to a bounded buffer with room
/// for them.
fn push_be_bounded(out: &mut heapless::Vec<u8, 32>, x: u32)
    requires
        hvec_bytes(*old(out)).len() + 4 <= 32,
    ensures
        hvec_bytes(*final(out)) == hvec_bytes(*old(out)) + spec_be_bytes(x),
{
    let (b0, b1, b2, b3) = be_split(x);
    let _ = hvec_push(out, b0);
    let _ = hvec_push(out, b1);
    let _ = hvec_push(out, b2);
    let _ = hvec_push(out, b3);
    assert(hvec_bytes(*out) =~= hvec_bytes(*old(out)) + spec_be_bytes(x));
}

/// Reads the angular-velocity vector from bytes 1..13 of a raw buffer.
fn read_vector(data: &[u8]) -> (v: MotionVector)
    requires
        data@.len() >= 13,
    ensures
        v == spec_vector_of(data@),
{
    MotionVector {
        x_bits: be_join(data[1], data[2], data[3], data[4]),
        y_bits: be_join(data[5], data[6], data[7], data[8]),
        z_bits: be_join(data[9], data[10], data[11], data[12]),
    }
}

impl Command {
    /// Serializes this command to its raw wire bytes in a growable
    /// buffer, the host-environment flavor of the encoder; it cannot
    /// fail.
    pub fn to_bytes(self) -> (r: Vec<u8>)
        ensures
            r@ == spec_encode(self),
    {
        let mut out: Vec<u8> = Vec::new();
        out.push(self.to_byte());
        match self {
            Command::ToggleLed => {},
            Command::GetMotionState => {},
            Command::StartMotor(m) => {
                if let Some(p) = m {
                    out.push(p.to_byte());
                }
            },
            Command::StopMotor(m) => {
                if let Some(p) = m {
                    out.push(p.to_byte());
                }
            },
            Command::SendMotionState(v, armed) => {
                push_be(&mut out, v.x_bits);
                push_be(&mut out, v.y_bits);
                push_be(&mut out, v.z_bits);
                if let Some(a) = armed {
                    out.push(if a { 1 } else { 0 });
                }
            },
        }
        assert(out@ =~= spec_encode(self));
        out
    }

    /// Serializes this command to its raw wire bytes in a caller-owned
    /// fixed-capacity buffer, the embedded-environment flavor of the
    /// encoder. The buffer is cleared first; it would report
    /// `BufferFull` only if its capacity could not hold the encoding,
    /// which a 32-byte buffer always can, so the call always succeeds.
    pub fn to_byte_array(self, out: &mut heapless::Vec<u8, 32>) -> (r: Result<(), CodecError>)
        ensures
            r == Ok::<(), CodecError>(()),
            hvec_bytes(*final(out)) == spec_encode(self),
    {
        hvec_clear(out);
        if !hvec_push(out, self.to_byte()) {
            return Err(CodecError::BufferFull);
        }
        match self {
            Command::ToggleLed => {},
            Command::GetMotionState => {},
            Command::StartMotor(m) => {
                if let Some(p) = m {
                    if !hvec_push(out, p.to_byte()) {
                        return Err(CodecError::BufferFull);
                    }
                }
            },
            Command::StopMotor(m) => {
                if let Some(p) = m {
                    if !hvec_push(out, p.to_byte()) {
                        return Err(CodecError::BufferFull);
                    }
                }
            },
            Command::SendMotionState(v, armed) => {
                push_be_bounded(out, v.x_bits);
                push_be_bounded(out, v.y_bits);
                push_be_bounded(out, v.z_bits);
                if let Some(a) = armed {
                    if !hvec_push(out, if a { 1 } else { 0 }) {
                        return Err(CodecError::BufferFull);
                    }
                }
            },
        }
        assert(hvec_bytes(*out) =~= spec_encode(self));
        Ok(())
    }

    /// Parses a raw byte buffer into a validated command under `rev`,
    /// reading exactly the bytes the first byte's shape requires and
    /// failing on the first malformed or missing byte.
    pub fn from_byte_array(rev: Revision, data: &[u8]) -> (r: Result<Command, CodecError>)
        ensures
            r == spec_decode(rev, data@),
            r matches Ok(c) ==> c.wf(rev),
    {
        if data.len() == 0 {
            return Err(CodecError::Truncated);
        }
        let shape = match Command::try_from_byte(rev, data[0]) {
            Ok(s) => s,
            Err(e) => {
                return Err(e);
            },
        };
        match shape {
            Command::ToggleLed => Ok(Command::ToggleLed),
            Command::GetMotionState => Ok(Command::GetMotionState),
            Command::StartMotor(t) => match t {
                Some(_) => {
                    if data.len() < 2 {
                        return Err(CodecError::Truncated);
                    }
                    match MotorPosition::try_from_byte(data[1]) {
                        Ok(m) => Ok(Command::StartMotor(Some(m))),
                        Err(e) => Err(e),
                    }
                },
                None => Ok(Command::StartMotor(None)),
            },
            Command::StopMotor(t) => match t {
                Some(_) => {
                    if data.len() < 2 {
                        return Err(CodecError::Truncated);
                    }
                    match MotorPosition::try_from_byte(data[1]) {
                        Ok(m) => Ok(Command::StopMotor(Some(m))),
                        Err(e) => Err(e),
                    }
                },
                None => Ok(Command::StopMotor(None)),
            },
            Command::SendMotionState(_, armed_default) => match armed_default {
                None => {
                    if data.len() < 13 {
                        return Err(CodecError::Truncated);
                    }
                    Ok(Command::SendMotionState(read_vector(data), None))
                },
                Some(_) => {
                    if data.len() < 14 {
                        return Err(CodecError::Truncated);
                    }
                    let v = read_vector(data);
                    if data[13] == 0 {
                        Ok(Command::SendMotionState(v, Some(false)))
                    } else if data[13] == 1 {
                        Ok(Command::SendMotionState(v, Some(true)))
                    } else {
                        Err(CodecError::InvalidBoolean)
                    }
                },
            },
        }
    }
}

/// Law: the raw encoding of a command never exceeds 14 bytes and always
/// starts with the command's tag.
pub proof fn lemma_encode_shape(c: Command)
    ensures
        1 <= spec_encode(c).len() <= 14,
        spec_encode(c)[0] == spec_command_tag(c),
{
}

/// Law: round trip. Decoding the encoding of any command well formed for
/// `rev` yields the command again, bit-exactly.
pub proof fn lemma_round_trip(rev: Revision, c: Command)
    requires
        c.wf(rev),
    ensures
        spec_decode(rev, spec_encode(c)) == Ok::<Command, CodecError>(c),
{
    lemma_motor_tag_exhaustive();
    match c {
        Command::SendMotionState(v, armed) => {
            let data = spec_encode(c);
            assert(data[0] == 21);
            assert forall|i: int| 0 <= i < 4 implies data[1 + i] == spec_be_bytes(v.x_bits)[i]
                && data[5 + i] == spec_be_bytes(v.y_bits)[i] && data[9 + i] == spec_be_bytes(
                v.z_bits,
            )[i] by {}
            lemma_be_round_trip(v.x_bits);
            lemma_be_round_trip(v.y_bits);
            lemma_be_round_trip(v.z_bits);
            assert(spec_vector_of(data) == v);
        },
        _ => {},
    }
}

/// Law: command-tag exhaustiveness at the buffer level. A nonempty
/// buffer fails with `InvalidCommandTag` exactly when its first byte is
/// outside the five command tags, and a successful decode yields a
/// command bearing that first byte as its tag, well formed for `rev`.
pub proof fn lemma_decode_tag(rev: Revision, data: Seq<u8>)
    requires
        data.len() > 0,
    ensures
        spec_decode(rev, data) == Err::<Command, CodecError>(CodecError::InvalidCommandTag) <==> !(
        data[0] == 1 || data[0] == 10 || data[0] == 11 || data[0] == 20 || data[0] == 21),
        spec_decode(rev, data) matches Ok(c) ==> spec_command_tag(c) == data[0] && c.wf(rev),
{
}

/// Law: truncation. An empty buffer is truncated; a buffer whose first
/// byte names a shape fails with `Truncated` exactly when it is shorter
/// than that shape requires.
pub proof fn lemma_truncation(rev: Revision, data: Seq<u8>)
    ensures
        data.len() == 0 ==> spec_decode(rev, data) == Err::<Command, CodecError>(
            CodecError::Truncated,
        ),
        data.len() > 0 && spec_command_from_tag(rev, data[0]) is Ok ==> (spec_decode(rev, data)
            == Err::<Command, CodecError>(CodecError::Truncated) <==> data.len() < spec_wire_len(
            rev,
            data[0],
        )),
{
}

/// Law: armed-byte validation. Under revision 2, a full-length motion
/// report decodes by its 14th byte: 0 gives `armed == false`, 1 gives
/// `armed == true`, and anything else fails with `InvalidBoolean`.
pub proof fn lemma_armed_validation(data: Seq<u8>)
    requires
        data.len() >= 14,
        data[0] == 21,
    ensures
        data[13] == 0 ==> spec_decode(Revision::Rev2, data) == Ok::<Command, CodecError>(
            Command::SendMotionState(spec_vector_of(data), Some(false)),
        ),
        data[13] == 1 ==> spec_decode(Revision::Rev2, data) == Ok::<Command, CodecError>(
            Command::SendMotionState(spec_vector_of(data), Some(true)),
        ),
        data[13] >= 2 ==> spec_decode(Revision::Rev2, data) == Err::<Command, CodecError>(
            CodecError::InvalidBoolean,
        ),
{
}

} // verus!

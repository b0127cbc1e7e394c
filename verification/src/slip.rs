use vstd::prelude::*;

use crate::buffer::hvec_as_slice;
use crate::buffer::hvec_bytes;
use crate::buffer::hvec_clear;
use crate::buffer::hvec_push;
use crate::codec::lemma_encode_shape;
use crate::codec::lemma_round_trip;
use crate::codec::spec_decode;
use crate::codec::spec_encode;
use crate::types::Command;
use crate::types::CodecError;
use crate::types::Revision;

verus! {

/// The delimited, escaped frame the framing collaborator produces for a
/// raw byte sequence. Which delimiter and escape bytes it uses is its
/// own affair: the codec states nothing about them.
pub uninterp spec fn slip_frame_of(raw: Seq<u8>) -> Seq<u8>;

/// The raw byte sequence the framing collaborator recovers from a
/// frame, `None` where it rejects the frame as malformed.
pub uninterp spec fn slip_unframe_of(framed: Seq<u8>) -> Option<Seq<u8>>;

/// Relies on slip_codec::SlipEncoder::encode: stuffs and delimits `raw`
/// as one frame, a function of the bytes alone; writing into a `Vec`
/// sink cannot fail. Each input byte becomes at most two frame bytes
/// between one leading and one closing delimiter, and the crate's
/// decoder recovers exactly `raw` from the produced frame whenever
/// `raw` is nonempty.
#[verifier::external_body]
fn slip_encode_raw(raw: &[u8]) -> (r: Vec<u8>)
    ensures
        r@ == slip_frame_of(raw@),
        r@.len() <= 2 * raw@.len() + 2,
        raw@.len() > 0 ==> slip_unframe_of(r@) == Some(raw@),
{
    let mut framed: Vec<u8> = Vec::new();
    let mut encoder = slip_codec::SlipEncoder::new(true);
    let _ = encoder.encode(raw, &mut framed);
    framed
}

/// Relies on slip_codec::SlipDecoder::decode: recovers the raw bytes of
/// one frame, a function of the bytes alone, or rejects the frame as
/// malformed.
#[verifier::external_body]
fn slip_decode_raw(framed: &[u8]) -> (r: Option<Vec<u8>>)
    ensures
        match r {
            Some(raw) => slip_unframe_of(framed@) == Some(raw@),
            None => slip_unframe_of(framed@) is None,
        },
{
    let mut raw: Vec<u8> = Vec::new();
    let mut source: &[u8] = framed;
    let mut decoder = slip_codec::SlipDecoder::new();
    match decoder.decode(&mut source, &mut raw) {
        Ok(_) => Some(raw),
        Err(_) => None,
    }
}

/// The command a delimited frame denotes under `rev`: what the raw
/// bytes recovered from the frame decode to, or `FramingError` where
/// the framing collaborator rejects the frame.
pub open spec fn spec_from_slip(rev: Revision, framed: Seq<u8>) -> Result<Command, CodecError> {
    match slip_unframe_of(framed) {
        Some(raw) => spec_decode(rev, raw),
        None => Err(CodecError::FramingError),
    }
}

impl Command {
    /// Encodes this command and hands the raw bytes to the framing
    /// collaborator, leaving the delimited, escaped frame in `output`
    /// (cleared first) and returning the frame's length. The raw
    /// encoding is at most 14 bytes and its frame at most 30, so the
    /// 32-byte output always holds it and the call always succeeds.
    pub fn to_slip(self, output: &mut heapless::Vec<u8, 32>) -> (r: Result<usize, CodecError>)
        ensures
            hvec_bytes(*final(output)) == slip_frame_of(spec_encode(self)),
            slip_unframe_of(hvec_bytes(*final(output))) == Some(spec_encode(self)),
            r matches Ok(n) && n == slip_frame_of(spec_encode(self)).len(),
    {
        proof {
            lemma_encode_shape(self);
        }
        let raw = self.to_bytes();
        let framed = slip_encode_raw(raw.as_slice());
        hvec_clear(output);
        let mut i: usize = 0;
        while i < framed.len()
            invariant
                i <= framed@.len(),
                framed@.len() <= 30,
                hvec_bytes(*output) == framed@.subrange(0, i as int),
            decreases framed@.len() - i,
        {
            let _ = hvec_push(output, framed[i]);
            i = i + 1;
            proof {
                assert(hvec_bytes(*output) =~= framed@.subrange(0, i as int));
            }
        }
        assert(hvec_bytes(*output) =~= framed@);
        Ok(framed.len())
    }

    /// Hands a delimited frame to the framing collaborator and decodes
    /// the raw bytes it recovers under `rev`; a frame the collaborator
    /// rejects surfaces unchanged as `FramingError`.
    pub fn from_slip(rev: Revision, input: &heapless::Vec<u8, 32>) -> (r: Result<
        Command,
        CodecError,
    >)
        ensures
            r == spec_from_slip(rev, hvec_bytes(*input)),
            r matches Ok(c) ==> c.wf(rev),
    {
        let framed = hvec_as_slice(input);
        match slip_decode_raw(framed) {
            Some(raw) => Command::from_byte_array(rev, raw.as_slice()),
            None => Err(CodecError::FramingError),
        }
    }
}

/// Law: frame boundary. Whatever escaping and delimiting the framing
/// collaborator uses, any frame from which it recovers the raw encoding
/// of a command well formed for `rev` decodes to exactly that command.
pub proof fn lemma_frame_round_trip(rev: Revision, c: Command, framed: Seq<u8>)
    requires
        c.wf(rev),
        slip_unframe_of(framed) == Some(spec_encode(c)),
    ensures
        spec_from_slip(rev, framed) == Ok::<Command, CodecError>(c),
{
    lemma_round_trip(rev, c);
}

} // verus!

//! The APDU codec: framing a command, decoding an answer.

use vstd::prelude::*;
use crate::error::APDUAnswerError;

verus! {

/// The value that two bytes spell as a big-endian 16-bit integer.
pub open spec fn be16(hi: u8, lo: u8) -> int {
    hi * 256 + lo
}

/// An APDU command.
#[derive(Debug, Clone)]
pub struct APDUCommand {
    /// APDU class.
    ///
    /// An incorrect APDU class will prevent you from communicating with the device.
    pub cla: u8,
    /// APDU instruction.
    pub ins: u8,
    /// First parameter of the instruction.
    pub p1: u8,
    /// Second parameter of the instruction.
    pub p2: u8,
    /// Payload of the instruction; can be empty. The one-byte length field of
    /// the wire layout caps it at 255 bytes, a hard protocol limit.
    pub data: Vec<u8>,
}

/// Byte layout of a serialized command:
/// class, instruction, both parameters, the payload length, then the payload.
pub open spec fn spec_serialize(cla: u8, ins: u8, p1: u8, p2: u8, data: Seq<u8>) -> Seq<u8> {
    seq![cla, ins, p1, p2, data.len() as u8] + data
}

impl APDUCommand {
    /// Serialize this [`APDUCommand`] to be sent to the device.
    ///
    /// The payload must fit the one-byte length field; a caller that cannot
    /// guarantee that uses [`crate::transport::command_reports`], which
    /// rejects an over-long payload with an explicit error.
    pub fn serialize(&self) -> (r: Vec<u8>)
        requires
            self.data@.len() <= 255,
        ensures
            r@ == spec_serialize(self.cla, self.ins, self.p1, self.p2, self.data@),
    {
        let mut v: Vec<u8> = Vec::new();
        v.push(self.cla);
        v.push(self.ins);
        v.push(self.p1);
        v.push(self.p2);
        v.push(self.data.len() as u8);
        let mut i: usize = 0;
        while i < self.data.len()
            invariant
                i <= self.data@.len(),
                self.data@.len() <= 255,
                v@ == seq![self.cla, self.ins, self.p1, self.p2, self.data@.len() as u8]
                    + self.data@.take(i as int),
            decreases self.data@.len() - i,
        {
            v.push(self.data[i]);
            assert(self.data@.take(i + 1) == self.data@.take(i as int).push(self.data@[i as int]));
            i = i + 1;
        }
        assert(self.data@.take(self.data@.len() as int) == self.data@);
        v
    }
}

/// Law: codec round trip. For any class, instruction, parameters and payload
/// of 0 to 255 bytes, re-reading the serialized bytes recovers every field:
/// the first five bytes are the class, instruction, both parameters and the
/// payload length, and the bytes after them are exactly the payload.
pub proof fn lemma_serialize_round_trip(cla: u8, ins: u8, p1: u8, p2: u8, data: Seq<u8>)
    requires
        data.len() <= 255,
    ensures
        ({
            let bytes = spec_serialize(cla, ins, p1, p2, data);
            &&& bytes.len() == 5 + data.len()
            &&& bytes[0] == cla
            &&& bytes[1] == ins
            &&& bytes[2] == p1
            &&& bytes[3] == p2
            &&& bytes[4] == data.len() as u8
            &&& bytes[4] as int == data.len()
            &&& bytes.skip(5) == data
        }),
{
    assert(spec_serialize(cla, ins, p1, p2, data).skip(5) =~= data);
}

/// An APDU answer, whose last 2 bytes are interpreted as `retcode`.
#[derive(Debug)]
pub struct APDUAnswer {
    /// The raw answer bytes, status code included.
    pub data: Vec<u8>,
    /// The big-endian 16-bit status code read from the last two bytes.
    pub retcode: u16,
}

impl APDUAnswer {
    /// Attempt to interpret the given bytes as an APDU answer.
    ///
    /// Any byte sequence of at least 2 bytes is a candidate answer: the last
    /// two bytes are the status, everything before is the payload. Anything
    /// shorter is rejected as [`APDUAnswerError::TooShort`].
    pub fn from_answer(answer: Vec<u8>) -> (r: Result<APDUAnswer, APDUAnswerError>)
        ensures
            answer@.len() < 2 ==> r == Err::<APDUAnswer, APDUAnswerError>(APDUAnswerError::TooShort),
            answer@.len() >= 2 ==> (r matches Ok(a)
                && a.data@ == answer@
                && a.retcode == be16(answer@[answer@.len() - 2], answer@[answer@.len() - 1])),
    {
        if answer.len() < 2 {
            return Err(APDUAnswerError::TooShort);
        }
        let n = answer.len();
        let retcode: u16 = (answer[n - 2] as u16) * 256 + (answer[n - 1] as u16);
        Ok(APDUAnswer { data: answer, retcode })
    }

    /// The answer's payload: everything before the two status bytes.
    pub fn apdu_data(&self) -> (r: &[u8])
        requires
            self.data@.len() >= 2,
        ensures
            r@ == self.data@.take(self.data@.len() - 2),
    {
        &self.data.as_slice()[0..self.data.len() - 2]
    }

    /// The raw status code.
    pub fn retcode(&self) -> (r: u16)
        ensures
            r == self.retcode,
    {
        self.retcode
    }
}

} // verus!

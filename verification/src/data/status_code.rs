use crate::data::{round_trips, Decode, DecodeError, Decoder, Encode, Encoder, EncoderFull};
use vstd::prelude::*;

verus! {

/// The controller's one-byte verdict on a command; zero is success.
#[derive(Debug, Clone, Copy)]
pub struct StatusCode(pub u8);

/// A status other than success. The code it carries is never zero where
/// it comes from [`StatusCode::check`].
#[derive(Debug, Clone, Copy)]
pub struct StatusError(pub u8);

impl Encode for StatusCode {
    open spec fn wire(&self) -> Seq<u8> {
        seq![self.0]
    }

    fn encode<E: Encoder>(&self, e: &mut E) -> (r: Result<(), EncoderFull>)
        ensures
            r is Err ==> final(e).written() == old(e).written(),
    {
        self.0.encode(e)
    }
}

impl Decode for StatusCode {
    open spec fn parse(input: Seq<u8>) -> Result<(Self, nat), DecodeError> {
        if input.len() >= 1 {
            Ok((StatusCode(input[0]), 1))
        } else {
            Err(DecodeError::Empty)
        }
    }

    fn decode<D: Decoder>(d: &mut D) -> (r: Result<Self, DecodeError>)
        ensures
            r is Err ==> final(d).remaining() == old(d).remaining(),
    {
        match u8::decode(d) {
            Ok(v) => Ok(StatusCode(v)),
            Err(e) => Err(e),
        }
    }
}

impl StatusCode {
    /// Whether the status is success.
    pub fn is_successful(self) -> (b: bool)
        ensures
            b == (self.0 == 0),
    {
        self.0 == 0x00
    }

    /// `Ok` for success; otherwise the code, as an error.
    pub fn check(self) -> (r: Result<(), StatusError>)
        ensures
            match r {
                Ok(()) => self.0 == 0,
                Err(e) => self.0 != 0 && e.0 == self.0,
            },
    {
        if self.0 == 0 {
            Ok(())
        } else {
            Err(StatusError(self.0))
        }
    }
}

/// A status code is read back from its wire form.
pub proof fn lemma_status_code_round_trips(v: StatusCode, rest: Seq<u8>)
    ensures
        round_trips(v, rest),
{
}

} // verus!

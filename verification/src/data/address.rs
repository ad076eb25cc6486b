use crate::data::{
    array_of, lemma_array_of_view, round_trips, Decode, DecodeError, Decoder, Encode, Encoder,
    EncoderFull,
};
use vstd::prelude::*;

verus! {

/// A six-byte device address, in wire order.
pub struct Address(pub [u8; 6]);

impl Encode for Address {
    open spec fn wire(&self) -> Seq<u8> {
        self.0@
    }

    fn encode<E: Encoder>(&self, e: &mut E) -> (r: Result<(), EncoderFull>)
        ensures
            r is Err ==> final(e).written() == old(e).written(),
    {
        self.0.encode(e)
    }
}

impl Decode for Address {
    open spec fn parse(input: Seq<u8>) -> Result<(Self, nat), DecodeError> {
        if input.len() >= 6 {
            Ok((Address(array_of::<6>(input.take(6))), 6))
        } else {
            Err(DecodeError::Empty)
        }
    }

    fn decode<D: Decoder>(d: &mut D) -> (r: Result<Self, DecodeError>)
        ensures
            r is Err ==> final(d).remaining() == old(d).remaining(),
    {
        match <[u8; 6]>::decode(d) {
            Ok(bytes) => Ok(Address(bytes)),
            Err(e) => Err(e),
        }
    }
}

/// An address is read back from its wire form.
pub proof fn lemma_address_round_trips(v: Address, rest: Seq<u8>)
    ensures
        round_trips(v, rest),
{
    assert((v.wire() + rest).take(6) =~= v.0@);
    lemma_array_of_view(v.0);
}

} // verus!

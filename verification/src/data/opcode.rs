use crate::data::{le_value, Decode, DecodeError, Decoder};
use vstd::prelude::*;

verus! {

/// Opcode group field: the six high bits of an opcode.
#[derive(Debug, Clone, Copy, PartialEq, Eq, Structural)]
pub struct Ogf(pub u8);

/// The group of the controller and baseband commands.
pub const CONTROLLER_BASEBAND: u8 = 0x03;

/// The group of the LE controller commands.
pub const LE_CONTROLLER: u8 = 0x08;

/// A command's 16-bit identifier: group in the six high bits, command in the ten low bits.
#[derive(Debug, Clone, Copy, PartialEq, Eq, Structural)]
pub struct Opcode(pub u16);

impl Opcode {
    /// The opcode of command `ocf` in group `ogf`.
    pub open spec fn packed(ogf: Ogf, ocf: u16) -> Opcode {
        Opcode(((ogf.0 as u16) << 10) | ocf)
    }

    /// Packs a group and a command field into an opcode.
    pub fn new(ogf: Ogf, ocf: u16) -> (r: Opcode)
        ensures
            r == Self::packed(ogf, ocf),
    {
        Opcode(((ogf.0 as u16) << 10) | ocf)
    }

    /// For a group of at most six bits and a command field of at most ten,
    /// the packed opcode is `ogf * 1024 + ocf`, and both fields can be read
    /// back from it.
    pub proof fn lemma_packed_fields(ogf: Ogf, ocf: u16)
        requires
            ogf.0 <= 63,
            ocf <= 1023,
        ensures
            Self::packed(ogf, ocf).0 == ogf.0 * 1024 + ocf,
            Self::packed(ogf, ocf).0 >> 10 == ogf.0,
            Self::packed(ogf, ocf).0 & 0x3ff == ocf,
    {
        let g = ogf.0;
        assert((((g as u16) << 10) | ocf) == g * 1024 + ocf && (((g as u16) << 10) | ocf) >> 10 == g
            && (((g as u16) << 10) | ocf) & 0x3ff == ocf) by (bit_vector)
            requires
                g <= 63,
                ocf <= 1023,
        ;
    }
}

impl Decode for Opcode {
    open spec fn parse(input: Seq<u8>) -> Result<(Self, nat), DecodeError> {
        if input.len() >= 2 {
            Ok((Opcode(le_value(input.take(2)) as u16), 2))
        } else {
            Err(DecodeError::Empty)
        }
    }

    fn decode<D: Decoder>(d: &mut D) -> (r: Result<Self, DecodeError>)
        ensures
            r is Err ==> final(d).remaining() == old(d).remaining(),
    {
        match u16::decode(d) {
            Ok(v) => Ok(Opcode(v)),
            Err(e) => Err(e),
        }
    }
}

} // verus!

use crate::command::CommandParameters;
use crate::data::opcode::{Ogf, Opcode, CONTROLLER_BASEBAND};
use crate::data::{le_bytes, lemma_le_bytes_len, Encode, Encoder, EncoderFull};
use crate::data::status_code::StatusCode;
use crate::event::command_complete::CommandWithCompleteEvent;
use vstd::prelude::*;

verus! {

/// Selects which events the controller reports: one bit per event.
pub struct SetEventMask {
    pub mask: u64,
}

impl Encode for SetEventMask {
    open spec fn wire(&self) -> Seq<u8> {
        le_bytes(self.mask as nat, 8)
    }

    fn encode<E: Encoder>(&self, e: &mut E) -> (r: Result<(), EncoderFull>)
        ensures
            r is Err ==> final(e).written() == old(e).written(),
    {
        self.mask.encode(e)
    }
}

impl SetEventMask {
    /// The parameters take 8 bytes, so the command fits in a frame.
    pub proof fn lemma_wire_len(&self)
        ensures
            self.wire().len() == 8,
    {
        lemma_le_bytes_len(self.mask as nat, 8);
    }
}

impl CommandParameters for SetEventMask {
    open spec fn command_opcode() -> Opcode {
        Opcode::packed(Ogf(CONTROLLER_BASEBAND), 0x0001)
    }

    fn assigned_opcode() -> (r: Opcode) {
        Opcode::new(Ogf(CONTROLLER_BASEBAND), 0x0001)
    }
}

impl CommandWithCompleteEvent for SetEventMask {
    type ReturnParameters = StatusCode;
}

} // verus!

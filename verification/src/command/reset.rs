use crate::command::CommandParameters;
use crate::data::opcode::{Ogf, Opcode, CONTROLLER_BASEBAND};
use crate::data::{Encode, Encoder, EncoderFull};
use crate::data::status_code::StatusCode;
use crate::event::command_complete::CommandWithCompleteEvent;
use vstd::prelude::*;

verus! {

/// Resets the controller. It has no parameters.
pub struct Reset {}

impl Encode for Reset {
    open spec fn wire(&self) -> Seq<u8> {
        Seq::empty()
    }

    fn encode<E: Encoder>(&self, e: &mut E) -> (r: Result<(), EncoderFull>)
        ensures
            r is Err ==> final(e).written() == old(e).written(),
    {
        proof {
            e.lemma_within_capacity();
        }
        Ok(())
    }
}

impl Reset {
    /// The parameters take 0 bytes, so the command fits in a frame.
    pub proof fn lemma_wire_len(&self)
        ensures
            self.wire().len() == 0,
    {
    }
}

impl CommandParameters for Reset {
    open spec fn command_opcode() -> Opcode {
        Opcode::packed(Ogf(CONTROLLER_BASEBAND), 0x0003)
    }

    fn assigned_opcode() -> (r: Opcode) {
        Opcode::new(Ogf(CONTROLLER_BASEBAND), 0x0003)
    }
}

impl CommandWithCompleteEvent for Reset {
    type ReturnParameters = StatusCode;
}

} // verus!

use crate::command::CommandParameters;
use crate::data::opcode::{Ogf, Opcode, LE_CONTROLLER};
use crate::data::{Encode, Encoder, EncoderFull};
use crate::data::status_code::StatusCode;
use crate::event::command_complete::CommandWithCompleteEvent;
use vstd::prelude::*;

verus! {

/// Starts or stops scanning.
#[derive(Debug)]
pub struct LeSetScanEnable {
    pub le_scan_enable: u8,
    pub filter_duplicates: u8,
}

impl Encode for LeSetScanEnable {
    open spec fn wire(&self) -> Seq<u8> {
        seq![self.le_scan_enable, self.filter_duplicates]
    }

    fn encode<E: Encoder>(&self, e: &mut E) -> (r: Result<(), EncoderFull>) {
        self.le_scan_enable.encode(e)?;
        self.filter_duplicates.encode(e)?;
        Ok(())
    }
}

impl LeSetScanEnable {
    /// The parameters take 2 bytes, so the command fits in a frame.
    pub proof fn lemma_wire_len(&self)
        ensures
            self.wire().len() == 2,
    {
    }
}

impl CommandParameters for LeSetScanEnable {
    open spec fn command_opcode() -> Opcode {
        Opcode::packed(Ogf(LE_CONTROLLER), 0x000C)
    }

    fn assigned_opcode() -> (r: Opcode) {
        Opcode::new(Ogf(LE_CONTROLLER), 0x000C)
    }
}

impl CommandWithCompleteEvent for LeSetScanEnable {
    type ReturnParameters = StatusCode;
}

} // verus!

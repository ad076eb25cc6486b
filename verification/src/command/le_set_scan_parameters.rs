use crate::command::CommandParameters;
use crate::data::opcode::{Ogf, Opcode, LE_CONTROLLER};
use crate::data::{le_bytes, lemma_le_bytes_len, Encode, Encoder, EncoderFull};
use crate::data::status_code::StatusCode;
use crate::event::command_complete::CommandWithCompleteEvent;
use vstd::prelude::*;

verus! {

/// Sets how the controller scans: the kind of scan, its timing, the address
/// it scans under, and what it lets through.
#[derive(Debug)]
pub struct LeSetScanParameters {
    pub le_scan_type: u8,
    pub le_scan_interval: u16,
    pub le_scan_window: u16,
    pub own_address_type: u8,
    pub scanning_filter_policy: u8,
}

impl Encode for LeSetScanParameters {
    open spec fn wire(&self) -> Seq<u8> {
        seq![self.le_scan_type] + le_bytes(self.le_scan_interval as nat, 2) + le_bytes(
            self.le_scan_window as nat,
            2,
        ) + seq![self.own_address_type, self.scanning_filter_policy]
    }

    fn encode<E: Encoder>(&self, e: &mut E) -> (r: Result<(), EncoderFull>) {
        proof {
            lemma_le_bytes_len(self.le_scan_interval as nat, 2);
            lemma_le_bytes_len(self.le_scan_window as nat, 2);
        }
        self.le_scan_type.encode(e)?;
        self.le_scan_interval.encode(e)?;
        self.le_scan_window.encode(e)?;
        self.own_address_type.encode(e)?;
        self.scanning_filter_policy.encode(e)?;
        Ok(())
    }
}

impl LeSetScanParameters {
    /// The parameters take 7 bytes, so the command fits in a frame.
    pub proof fn lemma_wire_len(&self)
        ensures
            self.wire().len() == 7,
    {
        lemma_le_bytes_len(self.le_scan_interval as nat, 2);
        lemma_le_bytes_len(self.le_scan_window as nat, 2);
    }
}

impl CommandParameters for LeSetScanParameters {
    open spec fn command_opcode() -> Opcode {
        Opcode::packed(Ogf(LE_CONTROLLER), 0x000B)
    }

    fn assigned_opcode() -> (r: Opcode) {
        Opcode::new(Ogf(LE_CONTROLLER), 0x000B)
    }
}

impl CommandWithCompleteEvent for LeSetScanParameters {
    type ReturnParameters = StatusCode;
}

} // verus!

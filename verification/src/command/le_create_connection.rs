use crate::command::CommandParameters;
use crate::data::address::Address;
use crate::data::opcode::{Ogf, Opcode, LE_CONTROLLER};
use crate::data::{le_bytes, lemma_le_bytes_len, Encode, Encoder, EncoderFull};
use crate::event::command_status::CommandWithStatusEvent;
use vstd::prelude::*;

verus! {

/// Asks the controller to connect to a peer.
pub struct LeCreateConnection {
    pub le_scan_interval: u16,
    pub le_scan_window: u16,
    pub initiator_filter_policy: u8,
    pub peer_address_type: u8,
    pub peer_address: Address,
    pub own_address_type: u8,
    pub connection_interval_min: u16,
    pub connection_interval_max: u16,
    pub max_latency: u16,
    pub supervision_timeout: u16,
    pub min_ce_length: u16,
    pub max_ce_length: u16,
}

impl Encode for LeCreateConnection {
    open spec fn wire(&self) -> Seq<u8> {
        le_bytes(self.le_scan_interval as nat, 2) + le_bytes(self.le_scan_window as nat, 2)
            + seq![self.initiator_filter_policy, self.peer_address_type] + self.peer_address.0@
            + seq![self.own_address_type] + le_bytes(self.connection_interval_min as nat, 2)
            + le_bytes(self.connection_interval_max as nat, 2) + le_bytes(
            self.max_latency as nat,
            2,
        ) + le_bytes(self.supervision_timeout as nat, 2) + le_bytes(self.min_ce_length as nat, 2)
            + le_bytes(self.max_ce_length as nat, 2)
    }

    fn encode<E: Encoder>(&self, e: &mut E) -> (r: Result<(), EncoderFull>) {
        proof {
            lemma_le_bytes_len(self.le_scan_interval as nat, 2);
            lemma_le_bytes_len(self.le_scan_window as nat, 2);
            lemma_le_bytes_len(self.connection_interval_min as nat, 2);
            lemma_le_bytes_len(self.connection_interval_max as nat, 2);
            lemma_le_bytes_len(self.max_latency as nat, 2);
            lemma_le_bytes_len(self.supervision_timeout as nat, 2);
            lemma_le_bytes_len(self.min_ce_length as nat, 2);
            lemma_le_bytes_len(self.max_ce_length as nat, 2);
        }
        self.le_scan_interval.encode(e)?;
        self.le_scan_window.encode(e)?;
        self.initiator_filter_policy.encode(e)?;
        self.peer_address_type.encode(e)?;
        self.peer_address.encode(e)?;
        self.own_address_type.encode(e)?;
        self.connection_interval_min.encode(e)?;
        self.connection_interval_max.encode(e)?;
        self.max_latency.encode(e)?;
        self.supervision_timeout.encode(e)?;
        self.min_ce_length.encode(e)?;
        self.max_ce_length.encode(e)?;
        Ok(())
    }
}

impl LeCreateConnection {
    /// The parameters take 25 bytes, so the command fits in a frame.
    pub proof fn lemma_wire_len(&self)
        ensures
            self.wire().len() == 25,
    {
        lemma_le_bytes_len(self.le_scan_interval as nat, 2);
        lemma_le_bytes_len(self.le_scan_window as nat, 2);
        lemma_le_bytes_len(self.connection_interval_min as nat, 2);
        lemma_le_bytes_len(self.connection_interval_max as nat, 2);
        lemma_le_bytes_len(self.max_latency as nat, 2);
        lemma_le_bytes_len(self.supervision_timeout as nat, 2);
        lemma_le_bytes_len(self.min_ce_length as nat, 2);
        lemma_le_bytes_len(self.max_ce_length as nat, 2);
    }
}

impl CommandParameters for LeCreateConnection {
    open spec fn command_opcode() -> Opcode {
        Opcode::packed(Ogf(LE_CONTROLLER), 0x000D)
    }

    fn assigned_opcode() -> (r: Opcode) {
        Opcode::new(Ogf(LE_CONTROLLER), 0x000D)
    }
}

impl CommandWithStatusEvent for LeCreateConnection {

}

} // verus!

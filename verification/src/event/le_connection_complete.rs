use crate::data::address::Address;
use crate::data::status_code::StatusCode;
use crate::data::{array_of, le_value, Decode, DecodeError, Decoder, MaybeDecode};
use crate::event::{EventCode, EventParameters, LE_META};
use vstd::prelude::*;

verus! {

/// The LE event inside an LE Meta Event that reports a finished connection attempt.
pub const LE_CONNECTION_COMPLETE: u8 = 0x01;

/// A connection attempt has finished.
pub struct LeConnectionComplete {
    pub status: StatusCode,
    pub connection_handle: u16,
    pub role: u8,
    pub peer_address_type: u8,
    pub peer_address: Address,
    pub connection_interval: u16,
    pub peripheral_latency: u16,
    pub supervision_timeout: u16,
    pub central_clock_accuracy: u8,
}

impl MaybeDecode for LeConnectionComplete {
    /// The first byte names the LE event. Where it names this one, the
    /// eighteen bytes after it are the fields, in order, integers
    /// little-endian.
    open spec fn parse_maybe(input: Seq<u8>) -> Result<Option<(Self, nat)>, DecodeError> {
        if input.len() < 1 {
            Err(DecodeError::Empty)
        } else if input[0] != LE_CONNECTION_COMPLETE {
            Ok(None)
        } else if input.len() < 19 {
            Err(DecodeError::Empty)
        } else {
            Ok(
                Some(
                    (
                        LeConnectionComplete {
                            status: StatusCode(input[1]),
                            connection_handle: le_value(input.subrange(2, 4)) as u16,
                            role: input[4],
                            peer_address_type: input[5],
                            peer_address: Address(array_of::<6>(input.subrange(6, 12))),
                            connection_interval: le_value(input.subrange(12, 14)) as u16,
                            peripheral_latency: le_value(input.subrange(14, 16)) as u16,
                            supervision_timeout: le_value(input.subrange(16, 18)) as u16,
                            central_clock_accuracy: input[18],
                        },
                        19,
                    ),
                ),
            )
        }
    }

    fn maybe_decode<D: Decoder>(d: &mut D) -> (r: Result<Option<Self>, DecodeError>) {
        let ghost input = d.remaining();
        let subevent = u8::decode(d)?;
        if subevent != LE_CONNECTION_COMPLETE {
            return Ok(None);
        }
        let status = StatusCode::decode(d)?;
        assert(d.remaining() =~= input.skip(2));
        let connection_handle = u16::decode(d)?;
        assert(d.remaining() =~= input.skip(4));
        assert(input.skip(2).take(2) =~= input.subrange(2, 4));
        let role = u8::decode(d)?;
        let peer_address_type = u8::decode(d)?;
        assert(d.remaining() =~= input.skip(6));
        let peer_address = Address::decode(d)?;
        assert(d.remaining() =~= input.skip(12));
        assert(input.skip(6).take(6) =~= input.subrange(6, 12));
        let connection_interval = u16::decode(d)?;
        assert(d.remaining() =~= input.skip(14));
        assert(input.skip(12).take(2) =~= input.subrange(12, 14));
        let peripheral_latency = u16::decode(d)?;
        assert(d.remaining() =~= input.skip(16));
        assert(input.skip(14).take(2) =~= input.subrange(14, 16));
        let supervision_timeout = u16::decode(d)?;
        assert(d.remaining() =~= input.skip(18));
        assert(input.skip(16).take(2) =~= input.subrange(16, 18));
        let central_clock_accuracy = u8::decode(d)?;
        assert(d.remaining() =~= input.skip(19));
        Ok(
            Some(
                LeConnectionComplete {
                    status,
                    connection_handle,
                    role,
                    peer_address_type,
                    peer_address,
                    connection_interval,
                    peripheral_latency,
                    supervision_timeout,
                    central_clock_accuracy,
                },
            ),
        )
    }
}

impl EventParameters for LeConnectionComplete {
    open spec fn event_code() -> EventCode {
        EventCode(LE_META)
    }

    fn assigned_code() -> (r: EventCode) {
        EventCode(LE_META)
    }
}

} // verus!

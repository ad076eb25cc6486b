//! Events: what the controller reports to the host.

use crate::data::{Buffer, DecodeError, MaybeDecode};
use vstd::prelude::*;

pub mod command_complete;
pub mod command_status;
pub mod le_advertising_report;
pub mod le_connection_complete;

verus! {

/// The one-byte kind of an event.
#[derive(Debug, Clone, Copy, PartialEq, Eq, Structural)]
pub struct EventCode(pub u8);

/// Command Complete: a command has run, and here is what it returned.
pub const COMMAND_COMPLETE: u8 = 0x0E;

/// Command Status: a command was received, and work on it has begun or failed.
pub const COMMAND_STATUS: u8 = 0x0F;

/// LE Meta Event: the first parameter byte names the LE event inside.
pub const LE_META: u8 = 0x3E;

/// An event's parameters: they are read from bytes, and the type fixes the event code.
pub trait EventParameters: MaybeDecode {
    /// The code under which this kind of event arrives.
    spec fn event_code() -> EventCode;

    /// The code under which this kind of event arrives.
    fn assigned_code() -> (r: EventCode)
        ensures
            r == Self::event_code(),
    ;
}

/// An event as it came off the wire: its code and its parameter bytes,
/// not yet read as any particular kind of event.
pub struct EncodedEvent {
    pub code: EventCode,
    pub parameters: Buffer<255>,
}

/// An encoded event as contracts see it.
pub struct EventView {
    pub code: EventCode,
    pub parameters: Seq<u8>,
}

impl View for EncodedEvent {
    type V = EventView;

    open spec fn view(&self) -> EventView {
        EventView { code: self.code, parameters: self.parameters@ }
    }
}

impl EventView {
    /// What the frame is when read as an `E`: `None` where the event code,
    /// or what `E` looks at in the parameters, says the frame is no `E`; an
    /// error where it is an `E` that cannot be read.
    pub open spec fn decoded<E: EventParameters>(self) -> Result<Option<E>, DecodeError> {
        if self.code != E::event_code() {
            Ok(None)
        } else {
            match E::parse_maybe(self.parameters) {
                Ok(Some((event, _))) => Ok(Some(event)),
                Ok(None) => Ok(None),
                Err(e) => Err(e),
            }
        }
    }
}

impl EncodedEvent {
    /// An encoded event never carries more than 255 parameter bytes.
    pub proof fn lemma_parameters_fit(&self)
        ensures
            self@.parameters.len() <= 255,
    {
        self.parameters.lemma_bounded();
    }

    /// Reads the frame as an `E`. The frame itself is left as it is, so
    /// another kind can be tried on it.
    pub fn decode<E: EventParameters>(&self) -> (r: Result<Option<E>, DecodeError>)
        ensures
            r == self@.decoded::<E>(),
    {
        if self.code != E::assigned_code() {
            return Ok(None);
        }
        let mut cursor: &[u8] = self.parameters.as_slice();
        E::maybe_decode(&mut cursor)
    }
}

} // verus!

use crate::command::{AnyCommand, MatchOpcode};
use crate::data::opcode::Opcode;
use crate::data::{le_value, Decode, DecodeError, Decoder, MaybeDecode};
use crate::engine::CommandReceiptIndicator;
use crate::event::{EventCode, EventParameters, COMMAND_STATUS};
use crate::private::Internal;
use core::marker::PhantomData;
use vstd::prelude::*;

verus! {

/// A command that the controller answers with a Command Status event.
pub trait CommandWithStatusEvent: MatchOpcode {

}

impl CommandWithStatusEvent for AnyCommand {

}

impl<C> Internal for CommandStatus<C> {

}

impl<C: CommandWithStatusEvent> CommandReceiptIndicator<C> for CommandStatus<C> {

}

/// The controller has received a command of kind `C` and says how it stands.
pub struct CommandStatus<C> {
    pub _phantom: PhantomData<C>,
    /// Zero where work on the command has begun.
    pub status: u8,
    /// How many more commands the controller can take now.
    pub num_hci_command_packets: u8,
    /// The opcode of the command in question.
    pub command_opcode: Opcode,
}

impl<C: CommandWithStatusEvent> MaybeDecode for CommandStatus<C> {
    /// One byte of status, one of credit, two of opcode. The envelope must
    /// be there whole; an opcode that is not `C`'s means the event is meant
    /// for another command.
    open spec fn parse_maybe(input: Seq<u8>) -> Result<Option<(Self, nat)>, DecodeError> {
        if input.len() < 4 {
            Err(DecodeError::Empty)
        } else {
            let command_opcode = Opcode(le_value(input.subrange(2, 4)) as u16);
            if !C::matches(command_opcode) {
                Ok(None)
            } else {
                Ok(
                    Some(
                        (
                            CommandStatus {
                                _phantom: PhantomData,
                                status: input[0],
                                num_hci_command_packets: input[1],
                                command_opcode,
                            },
                            4,
                        ),
                    ),
                )
            }
        }
    }

    fn maybe_decode<D: Decoder>(d: &mut D) -> (r: Result<Option<Self>, DecodeError>) {
        let status = u8::decode(d)?;
        let num_hci_command_packets = u8::decode(d)?;
        let command_opcode = Opcode::decode(d)?;
        proof {
            let input = old(d).remaining();
            assert(input.skip(1).skip(1).take(2) =~= input.subrange(2, 4));
            assert(d.remaining() =~= input.skip(4));
        }
        if !C::match_opcode(command_opcode) {
            return Ok(None);
        }
        Ok(
            Some(
                CommandStatus {
                    _phantom: PhantomData,
                    status,
                    num_hci_command_packets,
                    command_opcode,
                },
            ),
        )
    }
}

impl<C: CommandWithStatusEvent> EventParameters for CommandStatus<C> {
    open spec fn event_code() -> EventCode {
        EventCode(COMMAND_STATUS)
    }

    fn assigned_code() -> (r: EventCode) {
        EventCode(COMMAND_STATUS)
    }
}

} // verus!

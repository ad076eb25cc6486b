use crate::command::{AnyCommand, MatchOpcode};
use crate::data::opcode::Opcode;
use crate::data::{le_value, Decode, DecodeError, Decoder, MaybeDecode};
use crate::engine::CommandReceiptIndicator;
use crate::event::{EventCode, EventParameters, EventView, COMMAND_COMPLETE};
use crate::private::Internal;
use vstd::prelude::*;

verus! {

/// A command that the controller answers with a Command Complete event.
pub trait CommandWithCompleteEvent: MatchOpcode {
    /// What the command returns in that event.
    type ReturnParameters: Decode;
}

impl CommandWithCompleteEvent for AnyCommand {
    type ReturnParameters = ();
}

impl<C: CommandWithCompleteEvent> Internal for CommandComplete<C> {

}

impl<C: CommandWithCompleteEvent> CommandReceiptIndicator<C> for CommandComplete<C> {

}

/// The controller has run a command of kind `C`.
pub struct CommandComplete<C: CommandWithCompleteEvent> {
    /// How many more commands the controller can take now.
    pub num_hci_command_packets: u8,
    /// The opcode of the command that has run.
    pub command_opcode: Opcode,
    /// What the command returned.
    pub return_parameters: C::ReturnParameters,
}

impl<C: CommandWithCompleteEvent> MaybeDecode for CommandComplete<C> {
    /// One byte of credit, two of opcode, then the return parameters. The
    /// envelope must be there whole; an opcode that is not `C`'s means the
    /// event is meant for another command; after a match, return
    /// parameters that cannot be read are an error.
    open spec fn parse_maybe(input: Seq<u8>) -> Result<Option<(Self, nat)>, DecodeError> {
        if input.len() < 3 {
            Err(DecodeError::Empty)
        } else {
            let command_opcode = Opcode(le_value(input.subrange(1, 3)) as u16);
            if !C::matches(command_opcode) {
                Ok(None)
            } else {
                match C::ReturnParameters::parse(input.skip(3)) {
                    Ok((return_parameters, n)) => Ok(
                        Some(
                            (
                                CommandComplete {
                                    num_hci_command_packets: input[0],
                                    command_opcode,
                                    return_parameters,
                                },
                                3 + n,
                            ),
                        ),
                    ),
                    Err(e) => Err(e),
                }
            }
        }
    }

    fn maybe_decode<D: Decoder>(d: &mut D) -> (r: Result<Option<Self>, DecodeError>) {
        let num_hci_command_packets = u8::decode(d)?;
        let command_opcode = Opcode::decode(d)?;
        proof {
            let input = old(d).remaining();
            assert(input.skip(1).take(2) =~= input.subrange(1, 3));
            assert(d.remaining() =~= input.skip(3));
        }
        if !C::match_opcode(command_opcode) {
            return Ok(None);
        }
        let return_parameters = C::ReturnParameters::decode(d)?;
        Ok(Some(CommandComplete { num_hci_command_packets, command_opcode, return_parameters }))
    }
}

impl<C: CommandWithCompleteEvent> EventParameters for CommandComplete<C> {
    open spec fn event_code() -> EventCode {
        EventCode(COMMAND_COMPLETE)
    }

    fn assigned_code() -> (r: EventCode) {
        EventCode(COMMAND_COMPLETE)
    }
}

/// The opcode that a Command Complete or Command Status envelope carries
/// in the two bytes from `at` on.
pub open spec fn opcode_at(parameters: Seq<u8>, at: int) -> Opcode {
    Opcode(le_value(parameters.subrange(at, at + 2)) as u16)
}

/// A Command Complete frame is the completion of `C` exactly where the
/// opcode in it is `C`'s. With another opcode it is no match, and no
/// error, whatever else it holds; with `C`'s, it is read to the end, and
/// return parameters that cannot be read are an error.
pub proof fn lemma_completion_correlates<C: CommandWithCompleteEvent>(encoded: EventView)
    requires
        encoded.code == EventCode(COMMAND_COMPLETE),
        encoded.parameters.len() >= 3,
    ensures
        !C::matches(opcode_at(encoded.parameters, 1)) ==> encoded.decoded::<CommandComplete<C>>()
            == Ok::<Option<CommandComplete<C>>, DecodeError>(None),
        C::matches(opcode_at(encoded.parameters, 1)) ==> match C::ReturnParameters::parse(
            encoded.parameters.skip(3),
        ) {
            Ok((returned, _)) => encoded.decoded::<CommandComplete<C>>() == Ok::<
                Option<CommandComplete<C>>,
                DecodeError,
            >(
                Some(
                    CommandComplete {
                        num_hci_command_packets: encoded.parameters[0],
                        command_opcode: opcode_at(encoded.parameters, 1),
                        return_parameters: returned,
                    },
                ),
            ),
            Err(e) => encoded.decoded::<CommandComplete<C>>() == Err::<
                Option<CommandComplete<C>>,
                DecodeError,
            >(e),
        },
{
}

} // verus!

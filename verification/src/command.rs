//! Commands: what the host sends to the controller.

use crate::data::opcode::Opcode;
use crate::data::{Buffer, Encode, EncoderFull};
use vstd::prelude::*;

pub mod le_create_connection;
pub mod le_set_scan_enable;
pub mod le_set_scan_parameters;
pub mod reset;
pub mod set_event_mask;

verus! {

/// The most parameter bytes a command or an event can carry: the length
/// travels in one byte.
pub const MAX_PARAMETERS: usize = 255;

/// Stands for "whichever command": it matches every opcode and has no wire form.
pub struct AnyCommand;

/// A command's parameters: they have a wire form, and the type fixes the opcode.
pub trait CommandParameters: Encode {
    /// The opcode of this kind of command.
    spec fn command_opcode() -> Opcode;

    /// The opcode of this kind of command.
    fn assigned_opcode() -> (r: Opcode)
        ensures
            r == Self::command_opcode(),
    ;
}

/// A command as it goes on the wire: its opcode and its encoded parameters.
pub struct EncodedCommand {
    pub opcode: Opcode,
    pub parameters: Buffer<255>,
}

/// An encoded command as contracts see it.
pub struct CommandView {
    pub opcode: Opcode,
    pub parameters: Seq<u8>,
}

impl View for EncodedCommand {
    type V = CommandView;

    open spec fn view(&self) -> CommandView {
        CommandView { opcode: self.opcode, parameters: self.parameters@ }
    }
}

impl EncodedCommand {
    /// An encoded command never carries more than 255 parameter bytes.
    pub proof fn lemma_parameters_fit(&self)
        ensures
            self@.parameters.len() <= MAX_PARAMETERS,
    {
        self.parameters.lemma_bounded();
    }

    /// Encodes `command`. Fails exactly when its parameters take more than 255 bytes.
    pub fn encode<C: Encode + HasOpcode>(command: C) -> (r: Result<EncodedCommand, EncoderFull>)
        ensures
            match r {
                Ok(encoded) => {
                    &&& command.wire().len() <= MAX_PARAMETERS
                    &&& encoded@ == CommandView {
                        opcode: command.spec_opcode(),
                        parameters: command.wire(),
                    }
                },
                Err(_) => command.wire().len() > MAX_PARAMETERS,
            },
    {
        let opcode = command.opcode();
        let mut parameters = Buffer::<255>::new();
        match command.encode(&mut parameters) {
            Ok(()) => Ok(EncodedCommand { opcode, parameters }),
            Err(e) => Err(e),
        }
    }
}

/// A value that knows the opcode it goes out under.
pub trait HasOpcode {
    /// The opcode the value goes out under.
    spec fn spec_opcode(&self) -> Opcode;

    /// The opcode the value goes out under.
    fn opcode(&self) -> (r: Opcode)
        ensures
            r == self.spec_opcode(),
    ;
}

impl<C: CommandParameters> HasOpcode for C {
    open spec fn spec_opcode(&self) -> Opcode {
        C::command_opcode()
    }

    fn opcode(&self) -> (r: Opcode) {
        C::assigned_opcode()
    }
}

impl HasOpcode for EncodedCommand {
    open spec fn spec_opcode(&self) -> Opcode {
        self.opcode
    }

    fn opcode(&self) -> (r: Opcode) {
        self.opcode
    }
}

/// Decides whether an opcode found in an event belongs to this kind of command.
pub trait MatchOpcode {
    /// Whether `opcode` belongs to this kind of command.
    spec fn matches(opcode: Opcode) -> bool;

    /// Whether `opcode` belongs to this kind of command.
    fn match_opcode(opcode: Opcode) -> (b: bool)
        ensures
            b == Self::matches(opcode),
    ;
}

impl<C: CommandParameters> MatchOpcode for C {
    open spec fn matches(opcode: Opcode) -> bool {
        opcode == C::command_opcode()
    }

    fn match_opcode(opcode: Opcode) -> (b: bool) {
        opcode == C::assigned_opcode()
    }
}

impl MatchOpcode for AnyCommand {
    open spec fn matches(opcode: Opcode) -> bool {
        true
    }

    fn match_opcode(_opcode: Opcode) -> (b: bool) {
        true
    }
}

} // verus!

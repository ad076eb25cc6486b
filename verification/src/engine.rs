//! The flow-control engine.
//!
//! The engine owns no transport. It is told what arrived and answers with
//! what is to be sent: whoever drives it reads the frames, hands them in,
//! and writes out the frames that it hands back.

use crate::command::{
    AnyCommand, CommandParameters, CommandView, EncodedCommand, HasOpcode, MAX_PARAMETERS,
};
use crate::data::{Buffer, DecodeError, Encode, EncoderFull};
use crate::event::command_complete::{CommandComplete, CommandWithCompleteEvent};
use crate::event::command_status::CommandStatus;
use crate::event::{EncodedEvent, EventParameters, EventView, COMMAND_COMPLETE, COMMAND_STATUS};
use crate::frame::{command_frame, MAX_COMMAND_FRAME};
use crate::private::Internal;
use core::marker::PhantomData;
use vstd::prelude::*;

verus! {

/// What can go wrong between the host and the controller, short of the
/// transport's own failures.
#[derive(Debug)]
pub enum BleError {
    /// Nothing can be done right now: no credit to send, or nothing to read yet.
    WouldBlock,
    /// The stream ended inside a frame.
    UnexpectedEof,
    /// A frame other than the awaited one arrived while nothing else was allowed.
    UnexpectedEvent,
    /// A command's parameters do not fit in a frame.
    Encode(EncoderFull),
    /// A frame announced an event that its bytes cannot be.
    Decode(DecodeError),
}

/// A report in an advertising event is cut short or claims more data than
/// a report can carry.
#[derive(Debug)]
pub struct ParseError;

/// The permission to have one command outstanding. There is one per
/// engine; queueing a command takes it, and only the controller's answer
/// to that command gives it back.
#[derive(Debug)]
#[non_exhaustive]
pub struct QueueSlot;

/// What is left of a [`QueueSlot`] while a command of kind `C` is outstanding.
#[derive(Debug)]
pub struct QueueLock<C> {
    _phantom: PhantomData<C>,
    qslot: QueueSlot,
}

/// An event that shows that the controller has taken note of a command of kind `C`.
pub trait CommandReceiptIndicator<C>: Internal {

}

impl<C> QueueLock<C> {
    /// Gives the slot back, on the evidence of `_event`.
    pub fn release_with<E: CommandReceiptIndicator<C>>(self, _event: &E) -> QueueSlot {
        self.qslot
    }
}

/// What to do with a frame that is not the awaited one.
#[derive(Debug, Clone, Copy)]
pub enum PollBehavior {
    /// Give up the wait with `UnexpectedEvent`.
    Strict,
    /// Drop the frame and go on waiting.
    Filter,
}

/// How the wait for a command's completion stands after a frame.
pub enum Completion<C: CommandWithCompleteEvent> {
    /// The command has completed: what it returned, and the slot for the next command.
    Complete(C::ReturnParameters, QueueSlot),
    /// The frame was not the completion; the command is still outstanding.
    Pending(QueueLock<C>),
}

/// What a frame says of the controller's credit: the number it reports,
/// if the frame is a Command Complete or a Command Status; nothing, if it
/// is another event; an error, if it is one of the two and too short for
/// its envelope.
pub open spec fn reported_credit(encoded: EventView) -> Result<Option<u8>, DecodeError> {
    let parameters = encoded.parameters;
    if encoded.code.0 == COMMAND_COMPLETE {
        if parameters.len() < 3 {
            Err(DecodeError::Empty)
        } else {
            Ok(Some(parameters[0]))
        }
    } else if encoded.code.0 == COMMAND_STATUS {
        if parameters.len() < 4 {
            Err(DecodeError::Empty)
        } else {
            Ok(Some(parameters[1]))
        }
    } else {
        Ok(None)
    }
}

/// The engine's state, as contracts see it.
pub struct State {
    /// How many commands the controller last said it can take.
    pub credit: usize,
    /// The command that waits for credit, if any.
    pub deferred: Option<CommandView>,
    /// The frame that was read and then put back, if any.
    pub held: Option<EventView>,
}

impl State {
    /// What holds of the state of every engine: the command and the frame
    /// that it keeps fit in a frame's 255 parameter bytes.
    pub open spec fn well_formed(self) -> bool {
        &&& self.deferred matches Some(command) ==> command.parameters.len() <= MAX_PARAMETERS
        &&& self.held matches Some(encoded) ==> encoded.parameters.len() <= MAX_PARAMETERS
    }

    /// The state of a new engine: a credit of one, nothing deferred, nothing held.
    pub open spec fn initial() -> State {
        State { credit: 1, deferred: None, held: None }
    }

    /// The frame of a command.
    pub open spec fn frame_of(command: CommandView) -> Seq<u8> {
        command_frame(command.opcode, command.parameters)
    }

    /// Issuing a command: without credit nothing is sent; with credit the
    /// command's frame is. The credit itself stays: only the controller's
    /// reports change it.
    pub open spec fn issue(self, command: CommandView) -> Result<Seq<u8>, BleError> {
        if self.credit == 0 {
            Err(BleError::WouldBlock)
        } else {
            Ok(Self::frame_of(command))
        }
    }

    /// Queueing a command: with credit it is sent at once; without, it is
    /// deferred. The second component is the frame to send now, if any.
    pub open spec fn queue(self, command: CommandView) -> (State, Option<Seq<u8>>) {
        if self.credit > 0 {
            (self, Some(Self::frame_of(command)))
        } else {
            (State { deferred: Some(command), ..self }, None)
        }
    }

    /// Taking in a frame from the transport: the credit follows what the
    /// frame reports, and if there is credit then, a deferred command goes
    /// out. The second component is the frame to send now, if any. Where
    /// the frame's report cannot be read, nothing changes.
    pub open spec fn receive(self, encoded: EventView) -> Result<
        (State, Option<Seq<u8>>),
        DecodeError,
    > {
        match reported_credit(encoded) {
            Err(e) => Err(e),
            Ok(report) => {
                let credit = match report {
                    Some(n) => n as usize,
                    None => self.credit,
                };
                match self.deferred {
                    Some(command) if credit > 0 => Ok(
                        (
                            State { credit, deferred: None, held: self.held },
                            Some(Self::frame_of(command)),
                        ),
                    ),
                    _ => Ok((State { credit, ..self }, None)),
                }
            },
        }
    }

    /// Taking the held frame, if there is one.
    pub open spec fn take_held(self) -> (State, Option<EventView>) {
        (State { held: None, ..self }, self.held)
    }

    /// Reading a frame as an `Ev` and holding it back if it is none.
    pub open spec fn maybe<Ev: EventParameters>(self, encoded: EventView) -> (
        State,
        Result<Option<Ev>, BleError>,
    ) {
        match encoded.decoded::<Ev>() {
            Ok(Some(event)) => (self, Ok(Some(event))),
            Ok(None) => (State { held: Some(encoded), ..self }, Ok(None)),
            Err(e) => (self, Err(BleError::Decode(e))),
        }
    }
}

/// The bytes of a frame that was handed out to be sent, if one was.
pub open spec fn bytes_of(frame: Option<Buffer<MAX_COMMAND_FRAME>>) -> Option<Seq<u8>> {
    match frame {
        Some(bytes) => Some(bytes@),
        None => None,
    }
}

/// The host's end of the link to one controller.
pub struct Ble {
    /// The credit that the controller reported last. With a credit of zero
    /// no command can be sent.
    num_hci_command_packets: usize,
    queued_command: Option<EncodedCommand>,
    queued_event: Option<EncodedEvent>,
}

impl View for Ble {
    type V = State;

    closed spec fn view(&self) -> State {
        State {
            credit: self.num_hci_command_packets,
            deferred: match self.queued_command {
                Some(command) => Some(command@),
                None => None,
            },
            held: match self.queued_event {
                Some(encoded) => Some(encoded@),
                None => None,
            },
        }
    }
}

impl Ble {
    /// The state of an engine is well formed.
    pub proof fn lemma_well_formed(&self)
        ensures
            self@.well_formed(),
    {
        if let Some(command) = self.queued_command {
            command.lemma_parameters_fit();
        }
        if let Some(encoded) = self.queued_event {
            encoded.lemma_parameters_fit();
        }
    }

    /// A new engine, and the one slot that goes with it. The controller is
    /// taken to accept one command.
    pub fn new() -> (r: (Ble, QueueSlot))
        ensures
            r.0@ == State::initial(),
    {
        (Ble { num_hci_command_packets: 1, queued_command: None, queued_event: None }, QueueSlot)
    }

    /// The credit that the controller reported last.
    pub fn num_hci_command_packets(&self) -> (n: usize)
        ensures
            n == self@.credit,
    {
        self.num_hci_command_packets
    }

    /// Whether a command waits for credit.
    pub fn has_queued_command(&self) -> (b: bool)
        ensures
            b == self@.deferred.is_some(),
    {
        self.queued_command.is_some()
    }

    /// Whether a frame is held back.
    pub fn has_queued_event(&self) -> (b: bool)
        ensures
            b == self@.held.is_some(),
    {
        self.queued_event.is_some()
    }

    /// The frame to send for `command`, or `WouldBlock` while the controller
    /// accepts none.
    pub fn try_issue_raw(&self, command: EncodedCommand) -> (r: Result<
        Buffer<MAX_COMMAND_FRAME>,
        BleError,
    >)
        ensures
            match self@.issue(command@) {
                Ok(frame) => r matches Ok(out) && out@ == frame,
                Err(e) => r == Err::<Buffer<MAX_COMMAND_FRAME>, BleError>(e),
            },
    {
        if self.num_hci_command_packets == 0 {
            return Err(BleError::WouldBlock);
        }
        Ok(command.frame())
    }

    /// The frame to send for `command`. Without credit the answer is
    /// `WouldBlock`, whatever the command; with credit, a command whose
    /// parameters take more than 255 bytes is refused.
    pub fn try_issue<C: Encode + HasOpcode>(&self, command: C) -> (r: Result<
        Buffer<MAX_COMMAND_FRAME>,
        BleError,
    >)
        ensures
            if self@.credit == 0 {
                r == Err::<Buffer<MAX_COMMAND_FRAME>, BleError>(BleError::WouldBlock)
            } else if command.wire().len() > MAX_PARAMETERS {
                r == Err::<Buffer<MAX_COMMAND_FRAME>, BleError>(BleError::Encode(EncoderFull))
            } else {
                r matches Ok(out) && out@ == command_frame(command.spec_opcode(), command.wire())
            },
    {
        if self.num_hci_command_packets == 0 {
            return Err(BleError::WouldBlock);
        }
        match EncodedCommand::encode(command) {
            Ok(encoded) => self.try_issue_raw(encoded),
            Err(e) => Err(BleError::Encode(e)),
        }
    }

    /// Queues `command` and turns the slot into a lock. With credit the
    /// command's frame is handed out to be sent; without, the command is
    /// kept until a frame from the controller brings credit.
    ///
    /// A second command must not be deferred while one waits. The slot is
    /// meant to rule that out, and here it is required.
    pub fn queue<C: CommandParameters>(&mut self, qslot: QueueSlot, command: C) -> (r: Result<
        (QueueLock<C>, Option<Buffer<MAX_COMMAND_FRAME>>),
        BleError,
    >)
        requires
            old(self)@.credit == 0 && command.wire().len() <= MAX_PARAMETERS ==> old(
                self,
            )@.deferred.is_none(),
        ensures
            match r {
                Ok((_, out)) => {
                    &&& command.wire().len() <= MAX_PARAMETERS
                    &&& (final(self)@, bytes_of(out)) == old(self)@.queue(
                        CommandView { opcode: C::command_opcode(), parameters: command.wire() },
                    )
                },
                Err(e) => {
                    &&& command.wire().len() > MAX_PARAMETERS
                    &&& e == BleError::Encode(EncoderFull)
                    &&& final(self)@ == old(self)@
                },
            },
    {
        let encoded = match EncodedCommand::encode(command) {
            Ok(encoded) => encoded,
            Err(e) => {
                return Err(BleError::Encode(e));
            },
        };
        let out = if self.num_hci_command_packets > 0 {
            Some(encoded.frame())
        } else {
            self.queued_command = Some(encoded);
            None
        };
        Ok((QueueLock { _phantom: PhantomData, qslot }, out))
    }

    /// Takes the frame that was held back, if there is one. Only where
    /// there is none does the transport have to be read.
    pub fn poll_raw(&mut self) -> (r: Option<EncodedEvent>)
        ensures
            final(self)@ == old(self)@.take_held().0,
            match r {
                Some(encoded) => old(self)@.take_held().1 == Some(encoded@),
                None => old(self)@.take_held().1.is_none(),
            },
    {
        self.queued_event.take()
    }

    /// Takes in a frame that was read from the transport. Every frame
    /// goes through here, whoever it is for: the credit follows what the
    /// frame reports, and a deferred command is handed out to be sent as
    /// soon as there is credit, before the frame goes on to the caller.
    pub fn try_poll_raw(&mut self, encoded: EncodedEvent) -> (r: Result<
        (EncodedEvent, Option<Buffer<MAX_COMMAND_FRAME>>),
        BleError,
    >)
        ensures
            match old(self)@.receive(encoded@) {
                Ok((next, out)) => {
                    &&& final(self)@ == next
                    &&& r matches Ok((event, frame))
                    &&& event == encoded
                    &&& bytes_of(frame) == out
                },
                Err(e) => {
                    &&& final(self)@ == old(self)@
                    &&& r == Err::<(EncodedEvent, Option<Buffer<MAX_COMMAND_FRAME>>), BleError>(
                        BleError::Decode(e),
                    )
                },
            },
    {
        match encoded.decode::<CommandComplete<AnyCommand>>() {
            Ok(Some(event)) => {
                self.num_hci_command_packets = event.num_hci_command_packets as usize;
            },
            Ok(None) => {
                match encoded.decode::<CommandStatus<AnyCommand>>() {
                    Ok(Some(event)) => {
                        self.num_hci_command_packets = event.num_hci_command_packets as usize;
                    },
                    Ok(None) => {},
                    Err(e) => {
                        return Err(BleError::Decode(e));
                    },
                }
            },
            Err(e) => {
                return Err(BleError::Decode(e));
            },
        }
        let mut out = None;
        if self.num_hci_command_packets > 0 {
            if let Some(queued_command) = self.queued_command.take() {
                out = Some(queued_command.frame());
            }
        }
        Ok((encoded, out))
    }

    /// Reads `encoded` as an `Ev`. A frame that is no `Ev` is dropped.
    pub fn filter_poll<Ev: EventParameters>(&self, encoded: EncodedEvent) -> (r: Result<
        Option<Ev>,
        BleError,
    >)
        ensures
            r == match encoded@.decoded::<Ev>() {
                Ok(found) => Ok::<Option<Ev>, BleError>(found),
                Err(e) => Err::<Option<Ev>, BleError>(BleError::Decode(e)),
            },
    {
        match encoded.decode::<Ev>() {
            Ok(found) => Ok(found),
            Err(e) => Err(BleError::Decode(e)),
        }
    }

    /// Reads `encoded` as an `Ev`. A frame that is no `Ev` is held back, so
    /// that the next poll, for whatever kind, sees it again. One frame can
    /// be held: a frame held before is replaced.
    pub fn maybe_poll<Ev: EventParameters>(&mut self, encoded: EncodedEvent) -> (r: Result<
        Option<Ev>,
        BleError,
    >)
        ensures
            (final(self)@, r) == old(self)@.maybe::<Ev>(encoded@),
    {
        match encoded.decode::<Ev>() {
            Ok(Some(event)) => Ok(Some(event)),
            Ok(None) => {
                self.queued_event = Some(encoded);
                Ok(None)
            },
            Err(e) => Err(BleError::Decode(e)),
        }
    }

    /// One turn of the wait for the completion of the outstanding command
    /// of kind `C`, on the frame `encoded`. The completion ends the wait
    /// and gives the slot back. Any other frame is held back first, as in
    /// [`Ble::maybe_poll`]; then `Filter` drops it and the wait goes on,
    /// while `Strict` ends the wait with `UnexpectedEvent` and leaves the
    /// frame held.
    pub fn run_until_complete<C: CommandParameters + CommandWithCompleteEvent>(
        &mut self,
        qlock: QueueLock<C>,
        poll_behavior: PollBehavior,
        encoded: EncodedEvent,
    ) -> (r: Result<Completion<C>, BleError>)
        ensures
            match old(self)@.maybe::<CommandComplete<C>>(encoded@) {
                (next, Ok(Some(complete))) => {
                    &&& final(self)@ == next
                    &&& r matches Ok(Completion::Complete(returned, _))
                    &&& returned == complete.return_parameters
                },
                (next, Ok(None)) => match poll_behavior {
                    PollBehavior::Filter => {
                        &&& final(self)@ == State { held: None, ..next }
                        &&& r matches Ok(Completion::Pending(_))
                    },
                    PollBehavior::Strict => {
                        &&& final(self)@ == next
                        &&& r == Err::<Completion<C>, BleError>(BleError::UnexpectedEvent)
                    },
                },
                (next, Err(e)) => {
                    &&& final(self)@ == next
                    &&& r == Err::<Completion<C>, BleError>(e)
                },
            },
    {
        match self.maybe_poll::<CommandComplete<C>>(encoded) {
            Ok(Some(complete)) => {
                let slot = qlock.release_with(&complete);
                Ok(Completion::Complete(complete.return_parameters, slot))
            },
            Ok(None) => {
                match poll_behavior {
                    PollBehavior::Filter => {
                        self.queued_event = None;
                        Ok(Completion::Pending(qlock))
                    },
                    PollBehavior::Strict => Err(BleError::UnexpectedEvent),
                }
            },
            Err(e) => Err(e),
        }
    }
}

/// Without credit nothing goes out: issuing any command is refused with `WouldBlock`.
pub proof fn lemma_no_credit_no_frame(state: State, command: CommandView)
    requires
        state.credit == 0,
    ensures
        state.issue(command) == Err::<Seq<u8>, BleError>(BleError::WouldBlock),
{
}

/// A command queued without credit is kept and nothing is sent.
pub proof fn lemma_queue_without_credit_defers(state: State, command: CommandView)
    requires
        state.credit == 0,
    ensures
        state.queue(command) == (State { deferred: Some(command), ..state }, None::<Seq<u8>>),
{
}

/// A deferred command goes out with the first frame that reports credit:
/// its frame is handed out as that frame is taken in, and nothing stays
/// deferred.
pub proof fn lemma_deferred_goes_out_on_credit(state: State, encoded: EventView)
    requires
        state.deferred is Some,
        reported_credit(encoded) matches Ok(Some(n)) && n >= 1,
    ensures
        state.receive(encoded) == Ok::<(State, Option<Seq<u8>>), DecodeError>(
            (
                State {
                    credit: reported_credit(encoded).unwrap().unwrap() as usize,
                    deferred: None,
                    held: state.held,
                },
                Some(State::frame_of(state.deferred.unwrap())),
            ),
        ),
{
}

/// While the controller reports no credit, a deferred command stays deferred.
pub proof fn lemma_deferred_stays_without_credit(state: State, encoded: EventView)
    requires
        reported_credit(encoded) == Ok::<Option<u8>, DecodeError>(Some(0)) || (reported_credit(
            encoded,
        ) == Ok::<Option<u8>, DecodeError>(None) && state.credit == 0),
    ensures
        state.receive(encoded) == Ok::<(State, Option<Seq<u8>>), DecodeError>(
            (State { credit: 0, ..state }, None),
        ),
{
}

/// A frame that a poll for `A` held back is what the next poll gets, in
/// place of a frame from the transport, and a poll for `B` reads it as if
/// it had just arrived.
pub proof fn lemma_held_frame_comes_back<A: EventParameters, B: EventParameters>(
    state: State,
    encoded: EventView,
)
    requires
        state.maybe::<A>(encoded).1 == Ok::<Option<A>, BleError>(None),
    ensures
        state.maybe::<A>(encoded).0.take_held().1 == Some(encoded),
        state.maybe::<A>(encoded).0.take_held().0 == (State { held: None, ..state }),
        state.maybe::<A>(encoded).0.take_held().0.maybe::<B>(encoded).1 == state.maybe::<B>(
            encoded,
        ).1,
{
}

/// A second frame held back before the first is taken replaces the first.
pub proof fn lemma_held_frame_is_replaced<A: EventParameters>(
    state: State,
    first: EventView,
    second: EventView,
)
    requires
        state.maybe::<A>(first).1 == Ok::<Option<A>, BleError>(None),
        state.maybe::<A>(second).1 == Ok::<Option<A>, BleError>(None),
    ensures
        state.maybe::<A>(first).0.maybe::<A>(second).0.held == Some(second),
{
}

impl From<EncoderFull> for BleError {
    fn from(value: EncoderFull) -> (r: BleError) {
        BleError::Encode(value)
    }
}

impl vstd::std_specs::convert::FromSpecImpl<EncoderFull> for BleError {
    open spec fn obeys_from_spec() -> bool {
        true
    }

    open spec fn from_spec(value: EncoderFull) -> BleError {
        BleError::Encode(value)
    }
}

impl From<DecodeError> for BleError {
    fn from(value: DecodeError) -> (r: BleError) {
        BleError::Decode(value)
    }
}

impl vstd::std_specs::convert::FromSpecImpl<DecodeError> for BleError {
    open spec fn obeys_from_spec() -> bool {
        true
    }

    open spec fn from_spec(value: DecodeError) -> BleError {
        BleError::Decode(value)
    }
}

} // verus!

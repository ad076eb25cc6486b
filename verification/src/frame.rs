//! Framing: how commands and events lie on the wire.
//!
//! A command frame is a packet type of `0x01`, the opcode in two bytes
//! little-endian, the number of parameter bytes, and the parameters. An
//! event frame is a packet type of `0x04`, the event code, the number of
//! parameter bytes, and the parameters.

use crate::command::EncodedCommand;
use crate::data::opcode::Opcode;
use crate::data::{le_bytes, lemma_le_bytes_len, Buffer, Encode, Encoder};
use crate::engine::BleError;
use crate::event::{EncodedEvent, EventCode};
use vstd::prelude::*;

verus! {

/// The packet type of a command.
pub const COMMAND_PACKET: u8 = 0x01;

/// The packet type of an event.
pub const EVENT_PACKET: u8 = 0x04;

/// The most bytes a command frame takes: four of header and 255 of parameters.
pub const MAX_COMMAND_FRAME: usize = 259;

/// The frame of the command `opcode` with `parameters`, for at most 255 parameter bytes.
pub open spec fn command_frame(opcode: Opcode, parameters: Seq<u8>) -> Seq<u8> {
    seq![COMMAND_PACKET] + le_bytes(opcode.0 as nat, 2) + seq![parameters.len() as u8]
        + parameters
}

/// The frame of the event `code` with `parameters`, for at most 255 parameter bytes.
pub open spec fn event_frame(code: EventCode, parameters: Seq<u8>) -> Seq<u8> {
    seq![EVENT_PACKET, code.0, parameters.len() as u8] + parameters
}

impl EncodedCommand {
    /// The bytes to put on the wire for this command.
    pub fn frame(&self) -> (r: Buffer<MAX_COMMAND_FRAME>)
        ensures
            r@ == command_frame(self.opcode, self.parameters@),
    {
        let parameters = self.parameters.as_slice();
        let length = self.parameters.len() as u8;
        let mut frame = Buffer::<MAX_COMMAND_FRAME>::new();
        proof {
            lemma_le_bytes_len(self.opcode.0 as nat, 2);
        }
        // Four bytes of header and at most 255 of parameters fit in 259:
        // none of these can fail.
        let marker = [COMMAND_PACKET];
        let _ = frame.write(marker.as_slice());
        let _ = self.opcode.0.encode(&mut frame);
        let count = [length];
        let _ = frame.write(count.as_slice());
        let _ = frame.write(parameters);
        frame
    }
}

/// Where the reading of an event frame stands: what the transport is asked for next.
///
/// The transport is read in three steps, each for an exact number of bytes:
/// the packet type, the two header bytes, and as many parameter bytes as
/// the header announced.
pub enum FrameReader {
    /// Nothing of the frame has been read.
    PacketType,
    /// The packet type has been read.
    Header,
    /// The header has been read: it gave the event code and the number of parameter bytes.
    Parameters { code: EventCode, length: u8 },
}

/// What a step of reading has led to.
pub enum FrameProgress {
    /// More is to be read.
    More(FrameReader),
    /// The frame is complete.
    Frame(EncodedEvent),
}

impl FrameReader {
    /// The reader before a frame.
    pub fn new() -> (r: FrameReader)
        ensures
            r == FrameReader::PacketType,
    {
        FrameReader::PacketType
    }

    /// The number of bytes that the next read must deliver.
    pub open spec fn spec_wanted(self) -> nat {
        match self {
            FrameReader::PacketType => 1,
            FrameReader::Header => 2,
            FrameReader::Parameters { length, .. } => length as nat,
        }
    }

    /// The number of bytes that the next read must deliver.
    pub fn wanted(&self) -> (n: usize)
        ensures
            n == self.spec_wanted(),
    {
        match self {
            FrameReader::PacketType => 1,
            FrameReader::Header => 2,
            FrameReader::Parameters { length, .. } => *length as usize,
        }
    }

    /// What it means that the transport ran dry before it delivered the
    /// bytes asked for: before a frame there is just nothing to read yet;
    /// inside a frame the stream is broken.
    pub fn short_read(&self) -> (e: BleError)
        ensures
            e == match *self {
                FrameReader::PacketType => BleError::WouldBlock,
                _ => BleError::UnexpectedEof,
            },
    {
        match self {
            FrameReader::PacketType => BleError::WouldBlock,
            _ => BleError::UnexpectedEof,
        }
    }

    /// Where the reading stands once the bytes asked for are there.
    pub open spec fn spec_supply(self, bytes: Seq<u8>) -> FrameProgress {
        match self {
            FrameReader::PacketType => FrameProgress::More(FrameReader::Header),
            FrameReader::Header => FrameProgress::More(
                FrameReader::Parameters { code: EventCode(bytes[0]), length: bytes[1] },
            ),
            FrameReader::Parameters { code, .. } => FrameProgress::Frame(
                EncodedEvent { code, parameters: Buffer::holding(bytes) },
            ),
        }
    }

    /// Takes the bytes that were asked for. A packet type other than that
    /// of an event breaks the protocol and is not an input here.
    pub fn supply(self, bytes: &[u8]) -> (r: FrameProgress)
        requires
            bytes@.len() == self.spec_wanted(),
            self == FrameReader::PacketType ==> bytes@[0] == EVENT_PACKET,
        ensures
            r == self.spec_supply(bytes@),
    {
        match self {
            FrameReader::PacketType => FrameProgress::More(FrameReader::Header),
            FrameReader::Header => FrameProgress::More(
                FrameReader::Parameters { code: EventCode(bytes[0]), length: bytes[1] },
            ),
            FrameReader::Parameters { code, .. } => FrameProgress::Frame(
                EncodedEvent { code, parameters: Buffer::from(bytes) },
            ),
        }
    }

    /// Reading the frame of an event step by step gives that event back.
    pub proof fn lemma_reads_event_frame(code: EventCode, parameters: Seq<u8>)
        requires
            parameters.len() <= 255,
        ensures
            ({
                let frame = event_frame(code, parameters);
                let first = FrameReader::PacketType;
                let second = first.spec_supply(frame.subrange(0, 1));
                let third = second->More_0.spec_supply(frame.subrange(1, 3));
                let last = third->More_0.spec_supply(frame.subrange(3, frame.len() as int));
                &&& frame[0] == EVENT_PACKET
                &&& second == FrameProgress::More(FrameReader::Header)
                &&& third == FrameProgress::More(
                    FrameReader::Parameters { code, length: parameters.len() as u8 },
                )
                &&& third->More_0.spec_wanted() == parameters.len()
                &&& last == FrameProgress::Frame(
                    EncodedEvent { code, parameters: Buffer::holding(parameters) },
                )
            }),
    {
        let frame = event_frame(code, parameters);
        assert(frame.subrange(3, frame.len() as int) =~= parameters);
    }
}

} // verus!

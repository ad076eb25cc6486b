use std::ops::Deref;
use ble_hci::command::le_create_connection::LeCreateConnection;
use ble_hci::command::le_set_scan_enable::LeSetScanEnable;
use ble_hci::command::reset::Reset;
use ble_hci::command::set_event_mask::SetEventMask;
use ble_hci::command::EncodedCommand;
use ble_hci::data::opcode::Opcode;
use ble_hci::data::{Buffer, DecodeError, EncoderFull};
use ble_hci::{Ble, BleError, Completion, PollBehavior};
use ble_hci::event::command_complete::CommandComplete;
use ble_hci::event::command_status::CommandStatus;
use ble_hci::event::le_advertising_report::LeAdvertisingReport;
use ble_hci::event::{EncodedEvent, EventCode};
use ble_hci::frame::{FrameProgress, FrameReader};

fn event(code: u8, parameters: &[u8]) -> EncodedEvent {
    EncodedEvent { code: EventCode(code), parameters: Buffer::from(parameters) }
}

/// Reads one event frame from `bytes` the way a transport is read: the
/// packet type, the header, the parameters.
fn read_frame(bytes: &[u8]) -> Result<(EncodedEvent, &[u8]), BleError> {
    let mut reader = FrameReader::new();
    let mut rest = bytes;
    loop {
        let wanted = reader.wanted();
        if rest.len() < wanted {
            return Err(reader.short_read());
        }
        let (now, later) = rest.split_at(wanted);
        if let FrameReader::PacketType = reader {
            assert_eq!(now[0], 0x04);
        }
        rest = later;
        match reader.supply(now) {
            FrameProgress::More(next) => reader = next,
            FrameProgress::Frame(frame) => return Ok((frame, rest)),
        }
    }
}

fn starved() -> Ble {
    let (mut ble, _slot) = Ble::new();
    let (_, out) = ble.try_poll_raw(event(0x0E, &[0x00, 0x00, 0x00])).unwrap();
    assert!(out.is_none());
    assert_eq!(ble.num_hci_command_packets(), 0);
    ble
}

#[test]
fn a_new_engine_has_a_credit_of_one() {
    let (ble, _slot) = Ble::new();
    assert_eq!(ble.num_hci_command_packets(), 1);
    assert!(!ble.has_queued_command());
    assert!(!ble.has_queued_event());
}

#[test]
fn frame_reader_asks_for_type_header_and_parameters() {
    let reader = FrameReader::new();
    assert_eq!(reader.wanted(), 1);
    let reader = match reader.supply(&[0x04]) {
        FrameProgress::More(next) => next,
        FrameProgress::Frame(_) => panic!("no frame after one byte"),
    };
    assert_eq!(reader.wanted(), 2);
    let reader = match reader.supply(&[0x0E, 0x04]) {
        FrameProgress::More(next) => next,
        FrameProgress::Frame(_) => panic!("no frame after the header"),
    };
    assert_eq!(reader.wanted(), 4);
    match reader.supply(&[0x01, 0x03, 0x0C, 0x00]) {
        FrameProgress::Frame(frame) => {
            assert_eq!(frame.code, EventCode(0x0E));
            assert_eq!(frame.parameters.deref(), &[0x01, 0x03, 0x0C, 0x00]);
        }
        FrameProgress::More(_) => panic!("the frame is complete"),
    }
}

#[test]
fn frame_reader_takes_a_frame_without_parameters() {
    let (frame, rest) = read_frame(&[0x04, 0x13, 0x00, 0x04]).unwrap();
    assert_eq!(frame.code, EventCode(0x13));
    assert_eq!(frame.parameters.len(), 0);
    assert_eq!(rest, &[0x04]);
}

#[test]
fn frame_reader_takes_the_largest_frame() {
    let mut bytes = vec![0x04, 0x3E, 0xFF];
    bytes.extend((0..255).map(|i| i as u8));
    let (frame, rest) = read_frame(&bytes).unwrap();
    assert_eq!(frame.parameters.len(), 255);
    assert_eq!(frame.parameters.deref(), &bytes[3..]);
    assert!(rest.is_empty());
}

#[test]
fn short_reads_block_before_a_frame_and_break_inside_one() {
    assert!(matches!(read_frame(&[]), Err(BleError::WouldBlock)));
    assert!(matches!(read_frame(&[0x04]), Err(BleError::UnexpectedEof)));
    assert!(matches!(read_frame(&[0x04, 0x0E]), Err(BleError::UnexpectedEof)));
    assert!(matches!(read_frame(&[0x04, 0x0E, 0x04]), Err(BleError::UnexpectedEof)));
    assert!(matches!(read_frame(&[0x04, 0x0E, 0x04, 0x01, 0x03, 0x0C]), Err(BleError::UnexpectedEof)));
    assert!(matches!(FrameReader::PacketType.short_read(), BleError::WouldBlock));
    assert!(matches!(FrameReader::Header.short_read(), BleError::UnexpectedEof));
    assert!(matches!(
        FrameReader::Parameters { code: EventCode(0x0E), length: 4 }.short_read(),
        BleError::UnexpectedEof
    ));
}

#[test]
fn try_issue_hands_out_the_command_frame() {
    let (ble, _slot) = Ble::new();
    let frame = ble.try_issue(Reset {}).unwrap();
    assert_eq!(frame.deref(), &[0x01, 0x03, 0x0C, 0x00]);
    let frame = ble.try_issue(SetEventMask { mask: !0 }).unwrap();
    assert_eq!(
        frame.deref(),
        &[0x01, 0x01, 0x0C, 0x08, 0xFF, 0xFF, 0xFF, 0xFF, 0xFF, 0xFF, 0xFF, 0xFF]
    );
    assert_eq!(ble.num_hci_command_packets(), 1);
}

#[test]
fn try_issue_without_credit_would_block() {
    let ble = starved();
    assert!(matches!(ble.try_issue(Reset {}), Err(BleError::WouldBlock)));
    let encoded = EncodedCommand::encode(Reset {}).unwrap();
    assert!(matches!(ble.try_issue_raw(encoded), Err(BleError::WouldBlock)));
    assert!(!ble.has_queued_command());
}

#[test]
fn try_issue_raw_hands_out_the_command_frame() {
    let (ble, _slot) = Ble::new();
    let encoded = EncodedCommand {
        opcode: Opcode(0xABCD),
        parameters: Buffer::from(&[1, 2, 3]),
    };
    let frame = ble.try_issue_raw(encoded).unwrap();
    assert_eq!(frame.deref(), &[0x01, 0xCD, 0xAB, 0x03, 1, 2, 3]);
}

#[test]
fn queue_with_credit_sends_at_once() {
    let (mut ble, slot) = Ble::new();
    let (_lock, out) = ble.queue(slot, Reset {}).unwrap();
    assert_eq!(out.unwrap().deref(), &[0x01, 0x03, 0x0C, 0x00]);
    assert!(!ble.has_queued_command());
    assert_eq!(ble.num_hci_command_packets(), 1);
}

#[test]
fn issue_reset_then_receive_its_completion() {
    let (mut ble, slot) = Ble::new();
    let (lock, out) = ble.queue(slot, Reset {}).unwrap();
    assert_eq!(out.unwrap().deref(), &[0x01, 0x03, 0x0C, 0x00]);

    assert!(ble.poll_raw().is_none());
    let (frame, rest) = read_frame(&[0x04, 0x0E, 0x04, 0x01, 0x03, 0x0C, 0x00]).unwrap();
    assert!(rest.is_empty());
    let (frame, out) = ble.try_poll_raw(frame).unwrap();
    assert!(out.is_none());
    assert_eq!(ble.num_hci_command_packets(), 1);

    match ble.run_until_complete(lock, PollBehavior::Strict, frame).unwrap() {
        Completion::Complete(status, _slot) => {
            assert!(status.is_successful());
            assert!(status.check().is_ok());
        }
        Completion::Pending(_) => panic!("the completion of Reset ends the wait"),
    }
    assert!(!ble.has_queued_event());
    assert_eq!(ble.num_hci_command_packets(), 1);
}

#[test]
fn a_command_queued_without_credit_goes_out_when_credit_comes() {
    let mut ble = starved();
    let (_, slot) = Ble::new();
    let (_lock, out) =
        ble.queue(slot, LeSetScanEnable { le_scan_enable: 1, filter_duplicates: 0 }).unwrap();
    assert!(out.is_none());
    assert!(ble.has_queued_command());

    let (frame, out) = ble.try_poll_raw(event(0x3E, &[0x02, 0x00])).unwrap();
    assert!(out.is_none());
    assert!(ble.has_queued_command());
    assert_eq!(frame.code, EventCode(0x3E));

    let (_, out) = ble.try_poll_raw(event(0x0E, &[0x00, 0x01, 0x0C, 0x00])).unwrap();
    assert!(out.is_none());
    assert!(ble.has_queued_command());

    let (frame, out) = ble.try_poll_raw(event(0x0E, &[0x01, 0x01, 0x0C, 0x00])).unwrap();
    assert_eq!(out.unwrap().deref(), &[0x01, 0x0C, 0x20, 0x02, 0x01, 0x00]);
    assert!(!ble.has_queued_command());
    assert_eq!(ble.num_hci_command_packets(), 1);
    assert_eq!(frame.code, EventCode(0x0E));
    assert_eq!(frame.parameters.deref(), &[0x01, 0x01, 0x0C, 0x00]);

    let (_, out) = ble.try_poll_raw(event(0x0E, &[0x01, 0x0C, 0x20, 0x00])).unwrap();
    assert!(out.is_none());
}

#[test]
fn a_command_status_brings_credit_too() {
    let mut ble = starved();
    let (_, slot) = Ble::new();
    let (_lock, out) = ble.queue(slot, Reset {}).unwrap();
    assert!(out.is_none());
    let (_, out) = ble.try_poll_raw(event(0x0F, &[0x00, 0x02, 0x0D, 0x20])).unwrap();
    assert_eq!(out.unwrap().deref(), &[0x01, 0x03, 0x0C, 0x00]);
    assert_eq!(ble.num_hci_command_packets(), 2);
    assert!(!ble.has_queued_command());
}

#[test]
fn credit_follows_every_report() {
    let (mut ble, _slot) = Ble::new();
    ble.try_poll_raw(event(0x0E, &[0x07, 0x03, 0x0C, 0x00])).unwrap();
    assert_eq!(ble.num_hci_command_packets(), 7);
    ble.try_poll_raw(event(0x0F, &[0x00, 0xFF, 0x03, 0x0C])).unwrap();
    assert_eq!(ble.num_hci_command_packets(), 255);
    ble.try_poll_raw(event(0x3E, &[0x02, 0x00])).unwrap();
    assert_eq!(ble.num_hci_command_packets(), 255);
    ble.try_poll_raw(event(0x0E, &[0x00, 0x03, 0x0C])).unwrap();
    assert_eq!(ble.num_hci_command_packets(), 0);
}

#[test]
fn a_report_that_cannot_be_read_changes_nothing() {
    let mut ble = starved();
    let (_, slot) = Ble::new();
    let (_lock, _) = ble.queue(slot, Reset {}).unwrap();
    assert!(matches!(
        ble.try_poll_raw(event(0x0E, &[0x05, 0x03])),
        Err(BleError::Decode(DecodeError::Empty))
    ));
    assert!(matches!(
        ble.try_poll_raw(event(0x0F, &[0x00, 0x05, 0x03])),
        Err(BleError::Decode(DecodeError::Empty))
    ));
    assert_eq!(ble.num_hci_command_packets(), 0);
    assert!(ble.has_queued_command());
}

#[test]
fn maybe_poll_holds_back_what_does_not_match() {
    let (mut ble, _slot) = Ble::new();
    let report = event(0x3E, &[0x02, 0x00]);
    let got = ble.maybe_poll::<CommandComplete<Reset>>(report).unwrap();
    assert!(got.is_none());
    assert!(ble.has_queued_event());

    let held = ble.poll_raw().expect("the frame that was held back");
    assert!(!ble.has_queued_event());
    assert_eq!(held.code, EventCode(0x3E));
    assert_eq!(held.parameters.deref(), &[0x02, 0x00]);
    let got = ble.maybe_poll::<LeAdvertisingReport>(held).unwrap();
    assert_eq!(got.unwrap().num_reports, 0);
    assert!(!ble.has_queued_event());
    assert!(ble.poll_raw().is_none());
}

#[test]
fn maybe_poll_keeps_only_the_last_frame_held_back() {
    let (mut ble, _slot) = Ble::new();
    assert!(ble.maybe_poll::<CommandComplete<Reset>>(event(0x3E, &[0x02, 0x00])).unwrap().is_none());
    assert!(ble.maybe_poll::<CommandComplete<Reset>>(event(0x13, &[0x01])).unwrap().is_none());
    let held = ble.poll_raw().unwrap();
    assert_eq!(held.code, EventCode(0x13));
    assert!(ble.poll_raw().is_none());
}

#[test]
fn maybe_poll_drops_a_frame_that_cannot_be_read() {
    let (mut ble, _slot) = Ble::new();
    let got = ble.maybe_poll::<CommandComplete<Reset>>(event(0x0E, &[0x01, 0x03, 0x0C]));
    assert!(matches!(got, Err(BleError::Decode(DecodeError::Empty))));
    assert!(!ble.has_queued_event());
}

#[test]
fn filter_poll_drops_what_does_not_match() {
    let (ble, _slot) = Ble::new();
    let got = ble.filter_poll::<LeAdvertisingReport>(event(0x0E, &[0x01, 0x03, 0x0C, 0x00])).unwrap();
    assert!(got.is_none());
    assert!(!ble.has_queued_event());
    let got = ble.filter_poll::<LeAdvertisingReport>(event(0x3E, &[0x02, 0x01])).unwrap();
    assert_eq!(got.unwrap().num_reports, 1);
    let got = ble.filter_poll::<LeAdvertisingReport>(event(0x3E, &[0x02]));
    assert!(matches!(got, Err(BleError::Decode(DecodeError::Empty))));
    let got = ble
        .filter_poll::<CommandStatus<LeCreateConnection>>(event(0x0F, &[0x00, 0x01, 0x0D, 0x20]))
        .unwrap();
    assert_eq!(got.unwrap().status, 0);
}

#[test]
fn a_strict_wait_ends_on_an_unrelated_frame() {
    let (mut ble, slot) = Ble::new();
    let (lock, _) = ble.queue(slot, Reset {}).unwrap();
    let got = ble.run_until_complete(lock, PollBehavior::Strict, event(0x3E, &[0x02, 0x00]));
    assert!(matches!(got, Err(BleError::UnexpectedEvent)));
    assert!(ble.has_queued_event());
    assert_eq!(ble.poll_raw().unwrap().code, EventCode(0x3E));
}

#[test]
fn a_filtering_wait_drops_unrelated_frames_and_goes_on() {
    let (mut ble, slot) = Ble::new();
    let (lock, _) = ble.queue(slot, Reset {}).unwrap();
    let lock = match ble.run_until_complete(lock, PollBehavior::Filter, event(0x3E, &[0x02, 0x00])) {
        Ok(Completion::Pending(lock)) => lock,
        _ => panic!("an advertising report does not complete Reset"),
    };
    assert!(!ble.has_queued_event());
    let lock = match ble.run_until_complete(
        lock,
        PollBehavior::Filter,
        event(0x0E, &[0x01, 0x0C, 0x20, 0x00]),
    ) {
        Ok(Completion::Pending(lock)) => lock,
        _ => panic!("the completion of another command does not complete Reset"),
    };
    assert!(!ble.has_queued_event());
    match ble.run_until_complete(lock, PollBehavior::Filter, event(0x0E, &[0x01, 0x03, 0x0C, 0x1F])) {
        Ok(Completion::Complete(status, _slot)) => assert_eq!(status.0, 0x1F),
        _ => panic!("the completion of Reset ends the wait"),
    }
}

#[test]
fn a_wait_fails_on_a_completion_that_cannot_be_read() {
    let (mut ble, slot) = Ble::new();
    let (lock, _) = ble.queue(slot, Reset {}).unwrap();
    let got = ble.run_until_complete(lock, PollBehavior::Filter, event(0x0E, &[0x01, 0x03, 0x0C]));
    assert!(matches!(got, Err(BleError::Decode(DecodeError::Empty))));
}

#[test]
fn the_slot_comes_back_and_serves_the_next_command() {
    let (mut ble, slot) = Ble::new();
    let (lock, _) = ble.queue(slot, Reset {}).unwrap();
    let slot = match ble
        .run_until_complete(lock, PollBehavior::Strict, event(0x0E, &[0x01, 0x03, 0x0C, 0x00]))
        .unwrap()
    {
        Completion::Complete(_, slot) => slot,
        Completion::Pending(_) => panic!("completed"),
    };
    let (lock, out) = ble.queue(slot, SetEventMask { mask: 0x1F }).unwrap();
    assert_eq!(out.unwrap().deref(), &[0x01, 0x01, 0x0C, 0x08, 0x1F, 0, 0, 0, 0, 0, 0, 0]);
    let complete = event(0x0E, &[0x01, 0x01, 0x0C, 0x00])
        .decode::<CommandComplete<SetEventMask>>()
        .unwrap()
        .unwrap();
    let _slot = lock.release_with(&complete);
}

#[test]
fn errors_convert_into_the_engines_error() {
    assert!(matches!(BleError::from(EncoderFull), BleError::Encode(EncoderFull)));
    assert!(matches!(BleError::from(DecodeError::Empty), BleError::Decode(DecodeError::Empty)));
    match BleError::from(DecodeError::Malformed("why")) {
        BleError::Decode(DecodeError::Malformed(reason)) => assert_eq!(reason, "why"),
        _ => panic!("a decode error stays a decode error"),
    }
}

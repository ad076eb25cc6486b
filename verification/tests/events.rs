use std::ops::Deref;
use ble_hci::command::le_create_connection::LeCreateConnection;
use ble_hci::command::le_set_scan_enable::LeSetScanEnable;
use ble_hci::command::reset::Reset;
use ble_hci::command::AnyCommand;
use ble_hci::data::opcode::Opcode;
use ble_hci::data::{Buffer, DecodeError, MaybeDecoder};
use ble_hci::engine::ParseError;
use ble_hci::event::command_complete::CommandComplete;
use ble_hci::event::command_status::CommandStatus;
use ble_hci::event::le_advertising_report::LeAdvertisingReport;
use ble_hci::event::le_connection_complete::LeConnectionComplete;
use ble_hci::event::{EncodedEvent, EventCode};

fn event(code: u8, parameters: &[u8]) -> EncodedEvent {
    EncodedEvent { code: EventCode(code), parameters: Buffer::from(parameters) }
}

#[test]
fn command_complete_for_reset_matches_resets_opcode() {
    let frame = event(0x0E, &[0x01, 0x03, 0x0C, 0x00]);
    let complete = frame.decode::<CommandComplete<Reset>>().unwrap().expect("a match");
    assert_eq!(complete.num_hci_command_packets, 1);
    assert_eq!(complete.command_opcode, Opcode(0x0C03));
    assert_eq!(complete.return_parameters.0, 0x00);
    assert!(complete.return_parameters.is_successful());
}

#[test]
fn command_complete_carries_a_failing_status() {
    let frame = event(0x0E, &[0x05, 0x0C, 0x20, 0x12]);
    let complete = frame.decode::<CommandComplete<LeSetScanEnable>>().unwrap().unwrap();
    assert_eq!(complete.num_hci_command_packets, 5);
    assert_eq!(complete.command_opcode, Opcode(0x200C));
    assert_eq!(complete.return_parameters.0, 0x12);
    assert_eq!(complete.return_parameters.check().unwrap_err().0, 0x12);
}

#[test]
fn command_complete_for_another_command_is_no_match() {
    let frame = event(0x0E, &[0x01, 0x0C, 0x20, 0x00]);
    assert!(frame.decode::<CommandComplete<Reset>>().unwrap().is_none());
    assert!(frame.decode::<CommandComplete<LeSetScanEnable>>().unwrap().is_some());
}

#[test]
fn command_complete_mismatch_is_no_error_even_without_return_parameters() {
    let frame = event(0x0E, &[0x01, 0x0C, 0x20]);
    assert!(frame.decode::<CommandComplete<Reset>>().unwrap().is_none());
}

#[test]
fn command_complete_match_without_return_parameters_is_an_error() {
    let frame = event(0x0E, &[0x01, 0x03, 0x0C]);
    assert!(matches!(frame.decode::<CommandComplete<Reset>>(), Err(DecodeError::Empty)));
}

#[test]
fn command_complete_with_a_short_envelope_is_an_error() {
    for parameters in [&[][..], &[0x01][..], &[0x01, 0x03][..]] {
        let frame = event(0x0E, parameters);
        assert!(matches!(frame.decode::<CommandComplete<Reset>>(), Err(DecodeError::Empty)));
        assert!(matches!(
            frame.decode::<CommandComplete<AnyCommand>>(),
            Err(DecodeError::Empty)
        ));
    }
}

#[test]
fn command_complete_under_another_event_code_is_no_match() {
    let frame = event(0x0F, &[0x01, 0x03, 0x0C, 0x00]);
    assert!(frame.decode::<CommandComplete<Reset>>().unwrap().is_none());
    let frame = event(0x3E, &[]);
    assert!(frame.decode::<CommandComplete<Reset>>().unwrap().is_none());
}

#[test]
fn any_command_matches_every_completion() {
    let frame = event(0x0E, &[0x03, 0x34, 0x12, 0xAA, 0xBB]);
    let complete = frame.decode::<CommandComplete<AnyCommand>>().unwrap().unwrap();
    assert_eq!(complete.num_hci_command_packets, 3);
    assert_eq!(complete.command_opcode, Opcode(0x1234));
}

#[test]
fn decoding_a_frame_leaves_it_for_the_next_candidate() {
    let frame = event(0x0E, &[0x01, 0x03, 0x0C, 0x00]);
    assert!(frame.decode::<CommandComplete<LeSetScanEnable>>().unwrap().is_none());
    assert!(frame.decode::<CommandStatus<AnyCommand>>().unwrap().is_none());
    assert!(frame.decode::<CommandComplete<Reset>>().unwrap().is_some());
    assert_eq!(frame.parameters.deref(), &[0x01, 0x03, 0x0C, 0x00]);
}

#[test]
fn speculative_decode_of_a_mismatch_does_not_consume() {
    let bytes = [0x01u8, 0x0C, 0x20, 0x00];
    let mut cursor: &[u8] = &bytes;
    let got: Option<CommandComplete<Reset>> = MaybeDecoder::maybe_decode(&mut cursor).unwrap();
    assert!(got.is_none());
    assert_eq!(cursor, &bytes);
    let got: Option<CommandComplete<LeSetScanEnable>> =
        MaybeDecoder::maybe_decode(&mut cursor).unwrap();
    assert!(got.is_some());
    assert_eq!(cursor, &[] as &[u8]);
}

#[test]
fn speculative_decode_of_a_malformed_match_does_not_consume() {
    let bytes = [0x01u8, 0x03, 0x0C];
    let mut cursor: &[u8] = &bytes;
    let got: Result<Option<CommandComplete<Reset>>, DecodeError> =
        MaybeDecoder::maybe_decode(&mut cursor);
    assert!(matches!(got, Err(DecodeError::Empty)));
    assert_eq!(cursor, &bytes);
}

#[test]
fn command_status_decodes_its_envelope() {
    let frame = event(0x0F, &[0x00, 0x01, 0x0D, 0x20]);
    let status = frame.decode::<CommandStatus<LeCreateConnection>>().unwrap().unwrap();
    assert_eq!(status.status, 0x00);
    assert_eq!(status.num_hci_command_packets, 1);
    assert_eq!(status.command_opcode, Opcode(0x200D));
    let any = frame.decode::<CommandStatus<AnyCommand>>().unwrap().unwrap();
    assert_eq!(any.command_opcode, Opcode(0x200D));
}

#[test]
fn command_status_for_another_command_is_no_match() {
    let frame = event(0x0F, &[0x0C, 0x02, 0x03, 0x0C]);
    assert!(frame.decode::<CommandStatus<LeCreateConnection>>().unwrap().is_none());
    let any = frame.decode::<CommandStatus<AnyCommand>>().unwrap().unwrap();
    assert_eq!(any.status, 0x0C);
    assert_eq!(any.num_hci_command_packets, 2);
}

#[test]
fn command_status_with_a_short_envelope_is_an_error() {
    for parameters in [&[][..], &[0x00][..], &[0x00, 0x01][..], &[0x00, 0x01, 0x0D][..]] {
        let frame = event(0x0F, parameters);
        assert!(matches!(
            frame.decode::<CommandStatus<LeCreateConnection>>(),
            Err(DecodeError::Empty)
        ));
    }
    let frame = event(0x0E, &[0x00]);
    assert!(frame.decode::<CommandStatus<LeCreateConnection>>().unwrap().is_none());
}

#[test]
fn le_connection_complete_decodes_every_field() {
    let frame = event(
        0x3E,
        &[
            0x01, 0x00, 0x40, 0x00, 0x01, 0x00, 0x11, 0x22, 0x33, 0x44, 0x55, 0x66, 0x18, 0x00,
            0x02, 0x01, 0xF4, 0x01, 0x05,
        ],
    );
    let complete = frame.decode::<LeConnectionComplete>().unwrap().unwrap();
    assert_eq!(complete.status.0, 0x00);
    assert_eq!(complete.connection_handle, 0x0040);
    assert_eq!(complete.role, 0x01);
    assert_eq!(complete.peer_address_type, 0x00);
    assert_eq!(complete.peer_address.0, [0x11, 0x22, 0x33, 0x44, 0x55, 0x66]);
    assert_eq!(complete.connection_interval, 0x0018);
    assert_eq!(complete.peripheral_latency, 0x0102);
    assert_eq!(complete.supervision_timeout, 0x01F4);
    assert_eq!(complete.central_clock_accuracy, 0x05);
}

#[test]
fn le_connection_complete_is_told_by_its_subevent() {
    let report = event(0x3E, &[0x02, 0x00]);
    assert!(report.decode::<LeConnectionComplete>().unwrap().is_none());
    let short = event(0x3E, &[0x01, 0x00, 0x40]);
    assert!(matches!(short.decode::<LeConnectionComplete>(), Err(DecodeError::Empty)));
    let empty = event(0x3E, &[]);
    assert!(matches!(empty.decode::<LeConnectionComplete>(), Err(DecodeError::Empty)));
    let other = event(0x0E, &[0x01]);
    assert!(other.decode::<LeConnectionComplete>().unwrap().is_none());
}

fn one_report() -> Vec<u8> {
    vec![0x00, 0x01, 0xA1, 0xA2, 0xA3, 0xA4, 0xA5, 0xA6, 0x03, 0x02, 0x01, 0x06, 0xC4]
}

#[test]
fn advertising_report_is_told_by_its_subevent() {
    let connection = event(0x3E, &[0x01, 0x00]);
    assert!(connection.decode::<LeAdvertisingReport>().unwrap().is_none());
    let empty = event(0x3E, &[]);
    assert!(matches!(empty.decode::<LeAdvertisingReport>(), Err(DecodeError::Empty)));
    let no_count = event(0x3E, &[0x02]);
    assert!(matches!(no_count.decode::<LeAdvertisingReport>(), Err(DecodeError::Empty)));
    let none = event(0x3E, &[0x02, 0x00]);
    let report = none.decode::<LeAdvertisingReport>().unwrap().unwrap();
    assert_eq!(report.num_reports, 0);
    assert!(report.items().next().is_none());
}

#[test]
fn advertising_report_with_one_item() {
    let mut parameters = vec![0x02, 0x01];
    parameters.extend(one_report());
    let report = event(0x3E, &parameters).decode::<LeAdvertisingReport>().unwrap().unwrap();
    assert_eq!(report.num_reports, 1);
    assert_eq!(report.data.deref(), &one_report()[..]);
    let mut items = report.items();
    let item = items.next().unwrap().unwrap();
    assert_eq!(item.event_type, 0x00);
    assert_eq!(item.address_type, 0x01);
    assert_eq!(item.address, [0xA1, 0xA2, 0xA3, 0xA4, 0xA5, 0xA6]);
    assert_eq!(item.data.deref(), &[0x02, 0x01, 0x06]);
    assert_eq!(item.rssi, 0xC4);
    assert!(items.next().is_none());
    assert!(items.next().is_none());
}

#[test]
fn advertising_report_with_two_items() {
    let mut parameters = vec![0x02, 0x02];
    parameters.extend(one_report());
    parameters.extend([0x04, 0x00, 0xB1, 0xB2, 0xB3, 0xB4, 0xB5, 0xB6, 0x00, 0xD0]);
    let report = event(0x3E, &parameters).decode::<LeAdvertisingReport>().unwrap().unwrap();
    let mut items = report.items();
    let first = items.next().unwrap().unwrap();
    assert_eq!(first.address, [0xA1, 0xA2, 0xA3, 0xA4, 0xA5, 0xA6]);
    assert_eq!(first.rssi, 0xC4);
    let second = items.next().unwrap().unwrap();
    assert_eq!(second.event_type, 0x04);
    assert_eq!(second.address_type, 0x00);
    assert_eq!(second.address, [0xB1, 0xB2, 0xB3, 0xB4, 0xB5, 0xB6]);
    assert_eq!(second.data.len(), 0);
    assert_eq!(second.rssi, 0xD0);
    assert!(items.next().is_none());
}

#[test]
fn advertising_report_that_claims_two_items_and_holds_one() {
    let mut parameters = vec![0x02, 0x02];
    parameters.extend(one_report());
    let report = event(0x3E, &parameters).decode::<LeAdvertisingReport>().unwrap().unwrap();
    let mut items = report.items();
    assert!(items.next().unwrap().is_ok());
    assert!(matches!(items.next(), Some(Err(ParseError))));
    assert!(items.next().is_none());
}

#[test]
fn advertising_report_cut_inside_an_item() {
    for cut in 0..one_report().len() {
        let mut parameters = vec![0x02, 0x01];
        parameters.extend(&one_report()[..cut]);
        let report = event(0x3E, &parameters).decode::<LeAdvertisingReport>().unwrap().unwrap();
        let mut items = report.items();
        assert!(matches!(items.next(), Some(Err(ParseError))));
        assert!(items.next().is_none());
    }
}

#[test]
fn advertising_report_item_with_too_much_data() {
    let mut parameters = vec![0x02, 0x01, 0x00, 0x01, 1, 2, 3, 4, 5, 6, 32];
    parameters.extend([0u8; 33]);
    let report = event(0x3E, &parameters).decode::<LeAdvertisingReport>().unwrap().unwrap();
    assert!(matches!(report.items().next(), Some(Err(ParseError))));

    let mut parameters = vec![0x02, 0x01, 0x00, 0x01, 1, 2, 3, 4, 5, 6, 31];
    parameters.extend([7u8; 31]);
    parameters.push(0xB0);
    let report = event(0x3E, &parameters).decode::<LeAdvertisingReport>().unwrap().unwrap();
    let item = report.items().next().unwrap().unwrap();
    assert_eq!(item.data.deref(), &[7u8; 31]);
    assert_eq!(item.rssi, 0xB0);
}

#[test]
fn advertising_report_errors_repeat_for_every_report_left() {
    let parameters = vec![0x02, 0x03, 0x00];
    let report = event(0x3E, &parameters).decode::<LeAdvertisingReport>().unwrap().unwrap();
    let mut items = report.items();
    assert!(matches!(items.next(), Some(Err(ParseError))));
    assert!(matches!(items.next(), Some(Err(ParseError))));
    assert!(matches!(items.next(), Some(Err(ParseError))));
    assert!(items.next().is_none());
}

#[test]
fn advertising_report_takes_the_largest_frame() {
    let mut parameters = vec![0x02, 0x00];
    parameters.extend([0x55u8; 253]);
    let report = event(0x3E, &parameters).decode::<LeAdvertisingReport>().unwrap().unwrap();
    assert_eq!(report.data.len(), 253);
}

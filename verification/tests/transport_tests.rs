use ax206lcd::command::CommandBlock;
use ax206lcd::error::{command_result, AX206Error, UsbFault};
use ax206lcd::transport::{
    build_cbw, parse_csw, Anomalies, Direction, Exchange, Phase, Reply, Transfer,
};

fn status_wrapper(status: u8) -> Vec<u8> {
    vec![b'U', b'S', b'B', b'S', 0xDE, 0xAD, 0xBE, 0xEF, 0, 0, 0, 0, status]
}

const QUIET: Anomalies = Anomalies {
    data_length_mismatch: false,
    status_length_mismatch: false,
    bad_signature: false,
};

#[test]
fn command_wrapper_layout_without_data() {
    let block = CommandBlock::backlight(3).unwrap();
    let cbw = build_cbw(&block, Direction::Out, 0);
    assert_eq!(cbw.len(), 31);
    assert_eq!(&cbw[0..4], b"USBC");
    assert_eq!(&cbw[4..8], &[0xDE, 0xAD, 0xBE, 0xEF]);
    assert_eq!(&cbw[8..12], &[0, 0, 0, 0]);
    assert_eq!(cbw[12], 0x00);
    assert_eq!(cbw[13], 0x00);
    assert_eq!(cbw[14], 16);
    assert_eq!(&cbw[15..31], block.bytes());
}

#[test]
fn command_wrapper_carries_little_endian_length() {
    let block = CommandBlock::blit(0, 0, 479, 319);
    let cbw = build_cbw(&block, Direction::Out, 480 * 320 * 2);
    assert_eq!(&cbw[8..12], &(307200u32).to_le_bytes());
    assert_eq!(&cbw[8..12], &[0x00, 0xB0, 0x04, 0x00]);
    let cbw = build_cbw(&block, Direction::Out, 0x0102_0304);
    assert_eq!(&cbw[8..12], &[0x04, 0x03, 0x02, 0x01]);
    assert_eq!(&cbw[0..4], b"USBC");
    assert_eq!(cbw[14], 16);
}

#[test]
fn command_wrapper_flags_the_direction() {
    let block = CommandBlock::query_dimensions();
    assert_eq!(build_cbw(&block, Direction::In, 5)[12], 0x80);
    assert_eq!(build_cbw(&block, Direction::Out, 5)[12], 0x00);
}

#[test]
fn status_wrapper_yields_its_status_byte() {
    for status in [0u8, 1, 2, 0x7F, 0xFF] {
        let report = parse_csw(&status_wrapper(status));
        assert_eq!(report.status, status);
        assert!(report.signature_ok);
        assert!(report.complete);
    }
}

#[test]
fn status_wrapper_with_wrong_signature_is_still_read() {
    let mut csw = status_wrapper(1);
    csw[3] = b'C';
    let report = parse_csw(&csw);
    assert_eq!(report.status, 1);
    assert!(!report.signature_ok);
    assert!(report.complete);
}

#[test]
fn short_status_wrapper_reads_as_zero_filled() {
    let report = parse_csw(&[b'U', b'S', b'B', b'S', 1, 2, 3]);
    assert_eq!(report.status, 0);
    assert!(report.signature_ok);
    assert!(!report.complete);
    let report = parse_csw(&[]);
    assert_eq!(report.status, 0);
    assert!(!report.signature_ok);
    assert!(!report.complete);
}

#[test]
fn exchange_out_with_payload_takes_three_transfers() {
    let block = CommandBlock::blit(0, 0, 1, 0);
    let payload = vec![1u8, 2, 3, 4];
    let mut exchange = Exchange::new(&block, Direction::Out, Some(payload.clone()));
    let expected_cbw = build_cbw(&block, Direction::Out, 4);
    assert_eq!(
        exchange.request(),
        Some(Transfer::Write { endpoint: 0x01, data: &expected_cbw, timeout_ms: 1000 })
    );
    assert_eq!(exchange.outcome(), None);
    exchange.advance(Reply::Written(31));
    assert_eq!(
        exchange.request(),
        Some(Transfer::Write { endpoint: 0x01, data: &payload, timeout_ms: 3000 })
    );
    exchange.advance(Reply::Written(4));
    assert_eq!(
        exchange.request(),
        Some(Transfer::Read { endpoint: 0x81, len: 13, timeout_ms: 5000 })
    );
    exchange.advance(Reply::Received(status_wrapper(0)));
    assert_eq!(exchange.request(), None);
    assert_eq!(exchange.phase(), Phase::Finished(Ok(0)));
    assert_eq!(exchange.outcome(), Some(Ok(0)));
    assert_eq!(exchange.anomalies(), QUIET);
    assert_eq!(exchange.into_buffer(), Some(payload));
}

#[test]
fn exchange_in_fills_the_buffer() {
    let block = CommandBlock::query_dimensions();
    let mut exchange = Exchange::new(&block, Direction::In, Some(vec![0u8; 5]));
    let expected_cbw = build_cbw(&block, Direction::In, 5);
    assert_eq!(
        exchange.request(),
        Some(Transfer::Write { endpoint: 0x01, data: &expected_cbw, timeout_ms: 1000 })
    );
    exchange.advance(Reply::Written(31));
    assert_eq!(
        exchange.request(),
        Some(Transfer::Read { endpoint: 0x81, len: 5, timeout_ms: 4000 })
    );
    exchange.advance(Reply::Received(vec![0xE0, 0x01, 0x40, 0x01, 0xFF]));
    assert_eq!(exchange.buffer(), Some(&vec![0xE0, 0x01, 0x40, 0x01, 0xFF]));
    assert_eq!(
        exchange.request(),
        Some(Transfer::Read { endpoint: 0x81, len: 13, timeout_ms: 5000 })
    );
    exchange.advance(Reply::Received(status_wrapper(0)));
    assert_eq!(exchange.outcome(), Some(Ok(0)));
    assert_eq!(exchange.anomalies(), QUIET);
}

#[test]
fn exchange_without_buffer_skips_the_data_phase() {
    let block = CommandBlock::backlight(3).unwrap();
    let mut exchange = Exchange::new(&block, Direction::Out, None);
    match exchange.request() {
        Some(Transfer::Write { endpoint, data, timeout_ms }) => {
            assert_eq!(endpoint, 0x01);
            assert_eq!(timeout_ms, 1000);
            assert_eq!(&data[8..12], &[0, 0, 0, 0]);
            assert_eq!(data[9 + 15], 3);
        }
        other => panic!("unexpected request {:?}", other),
    }
    exchange.advance(Reply::Written(31));
    assert_eq!(
        exchange.request(),
        Some(Transfer::Read { endpoint: 0x81, len: 13, timeout_ms: 5000 })
    );
    exchange.advance(Reply::Received(status_wrapper(0)));
    assert_eq!(exchange.outcome(), Some(Ok(0)));
    assert_eq!(command_result(exchange.outcome().unwrap()), Ok(()));
}

#[test]
fn short_read_is_noted_and_does_not_abort() {
    let block = CommandBlock::query_dimensions();
    let mut exchange = Exchange::new(&block, Direction::In, Some(vec![9u8; 5]));
    exchange.advance(Reply::Written(31));
    exchange.advance(Reply::Received(vec![0xE0, 0x01]));
    assert_eq!(exchange.phase(), Phase::Status);
    assert!(exchange.anomalies().data_length_mismatch);
    assert_eq!(exchange.buffer(), Some(&vec![0xE0, 0x01, 9, 9, 9]));
    exchange.advance(Reply::Received(status_wrapper(0)));
    assert_eq!(exchange.outcome(), Some(Ok(0)));
}

#[test]
fn long_read_is_cut_to_the_buffer() {
    let block = CommandBlock::query_dimensions();
    let mut exchange = Exchange::new(&block, Direction::In, Some(vec![0u8; 2]));
    exchange.advance(Reply::Written(31));
    exchange.advance(Reply::Received(vec![1, 2, 3]));
    assert!(exchange.anomalies().data_length_mismatch);
    assert_eq!(exchange.buffer(), Some(&vec![1, 2]));
}

#[test]
fn short_payload_write_is_noted() {
    let block = CommandBlock::blit(0, 0, 0, 0);
    let mut exchange = Exchange::new(&block, Direction::Out, Some(vec![1, 2]));
    exchange.advance(Reply::Written(31));
    exchange.advance(Reply::Written(1));
    assert!(exchange.anomalies().data_length_mismatch);
    assert_eq!(exchange.phase(), Phase::Status);
}

#[test]
fn wrong_signature_is_noted_and_status_returned() {
    let block = CommandBlock::backlight(1).unwrap();
    let mut exchange = Exchange::new(&block, Direction::Out, None);
    exchange.advance(Reply::Written(31));
    let mut csw = status_wrapper(2);
    csw[0] = b'X';
    exchange.advance(Reply::Received(csw));
    assert_eq!(exchange.outcome(), Some(Ok(2)));
    assert!(exchange.anomalies().bad_signature);
    assert!(!exchange.anomalies().status_length_mismatch);
    assert_eq!(
        command_result(exchange.outcome().unwrap()),
        Err(AX206Error::ScsiCommandFailed(2))
    );
}

#[test]
fn short_status_wrapper_is_noted() {
    let block = CommandBlock::backlight(1).unwrap();
    let mut exchange = Exchange::new(&block, Direction::Out, None);
    exchange.advance(Reply::Written(31));
    exchange.advance(Reply::Received(vec![b'U', b'S', b'B', b'S']));
    assert_eq!(exchange.outcome(), Some(Ok(0)));
    assert!(exchange.anomalies().status_length_mismatch);
    assert!(!exchange.anomalies().bad_signature);
}

#[test]
fn fault_in_any_phase_ends_the_exchange() {
    let block = CommandBlock::blit(0, 0, 0, 0);

    let mut exchange = Exchange::new(&block, Direction::Out, Some(vec![1, 2]));
    exchange.advance(Reply::Failed(UsbFault::Timeout));
    assert_eq!(exchange.outcome(), Some(Err(UsbFault::Timeout)));
    assert_eq!(exchange.request(), None);

    let mut exchange = Exchange::new(&block, Direction::Out, Some(vec![1, 2]));
    exchange.advance(Reply::Written(31));
    exchange.advance(Reply::Failed(UsbFault::Pipe));
    assert_eq!(exchange.outcome(), Some(Err(UsbFault::Pipe)));
    assert_eq!(exchange.request(), None);

    let mut exchange = Exchange::new(&block, Direction::Out, Some(vec![1, 2]));
    exchange.advance(Reply::Written(31));
    exchange.advance(Reply::Written(2));
    exchange.advance(Reply::Failed(UsbFault::NoDevice));
    assert_eq!(exchange.outcome(), Some(Err(UsbFault::NoDevice)));
    assert_eq!(exchange.request(), None);
    assert_eq!(
        command_result(exchange.outcome().unwrap()),
        Err(AX206Error::UsbError(UsbFault::NoDevice))
    );

    exchange.advance(Reply::Received(status_wrapper(0)));
    assert_eq!(exchange.outcome(), Some(Err(UsbFault::NoDevice)));
}

#[test]
fn reply_of_the_wrong_kind_is_a_fault() {
    let block = CommandBlock::query_dimensions();
    let mut exchange = Exchange::new(&block, Direction::In, Some(vec![0u8; 5]));
    exchange.advance(Reply::Received(vec![1]));
    assert_eq!(exchange.outcome(), Some(Err(UsbFault::Other)));

    let mut exchange = Exchange::new(&block, Direction::In, Some(vec![0u8; 5]));
    exchange.advance(Reply::Written(31));
    exchange.advance(Reply::Written(5));
    assert_eq!(exchange.outcome(), Some(Err(UsbFault::Other)));

    let mut exchange = Exchange::new(&block, Direction::In, None);
    exchange.advance(Reply::Written(31));
    exchange.advance(Reply::Written(13));
    assert_eq!(exchange.outcome(), Some(Err(UsbFault::Other)));
}

#[test]
fn direction_in_without_buffer_still_flags_in() {
    let block = CommandBlock::query_dimensions();
    let exchange = Exchange::new(&block, Direction::In, None);
    match exchange.request() {
        Some(Transfer::Write { data, .. }) => {
            assert_eq!(data[12], 0x80);
            assert_eq!(&data[8..12], &[0, 0, 0, 0]);
        }
        other => panic!("unexpected request {:?}", other),
    }
}

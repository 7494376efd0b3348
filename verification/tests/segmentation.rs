use ledger_hid::constant::LEDGER_CHANNEL;
use ledger_hid::error::TransportError;
use ledger_hid::transport::{fragment, reassemble, ApduReader, ReadStep};

/// The reports as the reader would see them coming back from the device:
/// each written report without its leading pad byte.
fn as_read_reports(reports: &[Vec<u8>]) -> Vec<Vec<u8>> {
    reports.iter().map(|r| r[1..].to_vec()).collect()
}

fn roundtrip(len: usize) {
    let apdu: Vec<u8> = (0..len).map(|i| (i % 251) as u8).collect();
    let reports = fragment(LEDGER_CHANNEL, &apdu);
    let body_len = apdu.len() + 2;
    let expected_reports = if body_len == 0 { 1 } else { (body_len + 58) / 59 };
    assert_eq!(reports.len(), expected_reports);
    for r in &reports {
        assert_eq!(r.len(), 65);
        assert_eq!(r[0], 0x00);
    }

    let mut reader = ApduReader::new(LEDGER_CHANNEL);
    let mut done = false;
    for (idx, report) in reports.iter().enumerate() {
        assert!(!done, "reader finished before the last report");
        match reader.feed(&report[1..]).unwrap() {
            ReadStep::Done => {
                assert_eq!(idx, reports.len() - 1, "reader finished early");
                done = true;
            }
            ReadStep::More => {}
        }
    }
    assert!(done, "reader did not finish on the last report");
    assert_eq!(reader.answer(), apdu);
}

#[test]
fn segmentation_round_trip_empty() {
    roundtrip(0);
}

#[test]
fn segmentation_round_trip_one_byte() {
    roundtrip(1);
}

#[test]
fn segmentation_round_trip_near_capacity() {
    // around the chunk capacity of 59 body bytes, counted both with and
    // without the two length-prefix bytes
    for len in [56, 57, 58, 59, 60, 61] {
        roundtrip(len);
    }
}

#[test]
fn segmentation_round_trip_three_chunks() {
    for len in [175, 177] {
        roundtrip(len);
    }
}

#[test]
fn segmentation_round_trip_largest_answer() {
    roundtrip(0xffff);
}

#[test]
fn exact_multiple_has_no_trailing_report() {
    // 116 apdu bytes frame to 118 = 2 * 59 body bytes: exactly two reports
    let apdu: Vec<u8> = vec![0xab; 116];
    let reports = fragment(LEDGER_CHANNEL, &apdu);
    assert_eq!(reports.len(), 2);
}

#[test]
fn reassemble_round_trip() {
    let apdu: Vec<u8> = (0..300).map(|i| (i % 256) as u8).collect();
    let reports = as_read_reports(&fragment(LEDGER_CHANNEL, &apdu));
    let answer = reassemble(LEDGER_CHANNEL, &reports).unwrap();
    assert_eq!(answer, Some(apdu));
}

#[test]
fn reassemble_runs_out_of_reports() {
    let apdu: Vec<u8> = vec![0x55; 300];
    let mut reports = as_read_reports(&fragment(LEDGER_CHANNEL, &apdu));
    reports.pop();
    let answer = reassemble(LEDGER_CHANNEL, &reports).unwrap();
    assert_eq!(answer, None);
}

#[test]
fn wrong_sequence_index_is_fatal() {
    let apdu: Vec<u8> = vec![0x77; 200];
    let reports = as_read_reports(&fragment(LEDGER_CHANNEL, &apdu));
    assert!(reports.len() >= 3);

    let mut reader = ApduReader::new(LEDGER_CHANNEL);
    assert_eq!(reader.feed(&reports[0]).unwrap(), ReadStep::More);
    // hand the reader the fragment with sequence index 2 instead of 1
    assert_eq!(reader.feed(&reports[2]).unwrap_err(), TransportError::InvalidSequence);
}

#[test]
fn wrong_sequence_via_reassemble() {
    let apdu: Vec<u8> = vec![0x77; 200];
    let mut reports = as_read_reports(&fragment(LEDGER_CHANNEL, &apdu));
    reports.swap(1, 2);
    assert_eq!(
        reassemble(LEDGER_CHANNEL, &reports).unwrap_err(),
        TransportError::InvalidSequence
    );
}

#[test]
fn wrong_channel_is_fatal() {
    let apdu: Vec<u8> = vec![0x11; 10];
    let reports = as_read_reports(&fragment(0x0102, &apdu));
    let mut reader = ApduReader::new(LEDGER_CHANNEL);
    assert_eq!(reader.feed(&reports[0]).unwrap_err(), TransportError::InvalidChannel);
}

#[test]
fn wrong_tag_is_fatal() {
    let apdu: Vec<u8> = vec![0x11; 10];
    let mut reports = as_read_reports(&fragment(LEDGER_CHANNEL, &apdu));
    reports[0][2] = 0x06;
    let mut reader = ApduReader::new(LEDGER_CHANNEL);
    assert_eq!(reader.feed(&reports[0]).unwrap_err(), TransportError::InvalidTag);
}

#[test]
fn short_first_report_is_fatal() {
    // six bytes cannot hold the header plus the announced length
    let report = vec![0x01, 0x01, 0x05, 0x00, 0x00, 0x00];
    let mut reader = ApduReader::new(LEDGER_CHANNEL);
    assert_eq!(reader.feed(&report).unwrap_err(), TransportError::IncompleteHeader);
}

#[test]
fn short_later_report_is_fatal() {
    let apdu: Vec<u8> = vec![0x22; 100];
    let reports = as_read_reports(&fragment(LEDGER_CHANNEL, &apdu));
    let mut reader = ApduReader::new(LEDGER_CHANNEL);
    assert_eq!(reader.feed(&reports[0]).unwrap(), ReadStep::More);
    assert_eq!(
        reader.feed(&reports[1][..4]).unwrap_err(),
        TransportError::IncompleteHeader
    );
}

#[test]
fn error_leaves_reader_usable() {
    let apdu: Vec<u8> = vec![0x33; 100];
    let reports = as_read_reports(&fragment(LEDGER_CHANNEL, &apdu));
    let mut reader = ApduReader::new(LEDGER_CHANNEL);
    assert_eq!(reader.feed(&reports[0]).unwrap(), ReadStep::More);
    // a rejected report does not advance the reassembly ...
    assert_eq!(reader.feed(&reports[0]).unwrap_err(), TransportError::InvalidSequence);
    // ... so the right report is still accepted afterwards
    assert_eq!(reader.feed(&reports[1]).unwrap(), ReadStep::Done);
    assert_eq!(reader.answer(), apdu);
}

#[test]
fn zero_length_answer_returns_empty() {
    let reports = as_read_reports(&fragment(LEDGER_CHANNEL, &vec![]));
    assert_eq!(reports.len(), 1);
    let mut reader = ApduReader::new(LEDGER_CHANNEL);
    assert_eq!(reader.feed(&reports[0]).unwrap(), ReadStep::Done);
    assert!(reader.answer().is_empty());
}

#[test]
fn trailing_bytes_of_last_report_are_ignored() {
    // announce 3 answer bytes, then pack garbage after them
    let mut report = vec![0x01, 0x01, 0x05, 0x00, 0x00, 0x00, 0x03];
    report.extend_from_slice(&[0xaa, 0xbb, 0xcc]);
    report.extend_from_slice(&[0xff; 54]);
    assert_eq!(report.len(), 64);
    let mut reader = ApduReader::new(LEDGER_CHANNEL);
    assert_eq!(reader.feed(&report).unwrap(), ReadStep::Done);
    assert_eq!(reader.answer(), vec![0xaa, 0xbb, 0xcc]);
}

#[test]
fn is_done_tracks_completion() {
    let reports = as_read_reports(&fragment(LEDGER_CHANNEL, &vec![0x01, 0x02]));
    let mut reader = ApduReader::new(LEDGER_CHANNEL);
    assert!(!reader.is_done());
    assert_eq!(reader.feed(&reports[0]).unwrap(), ReadStep::Done);
    assert!(reader.is_done());
}

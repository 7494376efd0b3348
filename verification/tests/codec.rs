use ledger_hid::apdu::{APDUAnswer, APDUCommand};
use ledger_hid::error::{APDUAnswerError, APDUErrorCode};

fn roundtrip_serialize(cla: u8, ins: u8, p1: u8, p2: u8, data: Vec<u8>) {
    let cmd = APDUCommand { cla, ins, p1, p2, data: data.clone() };
    let bytes = cmd.serialize();
    assert_eq!(bytes.len(), 5 + data.len());
    assert_eq!(bytes[0], cla);
    assert_eq!(bytes[1], ins);
    assert_eq!(bytes[2], p1);
    assert_eq!(bytes[3], p2);
    assert_eq!(bytes[4], data.len() as u8);
    assert_eq!(&bytes[5..], &data[..]);
}

#[test]
fn serialize_empty_payload() {
    roundtrip_serialize(0xe0, 0x01, 0x00, 0x00, vec![]);
}

#[test]
fn serialize_one_byte_payload() {
    roundtrip_serialize(0xe0, 0xd8, 0x12, 0x34, vec![0xaa]);
}

#[test]
fn serialize_max_payload() {
    let data: Vec<u8> = (0..255).map(|i| i as u8).collect();
    roundtrip_serialize(0x80, 0x02, 0xff, 0x01, data);
}

#[test]
fn serialize_exact_bytes() {
    let cmd = APDUCommand { cla: 0xe0, ins: 0xd8, p1: 0x00, p2: 0x00, data: vec![0x42, 0x43] };
    assert_eq!(cmd.serialize(), vec![0xe0, 0xd8, 0x00, 0x00, 0x02, 0x42, 0x43]);
}

#[test]
fn decode_answer_status_only() {
    let answer = APDUAnswer::from_answer(vec![0x90, 0x00]).unwrap();
    assert_eq!(answer.apdu_data(), &[] as &[u8]);
    assert_eq!(answer.retcode(), 0x9000);
}

#[test]
fn decode_answer_with_payload() {
    let answer = APDUAnswer::from_answer(vec![0x01, 0x02, 0x90, 0x00]).unwrap();
    assert_eq!(answer.apdu_data(), &[0x01, 0x02]);
    assert_eq!(answer.retcode(), 0x9000);
}

#[test]
fn decode_answer_too_short() {
    let r = APDUAnswer::from_answer(vec![0x00]);
    assert_eq!(r.unwrap_err(), APDUAnswerError::TooShort);
}

#[test]
fn decode_answer_empty_too_short() {
    let r = APDUAnswer::from_answer(vec![]);
    assert_eq!(r.unwrap_err(), APDUAnswerError::TooShort);
}

#[test]
fn decode_answer_nonzero_status() {
    let answer = APDUAnswer::from_answer(vec![0xde, 0xad, 0x6a, 0x80]).unwrap();
    assert_eq!(answer.apdu_data(), &[0xde, 0xad]);
    assert_eq!(answer.retcode(), 0x6a80);
}

#[test]
fn error_code_values() {
    assert_eq!(APDUErrorCode::NoError.code(), 0x9000);
    assert_eq!(APDUErrorCode::IncorrectLength.code(), 0x6700);
    assert_eq!(APDUErrorCode::SecurityStatusNotSatisfied.code(), 0x6982);
    assert_eq!(APDUErrorCode::IncorrectP1P2.code(), 0x6b00);
    assert_eq!(APDUErrorCode::LockedDevice.code(), 0x5515);
    assert_eq!(APDUErrorCode::NotEnoughSpace.code(), 0x5102);
    assert_eq!(APDUErrorCode::SignVerifyError.code(), 0x6f01);
}

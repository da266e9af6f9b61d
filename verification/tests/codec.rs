use ibc_conn::codec::{
    decode_connection_cell, decode_envelope, decode_msg_connection_open_try, encode_connection,
    encode_envelope, encode_msg_connection_open_try, u64_of_be8, u64_to_be8,
};
use ibc_conn::conn::{ConnState, IbcConnections};
use ibc_conn::error::{Error, SysError};
use ibc_conn::msgs::{Envelope, MsgConnectionOpenTry, MsgType};

#[test]
fn height_bytes_are_exact_big_endian() {
    let bytes = u64_to_be8(0x0102030405060708);
    assert_eq!(bytes, vec![1, 2, 3, 4, 5, 6, 7, 8]);
    assert_eq!(u64_of_be8(&bytes), 0x0102030405060708);
    assert_eq!(u64_to_be8(0), vec![0; 8]);
    assert_eq!(u64_of_be8(&u64_to_be8(u64::MAX)), u64::MAX);
}

#[test]
fn connection_record_round_trips() {
    let conn = IbcConnections {
        state: ConnState::TryOpen,
        client_id: vec![5u8; 32],
        counterparty_client_id: vec![1, 2, 3],
        counterparty_connection_id: vec![],
        versions: vec![vec![1], vec![2, 2]],
    };
    let bytes = encode_connection(&conn);
    let back = decode_connection_cell(&bytes).unwrap();
    assert_eq!(back.state, ConnState::TryOpen);
    assert_eq!(back.client_id, conn.client_id);
    assert_eq!(back.counterparty_client_id, conn.counterparty_client_id);
    assert_eq!(back.counterparty_connection_id, conn.counterparty_connection_id);
    assert_eq!(back.versions, conn.versions);
}

#[test]
fn connection_with_bad_state_byte_rejects() {
    let conn = IbcConnections {
        state: ConnState::Init,
        client_id: vec![5u8; 32],
        counterparty_client_id: vec![1],
        counterparty_connection_id: vec![],
        versions: vec![vec![1]],
    };
    let mut bytes = encode_connection(&conn);
    // the state byte is the single byte of the first list item
    let pos = bytes.iter().position(|&b| b == 1).unwrap();
    bytes[pos] = 9;
    assert_eq!(decode_connection_cell(&bytes).unwrap_err().code(), Error::ConnectionEncoding.code());
}

#[test]
fn garbage_connection_bytes_reject() {
    assert!(decode_connection_cell(&vec![0xff, 0x00]).is_err());
    assert!(decode_connection_cell(&vec![]).is_err());
}

#[test]
fn envelope_round_trips() {
    let env = Envelope { msg_type: MsgType::MsgConnectionOpenAck, content: vec![7, 8, 9] };
    let bytes = encode_envelope(&env);
    let back = decode_envelope(&bytes).unwrap();
    assert_eq!(back.msg_type, MsgType::MsgConnectionOpenAck);
    assert_eq!(back.content, vec![7, 8, 9]);
}

#[test]
fn envelope_with_unknown_kind_byte_rejects() {
    let env = Envelope { msg_type: MsgType::MsgClientCreate, content: vec![] };
    let mut bytes = encode_envelope(&env);
    // the kind byte 0 sits as the one-byte first item right after the list header
    bytes[1] = 0x63;
    assert!(decode_envelope(&bytes).is_none());
}

#[test]
fn try_message_round_trips() {
    let msg = MsgConnectionOpenTry {
        proof_height: 424242,
        proof: vec![0xaa, 0xbb],
        counterparty_versions: vec![vec![1], vec![9, 9]],
    };
    let bytes = encode_msg_connection_open_try(&msg);
    let back = decode_msg_connection_open_try(&bytes).unwrap();
    assert_eq!(back.proof_height, 424242);
    assert_eq!(back.proof, vec![0xaa, 0xbb]);
    assert_eq!(back.counterparty_versions, msg.counterparty_versions);
}

#[test]
fn error_codes_are_nonzero_and_distinct() {
    let errors = vec![
        Error::IndexOutOfBound,
        Error::ItemMissing,
        Error::LengthNotEnough,
        Error::Encoding,
        Error::UnknownSysError,
        Error::ChannelEncoding,
        Error::PacketEncoding,
        Error::EnvelopeEncoding,
        Error::MsgEncoding,
        Error::WitnessIsNotExisted,
        Error::WitnessIsIncorrect,
        Error::WitnessTooMany,
        Error::LoadCellDataErr,
        Error::ChannelLock,
        Error::PacketLock,
        Error::UnexpectedMsg,
        Error::ChannelHashUnmatch,
        Error::PacketProofInvalid,
        Error::ConnectionEncoding,
        Error::ConnectionLock,
        Error::ConnectionHashUnmatch,
        Error::ConnectionProofInvalid,
        Error::ClientCreateWrongClientId,
        Error::LoadScriptErr,
    ];
    let codes: Vec<i8> = errors.iter().map(|e| e.code()).collect();
    for (i, a) in codes.iter().enumerate() {
        assert_ne!(*a, 0);
        for b in codes.iter().skip(i + 1) {
            assert_ne!(*a, *b);
        }
    }
    assert_eq!(Error::IndexOutOfBound.code(), 1);
    assert_eq!(Error::LoadScriptErr.code(), 24);
}

#[test]
fn host_signals_surface_verbatim() {
    assert_eq!(Error::from(SysError::IndexOutOfBound), Error::IndexOutOfBound);
    assert_eq!(Error::from(SysError::ItemMissing), Error::ItemMissing);
    assert_eq!(Error::from(SysError::LengthNotEnough(7)), Error::LengthNotEnough);
    assert_eq!(Error::from(SysError::Encoding), Error::Encoding);
    assert_eq!(Error::from(SysError::Unknown(3)), Error::UnknownSysError);
}

use ibc_conn::codec::{
    encode_connection, encode_envelope, encode_msg_connection_open_ack,
    encode_msg_connection_open_confirm, encode_msg_connection_open_init,
    encode_msg_connection_open_try,
};
use ibc_conn::conn::{ConnState, IbcConnections};
use ibc_conn::error::Error;
use ibc_conn::handler::LightClient;
use ibc_conn::msgs::{
    Envelope, MsgConnectionOpenAck, MsgConnectionOpenConfirm, MsgConnectionOpenInit,
    MsgConnectionOpenTry, MsgType,
};
use ibc_conn::tx::{CellInfo, Transaction, WitnessArgs};
use ibc_conn::{program_entry, verify_transaction};

use tiny_keccak::Hasher;

struct YesClient;

impl LightClient for YesClient {
    fn verify_membership(&self, _height: u64, _proof: &Vec<u8>, _value: &Vec<u8>) -> bool {
        true
    }
}

struct NoClient;

impl LightClient for NoClient {
    fn verify_membership(&self, _height: u64, _proof: &Vec<u8>, _value: &Vec<u8>) -> bool {
        false
    }
}

/// Accepts exactly one proof byte string, whatever the value queried.
struct ExactProofClient {
    proof: Vec<u8>,
}

impl LightClient for ExactProofClient {
    fn verify_membership(&self, _height: u64, proof: &Vec<u8>, _value: &Vec<u8>) -> bool {
        self.proof == *proof
    }
}

fn keccak(data: &[u8]) -> Vec<u8> {
    let mut hasher = tiny_keccak::Keccak::v256();
    hasher.update(data);
    let mut output = [0u8; 32];
    hasher.finalize(&mut output);
    output.to_vec()
}

fn client_id() -> Vec<u8> {
    let mut v = vec![0xabu8; 31];
    v.push(0xcd);
    v
}

fn conn(state: ConnState, versions: Vec<Vec<u8>>) -> IbcConnections {
    IbcConnections {
        state,
        client_id: client_id(),
        counterparty_client_id: vec![0x11, 0x22],
        counterparty_connection_id: vec![0x33],
        versions,
    }
}

fn handshake_tx(old: &IbcConnections, new: &IbcConnections, envelope: &Envelope) -> Transaction {
    let old_bytes = encode_connection(old);
    let new_bytes = encode_connection(new);
    let env_bytes = encode_envelope(envelope);
    Transaction {
        inputs: vec![CellInfo {
            lock_args: client_id(),
            type_args: None,
            data: keccak(&old_bytes),
        }],
        outputs: vec![CellInfo {
            lock_args: client_id(),
            type_args: None,
            data: keccak(&new_bytes),
        }],
        cell_deps: vec![CellInfo {
            lock_args: vec![],
            type_args: Some(client_id()),
            data: vec![0x42, 0x43],
        }],
        witnesses: vec![
            WitnessArgs { input_type: Some(old_bytes), output_type: Some(new_bytes) },
            WitnessArgs { input_type: None, output_type: Some(env_bytes) },
        ],
        script_args: Some(client_id()),
    }
}

fn try_envelope(proof: Vec<u8>, counterparty_versions: Vec<Vec<u8>>) -> Envelope {
    let msg = MsgConnectionOpenTry { proof_height: 77, proof, counterparty_versions };
    Envelope {
        msg_type: MsgType::MsgConnectionOpenTry,
        content: encode_msg_connection_open_try(&msg),
    }
}

#[test]
fn open_init_accepts() {
    let old = conn(ConnState::Uninitialized, vec![vec![1]]);
    let new = conn(ConnState::Init, vec![vec![1], vec![2]]);
    let envelope = Envelope {
        msg_type: MsgType::MsgConnectionOpenInit,
        content: encode_msg_connection_open_init(&MsgConnectionOpenInit {}),
    };
    let tx = handshake_tx(&old, &new, &envelope);
    assert!(verify_transaction(&tx, &NoClient).is_ok());
    assert_eq!(program_entry(&tx, &NoClient), 0);
}

#[test]
fn open_init_rejects_wrong_new_state() {
    let old = conn(ConnState::Uninitialized, vec![vec![1]]);
    let new = conn(ConnState::Open, vec![vec![1]]);
    let envelope = Envelope {
        msg_type: MsgType::MsgConnectionOpenInit,
        content: encode_msg_connection_open_init(&MsgConnectionOpenInit {}),
    };
    let tx = handshake_tx(&old, &new, &envelope);
    assert_eq!(verify_transaction(&tx, &YesClient), Err(Error::ConnectionProofInvalid));
}

#[test]
fn open_try_accepts_with_valid_proof() {
    let old = conn(ConnState::Init, vec![vec![1]]);
    let new = conn(ConnState::TryOpen, vec![vec![1], vec![2]]);
    let envelope = try_envelope(vec![9, 9, 9], vec![vec![2], vec![5]]);
    let tx = handshake_tx(&old, &new, &envelope);
    let verifier = ExactProofClient { proof: vec![9, 9, 9] };
    assert!(verify_transaction(&tx, &verifier).is_ok());
}

#[test]
fn open_try_accepts_from_fresh_record() {
    let old = conn(ConnState::Uninitialized, vec![vec![1]]);
    let new = conn(ConnState::TryOpen, vec![vec![7]]);
    let envelope = try_envelope(vec![1], vec![vec![7]]);
    let tx = handshake_tx(&old, &new, &envelope);
    assert!(verify_transaction(&tx, &YesClient).is_ok());
}

#[test]
fn open_try_rejects_flipped_proof_bit() {
    let old = conn(ConnState::Init, vec![vec![1]]);
    let new = conn(ConnState::TryOpen, vec![vec![1], vec![2]]);
    let envelope = try_envelope(vec![9, 9, 8], vec![vec![2], vec![5]]);
    let tx = handshake_tx(&old, &new, &envelope);
    let verifier = ExactProofClient { proof: vec![9, 9, 9] };
    assert_eq!(verify_transaction(&tx, &verifier), Err(Error::ConnectionProofInvalid));
}

#[test]
fn open_try_rejects_empty_version_intersection() {
    let old = conn(ConnState::Init, vec![vec![1]]);
    let new = conn(ConnState::TryOpen, vec![vec![1]]);
    let envelope = try_envelope(vec![9], vec![vec![2], vec![3]]);
    let tx = handshake_tx(&old, &new, &envelope);
    assert_eq!(verify_transaction(&tx, &YesClient), Err(Error::ConnectionProofInvalid));
}

#[test]
fn open_ack_accepts() {
    let old = conn(ConnState::Init, vec![vec![1], vec![2]]);
    let new = conn(ConnState::Open, vec![vec![2]]);
    let msg = MsgConnectionOpenAck { proof_height: 5, proof: vec![4], version: vec![2] };
    let envelope = Envelope {
        msg_type: MsgType::MsgConnectionOpenAck,
        content: encode_msg_connection_open_ack(&msg),
    };
    let tx = handshake_tx(&old, &new, &envelope);
    assert!(verify_transaction(&tx, &YesClient).is_ok());
}

#[test]
fn open_ack_rejects_old_state_neither_init_nor_tryopen() {
    let old = conn(ConnState::Open, vec![vec![1]]);
    let new = conn(ConnState::Open, vec![vec![2]]);
    let msg = MsgConnectionOpenAck { proof_height: 5, proof: vec![4], version: vec![2] };
    let envelope = Envelope {
        msg_type: MsgType::MsgConnectionOpenAck,
        content: encode_msg_connection_open_ack(&msg),
    };
    let tx = handshake_tx(&old, &new, &envelope);
    assert_eq!(verify_transaction(&tx, &YesClient), Err(Error::ConnectionProofInvalid));
}

#[test]
fn open_ack_rejects_unrecorded_version() {
    let old = conn(ConnState::Init, vec![vec![1]]);
    let new = conn(ConnState::Open, vec![vec![1], vec![2]]);
    let msg = MsgConnectionOpenAck { proof_height: 5, proof: vec![4], version: vec![1] };
    let envelope = Envelope {
        msg_type: MsgType::MsgConnectionOpenAck,
        content: encode_msg_connection_open_ack(&msg),
    };
    let tx = handshake_tx(&old, &new, &envelope);
    assert_eq!(verify_transaction(&tx, &YesClient), Err(Error::ConnectionProofInvalid));
}

#[test]
fn open_confirm_accepts() {
    let old = conn(ConnState::TryOpen, vec![vec![1]]);
    let new = conn(ConnState::Open, vec![vec![1]]);
    let msg = MsgConnectionOpenConfirm { proof_height: 12, proof: vec![6, 6] };
    let envelope = Envelope {
        msg_type: MsgType::MsgConnectionOpenConfirm,
        content: encode_msg_connection_open_confirm(&msg),
    };
    let tx = handshake_tx(&old, &new, &envelope);
    assert!(verify_transaction(&tx, &YesClient).is_ok());
}

#[test]
fn open_confirm_rejects_refused_proof() {
    let old = conn(ConnState::TryOpen, vec![vec![1]]);
    let new = conn(ConnState::Open, vec![vec![1]]);
    let msg = MsgConnectionOpenConfirm { proof_height: 12, proof: vec![6, 6] };
    let envelope = Envelope {
        msg_type: MsgType::MsgConnectionOpenConfirm,
        content: encode_msg_connection_open_confirm(&msg),
    };
    let tx = handshake_tx(&old, &new, &envelope);
    assert_eq!(verify_transaction(&tx, &NoClient), Err(Error::ConnectionProofInvalid));
}

#[test]
fn input_hash_mismatch_rejects_despite_valid_proof() {
    let old = conn(ConnState::Init, vec![vec![1]]);
    let new = conn(ConnState::TryOpen, vec![vec![1]]);
    let envelope = try_envelope(vec![9], vec![vec![1]]);
    let mut tx = handshake_tx(&old, &new, &envelope);
    tx.inputs[0].data[0] ^= 1;
    assert_eq!(verify_transaction(&tx, &YesClient), Err(Error::ConnectionHashUnmatch));
}

#[test]
fn output_hash_mismatch_rejects_despite_valid_proof() {
    let old = conn(ConnState::Init, vec![vec![1]]);
    let new = conn(ConnState::TryOpen, vec![vec![1]]);
    let envelope = try_envelope(vec![9], vec![vec![1]]);
    let mut tx = handshake_tx(&old, &new, &envelope);
    tx.outputs[0].data[31] ^= 0x80;
    assert_eq!(verify_transaction(&tx, &YesClient), Err(Error::ConnectionHashUnmatch));
}

#[test]
fn connection_lock_args_of_wrong_size_reject() {
    let old = conn(ConnState::Init, vec![vec![1]]);
    let new = conn(ConnState::TryOpen, vec![vec![1]]);
    let envelope = try_envelope(vec![9], vec![vec![1]]);
    let mut tx = handshake_tx(&old, &new, &envelope);
    tx.inputs[0].lock_args.push(0);
    assert_eq!(verify_transaction(&tx, &YesClient), Err(Error::ConnectionLock));
}

#[test]
fn malformed_message_payload_rejects() {
    let old = conn(ConnState::Init, vec![vec![1]]);
    let new = conn(ConnState::TryOpen, vec![vec![1]]);
    let envelope = Envelope { msg_type: MsgType::MsgConnectionOpenTry, content: vec![0xff] };
    let tx = handshake_tx(&old, &new, &envelope);
    assert_eq!(verify_transaction(&tx, &YesClient), Err(Error::MsgEncoding));
}

#[test]
fn client_create_accepts_matching_id() {
    let old = conn(ConnState::Uninitialized, vec![vec![1]]);
    let new = conn(ConnState::Init, vec![vec![1]]);
    let envelope = Envelope { msg_type: MsgType::MsgClientCreate, content: vec![] };
    let tx = handshake_tx(&old, &new, &envelope);
    assert!(verify_transaction(&tx, &NoClient).is_ok());
}

#[test]
fn client_create_rejects_single_differing_byte() {
    let old = conn(ConnState::Uninitialized, vec![vec![1]]);
    let new = conn(ConnState::Init, vec![vec![1]]);
    let envelope = Envelope { msg_type: MsgType::MsgClientCreate, content: vec![] };
    let mut tx = handshake_tx(&old, &new, &envelope);
    if let Some(args) = tx.script_args.as_mut() {
        args[17] ^= 0x04;
    }
    assert_eq!(verify_transaction(&tx, &YesClient), Err(Error::ClientCreateWrongClientId));
}

#[test]
fn channel_msgs_pass_through() {
    let old = conn(ConnState::Uninitialized, vec![vec![1]]);
    let new = conn(ConnState::Init, vec![vec![1]]);
    let kinds = vec![
        MsgType::MsgChannelOpenInit,
        MsgType::MsgChannelOpenTry,
        MsgType::MsgChannelOpenAck,
        MsgType::MsgChannelOpenConfirm,
    ];
    for kind in kinds {
        let envelope = Envelope { msg_type: kind, content: vec![0xde, 0xad] };
        let tx = handshake_tx(&old, &new, &envelope);
        assert!(verify_transaction(&tx, &NoClient).is_ok());
        assert_eq!(program_entry(&tx, &NoClient), 0);
    }
}

#[test]
fn unknown_msgs_reject_with_unexpected_msg() {
    let old = conn(ConnState::Uninitialized, vec![vec![1]]);
    let new = conn(ConnState::Init, vec![vec![1]]);
    let kinds = vec![
        MsgType::MsgClientUpdate,
        MsgType::MsgChannelCloseInit,
        MsgType::MsgChannelCloseConfirm,
        MsgType::MsgSendPacket,
        MsgType::MsgRecvPacket,
        MsgType::MsgAckPacket,
    ];
    for kind in kinds {
        let envelope = Envelope { msg_type: kind, content: vec![] };
        let tx = handshake_tx(&old, &new, &envelope);
        assert_eq!(verify_transaction(&tx, &YesClient), Err(Error::UnexpectedMsg));
    }
}

#[test]
fn too_many_witnesses_reject() {
    let old = conn(ConnState::Uninitialized, vec![vec![1]]);
    let new = conn(ConnState::Init, vec![vec![1]]);
    let envelope = Envelope { msg_type: MsgType::MsgChannelOpenInit, content: vec![] };
    let mut tx = handshake_tx(&old, &new, &envelope);
    while tx.witnesses.len() <= 99 {
        tx.witnesses.push(WitnessArgs { input_type: None, output_type: None });
    }
    assert_eq!(verify_transaction(&tx, &YesClient), Err(Error::WitnessTooMany));
}

#[test]
fn no_witnesses_reject() {
    let old = conn(ConnState::Uninitialized, vec![vec![1]]);
    let new = conn(ConnState::Init, vec![vec![1]]);
    let envelope = Envelope { msg_type: MsgType::MsgChannelOpenInit, content: vec![] };
    let mut tx = handshake_tx(&old, &new, &envelope);
    tx.witnesses.clear();
    assert_eq!(verify_transaction(&tx, &YesClient), Err(Error::IndexOutOfBound));
}

#[test]
fn missing_envelope_payload_rejects() {
    let old = conn(ConnState::Uninitialized, vec![vec![1]]);
    let new = conn(ConnState::Init, vec![vec![1]]);
    let envelope = Envelope { msg_type: MsgType::MsgChannelOpenInit, content: vec![] };
    let mut tx = handshake_tx(&old, &new, &envelope);
    let last = tx.witnesses.len() - 1;
    tx.witnesses[last].output_type = None;
    assert_eq!(verify_transaction(&tx, &YesClient), Err(Error::WitnessIsIncorrect));
}

#[test]
fn undecodable_envelope_rejects() {
    let old = conn(ConnState::Uninitialized, vec![vec![1]]);
    let new = conn(ConnState::Init, vec![vec![1]]);
    let envelope = Envelope { msg_type: MsgType::MsgChannelOpenInit, content: vec![] };
    let mut tx = handshake_tx(&old, &new, &envelope);
    let last = tx.witnesses.len() - 1;
    tx.witnesses[last].output_type = Some(vec![0x01, 0x02]);
    assert_eq!(verify_transaction(&tx, &YesClient), Err(Error::EnvelopeEncoding));
}

#[test]
fn missing_client_dep_cell_rejects() {
    let old = conn(ConnState::Init, vec![vec![1]]);
    let new = conn(ConnState::TryOpen, vec![vec![1]]);
    let envelope = try_envelope(vec![9], vec![vec![1]]);
    let mut tx = handshake_tx(&old, &new, &envelope);
    tx.cell_deps.clear();
    assert_eq!(verify_transaction(&tx, &YesClient), Err(Error::LoadCellDataErr));
}

#[test]
fn missing_connection_witness_payload_rejects() {
    let old = conn(ConnState::Init, vec![vec![1]]);
    let new = conn(ConnState::TryOpen, vec![vec![1]]);
    let envelope = try_envelope(vec![9], vec![vec![1]]);
    let mut tx = handshake_tx(&old, &new, &envelope);
    tx.witnesses[0].input_type = None;
    assert_eq!(verify_transaction(&tx, &YesClient), Err(Error::ConnectionEncoding));
}

#[test]
fn program_entry_reports_error_codes() {
    let old = conn(ConnState::Init, vec![vec![1]]);
    let new = conn(ConnState::TryOpen, vec![vec![1]]);
    let envelope = try_envelope(vec![9], vec![vec![1]]);
    let mut tx = handshake_tx(&old, &new, &envelope);
    tx.inputs[0].data[0] ^= 1;
    assert_eq!(program_entry(&tx, &YesClient), Error::ConnectionHashUnmatch.code());
    let tx2 = handshake_tx(&old, &new, &Envelope {
        msg_type: MsgType::MsgSendPacket,
        content: vec![],
    });
    assert_eq!(program_entry(&tx2, &YesClient), Error::UnexpectedMsg.code());
}

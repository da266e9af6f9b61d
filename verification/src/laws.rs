use vstd::prelude::*;

use crate::codec::{
    keccak_of, spec_decode_connection, spec_decode_msg_ack, spec_decode_msg_confirm,
    spec_decode_msg_init, spec_decode_msg_try,
};
use crate::conn::{ClientSpec, ConnSpec, ConnState};
use crate::error::Error;
use crate::handler::{
    spec_handle_ack, spec_verify, spec_versions_intersect, spec_well_formed_proposal,
};
use crate::loader::{spec_load_client, spec_load_connection, spec_load_envelope};
use crate::msgs::{EnvelopeSpec, MsgAckSpec, MsgType, spec_is_channel_msg, spec_is_connection_msg};
use crate::tx::{Source, Transaction};
use crate::{spec_check_create, spec_verify_transaction};

verus! {

/// Whether an envelope carries a handshake step that follows the legal
/// state sequence with all of the step's side conditions: its payload
/// decodes, the old and new states are the step's required pair, both sides
/// name the same connection instance, and the step's own checks hold.
pub open spec fn spec_legal_step(
    env: EnvelopeSpec,
    client: ClientSpec,
    old: ConnSpec,
    old_args: Seq<u8>,
    new: ConnSpec,
    new_args: Seq<u8>,
) -> bool {
    match env.msg_type {
        MsgType::MsgConnectionOpenInit => spec_decode_msg_init(env.content) && old.state
            == ConnState::Uninitialized && new.state == ConnState::Init && old_args == new_args
            && spec_well_formed_proposal(new) && new.client_id == client.id,
        MsgType::MsgConnectionOpenTry => spec_decode_msg_try(env.content) matches Some(m) && (
        old.state == ConnState::Uninitialized || old.state == ConnState::Init) && new.state
            == ConnState::TryOpen && old_args == new_args && spec_versions_intersect(
            m.counterparty_versions,
            new.versions,
        ),
        MsgType::MsgConnectionOpenAck => spec_decode_msg_ack(env.content) matches Some(m) && (
        old.state == ConnState::Init || old.state == ConnState::TryOpen) && new.state
            == ConnState::Open && old_args == new_args && new.versions == seq![m.version],
        MsgType::MsgConnectionOpenConfirm => spec_decode_msg_confirm(env.content) is Some
            && old.state == ConnState::TryOpen && new.state == ConnState::Open && old_args
            == new_args,
        _ => false,
    }
}

/// Every valid transaction is accepted: when the envelope locates and
/// decodes, the light client loads, both sides pass their hash-commitment
/// and decoding checks, the step follows the legal state sequence with its
/// side conditions, and the light client attests the step's proof, the
/// verifier's verdict is acceptance.
pub proof fn lemma_valid_handshake_accepted(
    tx: Transaction,
    env: EnvelopeSpec,
    client: ClientSpec,
    old: ConnSpec,
    old_args: Seq<u8>,
    new: ConnSpec,
    new_args: Seq<u8>,
)
    requires
        spec_load_envelope(tx) == Ok::<EnvelopeSpec, Error>(env),
        spec_is_connection_msg(env.msg_type),
        spec_load_client(tx) == Ok::<ClientSpec, Error>(client),
        spec_load_connection(tx, Source::Input) == Ok::<(ConnSpec, Seq<u8>), Error>(
            (old, old_args),
        ),
        spec_load_connection(tx, Source::Output) == Ok::<(ConnSpec, Seq<u8>), Error>(
            (new, new_args),
        ),
        spec_legal_step(env, client, old, old_args, new, new_args),
    ensures
        spec_verify_transaction(tx, true) == Ok::<(), Error>(()),
{
}

/// The designated witness payload of one side, for transactions whose shape
/// reaches the hash check on that side.
pub open spec fn spec_side_witness_bytes(tx: Transaction, source: Source) -> Seq<u8> {
    if source == Source::Input {
        tx.witnesses@[0].input_type->Some_0@
    } else {
        tx.witnesses@[0].output_type->Some_0@
    }
}

/// Whether one side's loading reaches its hash check: the cell exists, its
/// lock arguments parse, its data has commitment size, and the designated
/// witness payload is present.
pub open spec fn spec_side_reaches_hash_check(tx: Transaction, source: Source) -> bool {
    let cells = tx.cells_of(source);
    cells.len() > 0 && cells[0].lock_args@.len() == 32 && cells[0].data@.len() == 32
        && tx.witnesses@.len() > 0 && (if source == Source::Input {
        tx.witnesses@[0].input_type is Some
    } else {
        tx.witnesses@[0].output_type is Some
    })
}

/// A forged commitment is always caught: when the hash of a side's witness
/// payload differs from that side's committed cell data, the verdict is the
/// integrity error, whatever the light client would have answered. The
/// input side is checked first; the output side's mismatch decides only
/// when the input side's object also decodes.
pub proof fn lemma_hash_mismatch_rejected(tx: Transaction, env: EnvelopeSpec, proof_ok: bool)
    requires
        spec_load_envelope(tx) == Ok::<EnvelopeSpec, Error>(env),
        spec_is_connection_msg(env.msg_type),
        spec_load_client(tx) is Ok,
        spec_side_reaches_hash_check(tx, Source::Input),
        spec_side_reaches_hash_check(tx, Source::Output),
        keccak_of(spec_side_witness_bytes(tx, Source::Input)) != tx.inputs@[0].data@ || (
        spec_decode_connection(spec_side_witness_bytes(tx, Source::Input)) is Some && keccak_of(
            spec_side_witness_bytes(tx, Source::Output),
        ) != tx.outputs@[0].data@),
    ensures
        spec_verify_transaction(tx, proof_ok) == Err::<(), Error>(Error::ConnectionHashUnmatch),
{
}

/// A third step over an old record that is neither `Init` nor `TryOpen` is
/// always rejected by the step itself, whatever the light client answered.
pub proof fn lemma_ack_rejects_wrong_old_state(
    client: ClientSpec,
    old: ConnSpec,
    old_args: Seq<u8>,
    new: ConnSpec,
    new_args: Seq<u8>,
    msg: MsgAckSpec,
    proof_ok: bool,
)
    requires
        old.state != ConnState::Init,
        old.state != ConnState::TryOpen,
    ensures
        spec_handle_ack(client, old, old_args, new, new_args, msg, proof_ok) == Err::<(), Error>(
            Error::ConnectionProofInvalid,
        ),
{
}

/// And the whole verification call therefore rejects such a transaction.
pub proof fn lemma_ack_wrong_old_state_rejected(
    tx: Transaction,
    env: EnvelopeSpec,
    old: ConnSpec,
    old_args: Seq<u8>,
    proof_ok: bool,
)
    requires
        spec_load_envelope(tx) == Ok::<EnvelopeSpec, Error>(env),
        env.msg_type == MsgType::MsgConnectionOpenAck,
        spec_load_connection(tx, Source::Input) == Ok::<(ConnSpec, Seq<u8>), Error>(
            (old, old_args),
        ),
        old.state != ConnState::Init,
        old.state != ConnState::TryOpen,
    ensures
        spec_verify_transaction(tx, proof_ok) is Err,
{
}

/// A creation transaction whose script arguments differ from the loaded
/// client's id in even a single byte is rejected with the wrong-client-id
/// error.
pub proof fn lemma_create_single_byte_flip_rejects(
    tx: Transaction,
    client: ClientSpec,
    args: Seq<u8>,
    k: int,
)
    requires
        spec_load_client(tx) == Ok::<ClientSpec, Error>(client),
        (tx.script_args matches Some(v) && v@ == args),
        0 <= k < args.len(),
        k < client.id.len(),
        args[k] != client.id[k],
    ensures
        spec_check_create(tx) == Err::<(), Error>(Error::ClientCreateWrongClientId),
{
    assert(args != client.id);
}

/// Channel-handshake kinds pass through: a transaction whose envelope
/// carries one is accepted with no further checks, whatever the light
/// client would have answered.
pub proof fn lemma_channel_msgs_pass_through(tx: Transaction, env: EnvelopeSpec, proof_ok: bool)
    requires
        spec_load_envelope(tx) == Ok::<EnvelopeSpec, Error>(env),
        spec_is_channel_msg(env.msg_type),
    ensures
        spec_verify_transaction(tx, proof_ok) == Ok::<(), Error>(()),
{
    assert(!spec_is_connection_msg(env.msg_type));
}

/// Any kind this verifier neither decides nor passes through is rejected
/// with the unexpected-message error and nothing else: never a decode
/// error, never a proof error.
pub proof fn lemma_unknown_msg_rejected(tx: Transaction, env: EnvelopeSpec, proof_ok: bool)
    requires
        spec_load_envelope(tx) == Ok::<EnvelopeSpec, Error>(env),
        !spec_is_connection_msg(env.msg_type),
        !spec_is_channel_msg(env.msg_type),
        env.msg_type != MsgType::MsgClientCreate,
    ensures
        spec_verify_transaction(tx, proof_ok) == Err::<(), Error>(Error::UnexpectedMsg),
{
}

} // verus!

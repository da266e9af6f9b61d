use vstd::prelude::*;

use crate::codec::{
    bytes_eq, decode_msg_connection_open_ack, decode_msg_connection_open_confirm,
    decode_msg_connection_open_init, decode_msg_connection_open_try, spec_decode_msg_ack,
    spec_decode_msg_confirm, spec_decode_msg_init, spec_decode_msg_try,
};
use crate::conn::{
    Client, ClientSpec, ConnSpec, ConnState, ConnectionArgs, IbcConnections, spec_state_byte,
    state_byte,
};
use crate::error::Error;
use crate::msgs::{
    Envelope, EnvelopeSpec, MsgAckSpec, MsgConfirmSpec, MsgConnectionOpenAck,
    MsgConnectionOpenConfirm, MsgConnectionOpenInit, MsgConnectionOpenTry, MsgTrySpec, MsgType,
};

verus! {

/// The light client's opaque proof-verification capability. An
/// implementation answers whether, according to the client's verified
/// consensus state, the counterparty chain's state at the given height
/// contains the given value, as witnessed by the proof bytes. This core
/// never inspects proof internals; it only consumes the verdict, and treats
/// anything but an affirmative answer as a proof-invalid rejection.
pub trait LightClient {
    fn verify_membership(&self, height: u64, proof: &Vec<u8>, value: &Vec<u8>) -> bool;
}

/// Whether a proposed connection record is a well-formed proposal: a full
/// 32-byte client binding, a named counterparty, and at least one version on
/// offer.
pub open spec fn spec_well_formed_proposal(c: ConnSpec) -> bool {
    c.client_id.len() == 32 && c.counterparty_client_id.len() > 0 && c.versions.len() >= 1
}

/// Whether two version lists share at least one version.
pub open spec fn spec_versions_intersect(a: Seq<Seq<u8>>, b: Seq<Seq<u8>>) -> bool {
    exists|i: int, j: int| 0 <= i < a.len() && 0 <= j < b.len() && a[i] == b[j]
}

/// Whether two version lists share a version, checked pairwise.
pub fn versions_intersect(a: &Vec<Vec<u8>>, b: &Vec<Vec<u8>>) -> (r: bool)
    ensures
        r == spec_versions_intersect(a.deep_view(), b.deep_view()),
{
    proof {
        assert(forall|k: int| 0 <= k < a@.len() ==> a.deep_view()[k] == a@[k]@);
        assert(forall|k: int| 0 <= k < b@.len() ==> b.deep_view()[k] == b@[k]@);
    }
    let mut i: usize = 0;
    while i < a.len()
        invariant
            i <= a@.len(),
            forall|x: int, y: int|
                0 <= x < i && 0 <= y < b@.len() ==> a@[x]@ != b@[y]@,
        decreases a@.len() - i,
    {
        let mut j: usize = 0;
        while j < b.len()
            invariant
                i < a@.len(),
                j <= b@.len(),
                forall|y: int| 0 <= y < j ==> a@[i as int]@ != b@[y]@,
            decreases b@.len() - j,
        {
            if bytes_eq(&a[i], &b[j]) {
                proof {
                    assert(a.deep_view()[i as int] == a@[i as int]@);
                    assert(b.deep_view()[j as int] == b@[j as int]@);
                }
                return true;
            }
            j = j + 1;
        }
        i = i + 1;
    }
    proof {
        assert(forall|k: int| 0 <= k < a@.len() ==> a.deep_view()[k] == a@[k]@);
        assert(forall|k: int| 0 <= k < b@.len() ==> b.deep_view()[k] == b@[k]@);
    }
    false
}

/// The value a handshake step asks the light client to attest to: the
/// counterparty's claimed connection record, committed as its state byte
/// followed by its client binding and its counterparty's (this side's)
/// client id.
pub open spec fn spec_expected_value(
    state: ConnState,
    client_id: Seq<u8>,
    counterparty_client_id: Seq<u8>,
) -> Seq<u8> {
    seq![spec_state_byte(state)] + client_id + counterparty_client_id
}

/// Builds the value handed to the light client for attestation.
pub fn expected_counterparty_value(
    state: ConnState,
    client_id: &Vec<u8>,
    counterparty_client_id: &Vec<u8>,
) -> (r: Vec<u8>)
    ensures
        r@ == spec_expected_value(state, client_id@, counterparty_client_id@),
{
    let mut out: Vec<u8> = Vec::new();
    out.push(state_byte(state));
    let mut i: usize = 0;
    while i < client_id.len()
        invariant
            i <= client_id@.len(),
            out@ == seq![spec_state_byte(state)] + client_id@.subrange(0, i as int),
        decreases client_id@.len() - i,
    {
        out.push(client_id[i]);
        i = i + 1;
    }
    let mut j: usize = 0;
    while j < counterparty_client_id.len()
        invariant
            j <= counterparty_client_id@.len(),
            out@ == seq![spec_state_byte(state)] + client_id@ + counterparty_client_id@.subrange(
                0,
                j as int,
            ),
        decreases counterparty_client_id@.len() - j,
    {
        out.push(counterparty_client_id[j]);
        j = j + 1;
    }
    proof {
        assert(out@ =~= spec_expected_value(state, client_id@, counterparty_client_id@));
    }
    out
}

/// The first handshake step: legal only from a fresh record to `Init`, with
/// both sides naming the same connection instance, a well-formed proposal,
/// and the new record bound to the invoking client. No proof is consulted.
pub open spec fn spec_handle_init(
    client: ClientSpec,
    old: ConnSpec,
    old_args: Seq<u8>,
    new: ConnSpec,
    new_args: Seq<u8>,
) -> Result<(), Error> {
    if old.state == ConnState::Uninitialized && new.state == ConnState::Init && old_args == new_args
        && spec_well_formed_proposal(new) && new.client_id == client.id {
        Ok(())
    } else {
        Err(Error::ConnectionProofInvalid)
    }
}

/// The second handshake step: legal from a fresh or counterparty-initiated
/// `Init` record to `TryOpen`, with matching instances, a nonempty version
/// intersection, and the client attesting the counterparty's `Init` record.
pub open spec fn spec_handle_try(
    client: ClientSpec,
    old: ConnSpec,
    old_args: Seq<u8>,
    new: ConnSpec,
    new_args: Seq<u8>,
    msg: MsgTrySpec,
    proof_ok: bool,
) -> Result<(), Error> {
    if (old.state == ConnState::Uninitialized || old.state == ConnState::Init) && new.state
        == ConnState::TryOpen && old_args == new_args && spec_versions_intersect(
        msg.counterparty_versions,
        new.versions,
    ) && proof_ok {
        Ok(())
    } else {
        Err(Error::ConnectionProofInvalid)
    }
}

/// The third handshake step: legal from `Init` or `TryOpen` to `Open`, with
/// matching instances, the selected version recorded as the new record's one
/// version, and the client attesting the counterparty's `TryOpen` record.
pub open spec fn spec_handle_ack(
    client: ClientSpec,
    old: ConnSpec,
    old_args: Seq<u8>,
    new: ConnSpec,
    new_args: Seq<u8>,
    msg: MsgAckSpec,
    proof_ok: bool,
) -> Result<(), Error> {
    if (old.state == ConnState::Init || old.state == ConnState::TryOpen) && new.state
        == ConnState::Open && old_args == new_args && new.versions == seq![msg.version]
        && proof_ok {
        Ok(())
    } else {
        Err(Error::ConnectionProofInvalid)
    }
}

/// The final handshake step: legal from `TryOpen` to `Open`, with matching
/// instances and the client attesting the counterparty's `Open` record.
pub open spec fn spec_handle_confirm(
    client: ClientSpec,
    old: ConnSpec,
    old_args: Seq<u8>,
    new: ConnSpec,
    new_args: Seq<u8>,
    msg: MsgConfirmSpec,
    proof_ok: bool,
) -> Result<(), Error> {
    if old.state == ConnState::TryOpen && new.state == ConnState::Open && old_args == new_args
        && proof_ok {
        Ok(())
    } else {
        Err(Error::ConnectionProofInvalid)
    }
}

/// Decides the first step once all inputs are in hand.
pub fn check_open_init(
    client: &Client,
    old: &IbcConnections,
    old_args: &ConnectionArgs,
    new: &IbcConnections,
    new_args: &ConnectionArgs,
) -> (r: Result<(), Error>)
    ensures
        r == spec_handle_init(client@, old@, old_args@, new@, new_args@),
{
    let ok = old.state == ConnState::Uninitialized && new.state == ConnState::Init && bytes_eq(
        &old_args.client_id,
        &new_args.client_id,
    ) && new.client_id.len() == 32 && new.counterparty_client_id.len() > 0 && new.versions.len()
        >= 1 && bytes_eq(&new.client_id, &client.id);
    if ok {
        Ok(())
    } else {
        Err(Error::ConnectionProofInvalid)
    }
}

/// Decides the second step once the light client has answered.
pub fn check_open_try(
    client: &Client,
    old: &IbcConnections,
    old_args: &ConnectionArgs,
    new: &IbcConnections,
    new_args: &ConnectionArgs,
    msg: &MsgConnectionOpenTry,
    proof_ok: bool,
) -> (r: Result<(), Error>)
    ensures
        r == spec_handle_try(client@, old@, old_args@, new@, new_args@, msg@, proof_ok),
{
    let ok = (old.state == ConnState::Uninitialized || old.state == ConnState::Init) && new.state
        == ConnState::TryOpen && bytes_eq(&old_args.client_id, &new_args.client_id)
        && versions_intersect(&msg.counterparty_versions, &new.versions) && proof_ok;
    if ok {
        Ok(())
    } else {
        Err(Error::ConnectionProofInvalid)
    }
}

/// Decides the third step once the light client has answered.
pub fn check_open_ack(
    client: &Client,
    old: &IbcConnections,
    old_args: &ConnectionArgs,
    new: &IbcConnections,
    new_args: &ConnectionArgs,
    msg: &MsgConnectionOpenAck,
    proof_ok: bool,
) -> (r: Result<(), Error>)
    ensures
        r == spec_handle_ack(client@, old@, old_args@, new@, new_args@, msg@, proof_ok),
{
    let single = if new.versions.len() == 1 {
        bytes_eq(&new.versions[0], &msg.version)
    } else {
        false
    };
    proof {
        assert(new@.versions.len() == new.versions@.len());
        if new.versions@.len() == 1 {
            assert(new@.versions[0] =~= new.versions@[0]@);
            if new.versions@[0]@ == msg.version@ {
                assert(new@.versions =~= seq![msg@.version]);
            } else {
                assert(new@.versions != seq![msg@.version]) by {
                    if new@.versions == seq![msg@.version] {
                        assert(new@.versions[0] == msg@.version);
                    }
                }
            }
        } else {
            assert(new@.versions != seq![msg@.version]) by {
                if new@.versions == seq![msg@.version] {
                    assert(new@.versions.len() == 1);
                }
            }
        }
    }
    let ok = (old.state == ConnState::Init || old.state == ConnState::TryOpen) && new.state
        == ConnState::Open && bytes_eq(&old_args.client_id, &new_args.client_id) && single
        && proof_ok;
    if ok {
        Ok(())
    } else {
        Err(Error::ConnectionProofInvalid)
    }
}

/// Decides the final step once the light client has answered.
pub fn check_open_confirm(
    client: &Client,
    old: &IbcConnections,
    old_args: &ConnectionArgs,
    new: &IbcConnections,
    new_args: &ConnectionArgs,
    msg: &MsgConnectionOpenConfirm,
    proof_ok: bool,
) -> (r: Result<(), Error>)
    ensures
        r == spec_handle_confirm(client@, old@, old_args@, new@, new_args@, msg@, proof_ok),
{
    let ok = old.state == ConnState::TryOpen && new.state == ConnState::Open && bytes_eq(
        &old_args.client_id,
        &new_args.client_id,
    ) && proof_ok;
    if ok {
        Ok(())
    } else {
        Err(Error::ConnectionProofInvalid)
    }
}

/// Handles the first handshake step; no proof is consulted, so the verdict
/// is exact.
pub fn handle_msg_connection_open_init(
    client: &Client,
    old: &IbcConnections,
    old_args: &ConnectionArgs,
    new: &IbcConnections,
    new_args: &ConnectionArgs,
    _msg: &MsgConnectionOpenInit,
) -> (r: Result<(), Error>)
    ensures
        r == spec_handle_init(client@, old@, old_args@, new@, new_args@),
{
    check_open_init(client, old, old_args, new, new_args)
}

/// Handles the second handshake step: asks the light client to attest the
/// counterparty's `Init` record, then decides. Whatever the client
/// answered, the verdict is the step's decision for that answer.
pub fn handle_msg_connection_open_try<C: LightClient>(
    verifier: &C,
    client: &Client,
    old: &IbcConnections,
    old_args: &ConnectionArgs,
    new: &IbcConnections,
    new_args: &ConnectionArgs,
    msg: &MsgConnectionOpenTry,
) -> (r: Result<(), Error>)
    ensures
        r == spec_handle_try(client@, old@, old_args@, new@, new_args@, msg@, true) || r
            == spec_handle_try(client@, old@, old_args@, new@, new_args@, msg@, false),
{
    let expected = expected_counterparty_value(
        ConnState::Init,
        &new.counterparty_client_id,
        &new.client_id,
    );
    let ok = verifier.verify_membership(msg.proof_height, &msg.proof, &expected);
    check_open_try(client, old, old_args, new, new_args, msg, ok)
}

/// Handles the third handshake step: asks the light client to attest the
/// counterparty's `TryOpen` record, then decides.
pub fn handle_msg_connection_open_ack<C: LightClient>(
    verifier: &C,
    client: &Client,
    old: &IbcConnections,
    old_args: &ConnectionArgs,
    new: &IbcConnections,
    new_args: &ConnectionArgs,
    msg: &MsgConnectionOpenAck,
) -> (r: Result<(), Error>)
    ensures
        r == spec_handle_ack(client@, old@, old_args@, new@, new_args@, msg@, true) || r
            == spec_handle_ack(client@, old@, old_args@, new@, new_args@, msg@, false),
{
    let expected = expected_counterparty_value(
        ConnState::TryOpen,
        &new.counterparty_client_id,
        &new.client_id,
    );
    let ok = verifier.verify_membership(msg.proof_height, &msg.proof, &expected);
    check_open_ack(client, old, old_args, new, new_args, msg, ok)
}

/// Handles the final handshake step: asks the light client to attest the
/// counterparty's `Open` record, then decides.
pub fn handle_msg_connection_open_confirm<C: LightClient>(
    verifier: &C,
    client: &Client,
    old: &IbcConnections,
    old_args: &ConnectionArgs,
    new: &IbcConnections,
    new_args: &ConnectionArgs,
    msg: &MsgConnectionOpenConfirm,
) -> (r: Result<(), Error>)
    ensures
        r == spec_handle_confirm(client@, old@, old_args@, new@, new_args@, msg@, true) || r
            == spec_handle_confirm(client@, old@, old_args@, new@, new_args@, msg@, false),
{
    let expected = expected_counterparty_value(
        ConnState::Open,
        &new.counterparty_client_id,
        &new.client_id,
    );
    let ok = verifier.verify_membership(msg.proof_height, &msg.proof, &expected);
    check_open_confirm(client, old, old_args, new, new_args, msg, ok)
}

/// What dispatching a connection-handshake envelope decides, given the light
/// client's answer: the payload must decode for the kind, and the kind's
/// step must accept; any kind outside the four steps is unexpected here.
pub open spec fn spec_verify(
    old: ConnSpec,
    old_args: Seq<u8>,
    new: ConnSpec,
    new_args: Seq<u8>,
    env: EnvelopeSpec,
    client: ClientSpec,
    proof_ok: bool,
) -> Result<(), Error> {
    match env.msg_type {
        MsgType::MsgConnectionOpenInit => if spec_decode_msg_init(env.content) {
            spec_handle_init(client, old, old_args, new, new_args)
        } else {
            Err(Error::MsgEncoding)
        },
        MsgType::MsgConnectionOpenTry => match spec_decode_msg_try(env.content) {
            None => Err(Error::MsgEncoding),
            Some(m) => spec_handle_try(client, old, old_args, new, new_args, m, proof_ok),
        },
        MsgType::MsgConnectionOpenAck => match spec_decode_msg_ack(env.content) {
            None => Err(Error::MsgEncoding),
            Some(m) => spec_handle_ack(client, old, old_args, new, new_args, m, proof_ok),
        },
        MsgType::MsgConnectionOpenConfirm => match spec_decode_msg_confirm(env.content) {
            None => Err(Error::MsgEncoding),
            Some(m) => spec_handle_confirm(client, old, old_args, new, new_args, m, proof_ok),
        },
        _ => Err(Error::UnexpectedMsg),
    }
}

/// Routes a connection-handshake envelope to its step's handler: decodes
/// the payload for the kind, delegates the proof check, and decides.
pub fn verify<C: LightClient>(
    old: IbcConnections,
    old_args: ConnectionArgs,
    new: IbcConnections,
    new_args: ConnectionArgs,
    envelope: Envelope,
    client: Client,
    verifier: &C,
) -> (r: Result<(), Error>)
    ensures
        r == spec_verify(old@, old_args@, new@, new_args@, envelope@, client@, true) || r
            == spec_verify(old@, old_args@, new@, new_args@, envelope@, client@, false),
{
    match envelope.msg_type {
        MsgType::MsgConnectionOpenInit => {
            let msg = match decode_msg_connection_open_init(&envelope.content) {
                Some(m) => m,
                None => { return Err(Error::MsgEncoding); },
            };
            handle_msg_connection_open_init(&client, &old, &old_args, &new, &new_args, &msg)
        },
        MsgType::MsgConnectionOpenTry => {
            let msg = match decode_msg_connection_open_try(&envelope.content) {
                Some(m) => m,
                None => { return Err(Error::MsgEncoding); },
            };
            handle_msg_connection_open_try(
                verifier,
                &client,
                &old,
                &old_args,
                &new,
                &new_args,
                &msg,
            )
        },
        MsgType::MsgConnectionOpenAck => {
            let msg = match decode_msg_connection_open_ack(&envelope.content) {
                Some(m) => m,
                None => { return Err(Error::MsgEncoding); },
            };
            handle_msg_connection_open_ack(
                verifier,
                &client,
                &old,
                &old_args,
                &new,
                &new_args,
                &msg,
            )
        },
        MsgType::MsgConnectionOpenConfirm => {
            let msg = match decode_msg_connection_open_confirm(&envelope.content) {
                Some(m) => m,
                None => { return Err(Error::MsgEncoding); },
            };
            handle_msg_connection_open_confirm(
                verifier,
                &client,
                &old,
                &old_args,
                &new,
                &new_args,
                &msg,
            )
        },
        _ => Err(Error::UnexpectedMsg),
    }
}

} // verus!

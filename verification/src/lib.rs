//! On-chain verifier for the handshake phase of an inter-blockchain
//! connection protocol. Given a read-only snapshot of one transaction, the
//! verifier decides whether the transaction's claimed transition of a
//! committed connection object is protocol-legal and backed by a light
//! client's verified view of the counterparty chain. The decision is
//! all-or-nothing: the first failed check rejects the whole transaction.

pub mod codec;
pub mod conn;
pub mod error;
pub mod handler;
pub mod laws;
pub mod loader;
pub mod msgs;
pub mod tx;

use vstd::prelude::*;

use crate::codec::bytes_eq;
use crate::error::{Error, error_code};
use crate::handler::{LightClient, spec_verify, verify};
use crate::loader::{
    load_client, load_connection, load_envelope, spec_load_client, spec_load_connection,
    spec_load_envelope,
};
use crate::msgs::{MsgType, spec_is_channel_msg, spec_is_connection_msg};
use crate::tx::{Source, Transaction};

verus! {

/// What the client-creation identity check decides: the invoking script's
/// own argument bytes must equal the loaded client's id bit for bit.
pub open spec fn spec_check_create(tx: Transaction) -> Result<(), Error> {
    match spec_load_client(tx) {
        Err(e) => Err(e),
        Ok(client) => match tx.script_args {
            None => Err(Error::LoadScriptErr),
            Some(a) => if a@ == client.id {
                Ok(())
            } else {
                Err(Error::ClientCreateWrongClientId)
            },
        },
    }
}

/// Client creation: loads the referenced light client and accepts exactly
/// when the invoking script's argument bytes equal the client's id. A
/// creation transaction cannot bind itself to a client cell it was not
/// paired with by construction.
pub fn check_create(tx: &Transaction) -> (r: Result<(), Error>)
    ensures
        r == spec_check_create(*tx),
{
    let client = match load_client(tx) {
        Ok(c) => c,
        Err(e) => { return Err(e); },
    };
    let args = match tx.load_script() {
        Ok(a) => a,
        Err(_) => { return Err(Error::LoadScriptErr); },
    };
    if bytes_eq(args, &client.id) {
        Ok(())
    } else {
        Err(Error::ClientCreateWrongClientId)
    }
}

/// What one whole verification call decides, given the light client's
/// answer: locate the envelope; for connection-handshake kinds load the
/// client and both integrity-checked sides and run the step; channel kinds
/// pass through; client creation runs the identity check; anything else is
/// unexpected.
pub open spec fn spec_verify_transaction(tx: Transaction, proof_ok: bool) -> Result<(), Error> {
    match spec_load_envelope(tx) {
        Err(e) => Err(e),
        Ok(env) => if spec_is_connection_msg(env.msg_type) {
            match spec_load_client(tx) {
                Err(e) => Err(e),
                Ok(client) => match spec_load_connection(tx, Source::Input) {
                    Err(e) => Err(e),
                    Ok(old) => match spec_load_connection(tx, Source::Output) {
                        Err(e) => Err(e),
                        Ok(new) => spec_verify(old.0, old.1, new.0, new.1, env, client, proof_ok),
                    },
                },
            }
        } else if spec_is_channel_msg(env.msg_type) {
            Ok(())
        } else if env.msg_type == MsgType::MsgClientCreate {
            spec_check_create(tx)
        } else {
            Err(Error::UnexpectedMsg)
        },
    }
}

/// One whole verification call over a transaction snapshot. The verdict is
/// the decision for whichever answer the light client capability gave.
pub fn verify_transaction<C: LightClient>(tx: &Transaction, verifier: &C) -> (r: Result<(), Error>)
    ensures
        r == spec_verify_transaction(*tx, true) || r == spec_verify_transaction(*tx, false),
{
    let envelope = match load_envelope(tx) {
        Ok(e) => e,
        Err(e) => { return Err(e); },
    };
    if crate::msgs::is_connection_msg(envelope.msg_type) {
        let client = match load_client(tx) {
            Ok(c) => c,
            Err(e) => { return Err(e); },
        };
        let (old, old_args) = match load_connection(tx, Source::Input) {
            Ok(p) => p,
            Err(e) => { return Err(e); },
        };
        let (new, new_args) = match load_connection(tx, Source::Output) {
            Ok(p) => p,
            Err(e) => { return Err(e); },
        };
        verify(old, old_args, new, new_args, envelope, client, verifier)
    } else if crate::msgs::is_channel_msg(envelope.msg_type) {
        Ok(())
    } else if matches!(envelope.msg_type, MsgType::MsgClientCreate) {
        check_create(tx)
    } else {
        Err(Error::UnexpectedMsg)
    }
}

/// The status a verdict maps to at the process boundary: zero for
/// acceptance, the error's own nonzero code otherwise.
pub open spec fn spec_status_of(r: Result<(), Error>) -> i8 {
    match r {
        Ok(_) => 0,
        Err(e) => error_code(e),
    }
}

/// The process entry: runs one verification call and hands the host the
/// status code of its verdict.
pub fn program_entry<C: LightClient>(tx: &Transaction, verifier: &C) -> (code: i8)
    ensures
        code == spec_status_of(spec_verify_transaction(*tx, true)) || code == spec_status_of(
            spec_verify_transaction(*tx, false),
        ),
{
    match verify_transaction(tx, verifier) {
        Ok(_) => 0,
        Err(e) => e.code(),
    }
}

} // verus!

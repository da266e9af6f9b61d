use vstd::prelude::*;

use crate::codec::{
    decode_connection_cell, decode_envelope, hash_matches, keccak256, keccak_of,
    spec_decode_connection, spec_decode_envelope,
};
use crate::conn::{Client, ClientSpec, ConnSpec, ConnectionArgs, IbcConnections};
use crate::error::{Error, SysError, error_of_sys};
use crate::msgs::{Envelope, EnvelopeSpec};
use crate::tx::{Source, Transaction, WitnessArgs};

verus! {

/// The sentinel index probed to rule out an unscannable number of witnesses:
/// a transaction with more entries than this is rejected out of hand.
pub open spec fn spec_witness_sentinel() -> int {
    99
}

/// What locating and decoding the governing envelope yields for a
/// transaction: the host is probed at a large sentinel index, which must
/// signal out-of-range; the last in-range witness entry's output-typed
/// payload then carries the envelope.
pub open spec fn spec_load_envelope(tx: Transaction) -> Result<EnvelopeSpec, Error> {
    if tx.witnesses@.len() > spec_witness_sentinel() {
        Err(Error::WitnessTooMany)
    } else if tx.witnesses@.len() == 0 {
        Err(Error::IndexOutOfBound)
    } else {
        match tx.witnesses@.last().output_type {
            None => Err(Error::WitnessIsIncorrect),
            Some(bytes) => match spec_decode_envelope(bytes@) {
                None => Err(Error::EnvelopeEncoding),
                Some(e) => Ok(e),
            },
        }
    }
}

/// Locates the single governing envelope among the witnesses: probes the
/// sentinel index, scans forward until the host signals out-of-range, and
/// decodes the last in-range entry's output-typed payload.
pub fn load_envelope(tx: &Transaction) -> (r: Result<Envelope, Error>)
    ensures
        match spec_load_envelope(*tx) {
            Ok(e) => (r matches Ok(env) && env@ == e),
            Err(er) => r == Err::<Envelope, Error>(er),
        },
{
    match tx.load_witness_args(99, Source::Input) {
        Err(SysError::IndexOutOfBound) => (),
        _ => { return Err(Error::WitnessTooMany); },
    }
    let mut count: usize = 0;
    let mut done = false;
    while !done
        invariant
            count <= tx.witnesses@.len() <= 99,
            done ==> count == tx.witnesses@.len(),
        decreases 2 * (99 - count) + (if done { 0int } else { 1int }),
    {
        if count >= 99 {
            done = true;
        } else {
            match tx.load_witness_args(count, Source::Input) {
                Ok(_) => { count = count + 1; },
                Err(_) => { done = true; },
            }
        }
    }
    if count == 0 {
        return Err(Error::IndexOutOfBound);
    }
    let last = match tx.load_witness_args(count - 1, Source::Input) {
        Ok(w) => w,
        Err(e) => { return Err(Error::from(e)); },
    };
    let bytes = match &last.output_type {
        Some(b) => b,
        None => { return Err(Error::WitnessIsIncorrect); },
    };
    match decode_envelope(bytes) {
        Some(env) => Ok(env),
        None => Err(Error::EnvelopeEncoding),
    }
}

/// What loading one side's committed connection yields: the lock script's
/// argument bytes must parse as connection arguments; the cell's data must
/// be a 32-byte commitment; the side's designated witness payload must be
/// present and hash bit-exactly to that commitment; and the payload must
/// decode as a connection record.
pub open spec fn spec_load_connection(tx: Transaction, source: Source) -> Result<
    (ConnSpec, Seq<u8>),
    Error,
> {
    let cells = tx.cells_of(source);
    if cells.len() == 0 {
        Err(Error::ConnectionLock)
    } else if cells[0].lock_args@.len() != 32 {
        Err(Error::ConnectionLock)
    } else if cells[0].data@.len() != 32 {
        Err(Error::ConnectionHashUnmatch)
    } else if tx.witnesses@.len() == 0 {
        Err(Error::IndexOutOfBound)
    } else {
        let field = if source == Source::Input {
            tx.witnesses@[0].input_type
        } else {
            tx.witnesses@[0].output_type
        };
        match field {
            None => Err(Error::ConnectionEncoding),
            Some(bytes) => if keccak_of(bytes@) != cells[0].data@ {
                Err(Error::ConnectionHashUnmatch)
            } else {
                match spec_decode_connection(bytes@) {
                    None => Err(Error::ConnectionEncoding),
                    Some(c) => Ok((c, cells[0].lock_args@)),
                }
            },
        }
    }
}

/// Loads one side's committed connection record and arguments, enforcing the
/// hash commitment: the witness-carried object is trusted only because its
/// digest equals the 32 bytes committed in the cell it claims to describe.
pub fn load_connection(tx: &Transaction, source: Source) -> (r: Result<
    (IbcConnections, ConnectionArgs),
    Error,
>)
    ensures
        match spec_load_connection(*tx, source) {
            Ok(p) => (r matches Ok(q) && q.0@ == p.0 && q.1@ == p.1),
            Err(er) => (r matches Err(e) && e == er),
        },
{
    let lock_args = match tx.load_lock_script(0, source) {
        Ok(a) => a,
        Err(_) => { return Err(Error::ConnectionLock); },
    };
    let args = match ConnectionArgs::from_slice(lock_args) {
        Some(a) => a,
        None => { return Err(Error::ConnectionLock); },
    };
    let data = match tx.load_cell_data(0, source) {
        Ok(d) => d,
        Err(_) => { return Err(Error::ConnectionHashUnmatch); },
    };
    if data.len() != 32 {
        return Err(Error::ConnectionHashUnmatch);
    }
    let witness = match tx.load_witness_args(0, source) {
        Ok(w) => w,
        Err(e) => { return Err(Error::from(e)); },
    };
    let bytes = match if matches!(source, Source::Input) {
        &witness.input_type
    } else {
        &witness.output_type
    } {
        Some(b) => b,
        None => { return Err(Error::ConnectionEncoding); },
    };
    let digest = keccak256(bytes.as_slice());
    if !hash_matches(&digest, data) {
        return Err(Error::ConnectionHashUnmatch);
    }
    match decode_connection_cell(bytes) {
        Ok(conn) => Ok((conn, args)),
        Err(e) => Err(e),
    }
}

/// What loading the light client yields: the first dependency cell's data is
/// the verified state blob and its type script's argument bytes are the
/// 32-byte client id; any missing piece or wrong id size is a load failure.
pub open spec fn spec_load_client(tx: Transaction) -> Result<ClientSpec, Error> {
    let deps = tx.cells_of(Source::CellDep);
    if deps.len() == 0 {
        Err(Error::LoadCellDataErr)
    } else {
        match deps[0].type_args {
            None => Err(Error::LoadCellDataErr),
            Some(a) => if a@.len() != 32 {
                Err(Error::LoadCellDataErr)
            } else {
                Ok(ClientSpec { id: a@, state: deps[0].data@ })
            },
        }
    }
}

/// Loads the light client referenced by the first dependency cell.
pub fn load_client(tx: &Transaction) -> (r: Result<Client, Error>)
    ensures
        match spec_load_client(*tx) {
            Ok(c) => (r matches Ok(client) && client@ == c),
            Err(er) => (r matches Err(e) && e == er),
        },
{
    let data = match tx.load_cell_data(0, Source::CellDep) {
        Ok(d) => d,
        Err(_) => { return Err(Error::LoadCellDataErr); },
    };
    let type_args = match tx.load_type_script(0, Source::CellDep) {
        Ok(Some(a)) => a,
        _ => { return Err(Error::LoadCellDataErr); },
    };
    if type_args.len() != 32 {
        return Err(Error::LoadCellDataErr);
    }
    Ok(
        Client {
            id: crate::codec::copy_bytes(type_args),
            state: crate::codec::copy_bytes(data),
        },
    )
}

} // verus!

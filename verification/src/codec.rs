use vstd::prelude::*;

use tiny_keccak::Hasher;

use crate::conn::{ConnSpec, IbcConnections, spec_state_byte, spec_state_of_byte, state_byte, state_of_byte};
use crate::error::Error;
use crate::msgs::{
    Envelope, EnvelopeSpec, MsgAckSpec, MsgConfirmSpec, MsgConnectionOpenAck,
    MsgConnectionOpenConfirm, MsgConnectionOpenInit, MsgConnectionOpenTry, MsgTrySpec,
    msg_type_byte, msg_type_of_byte, spec_msg_type_byte, spec_msg_type_of_byte,
};

verus! {

/// What the recursive-length-prefixed codec reads out of a byte string: the
/// byte-string items of the one top-level list, or nothing when the bytes do
/// not decode as such a list.
pub uninterp spec fn rlp_items_of(bytes: Seq<u8>) -> Option<Seq<Seq<u8>>>;

/// Relies on rlp::Rlp::as_list::<Vec<u8>>: whether and to what a byte string
/// decodes is a pure function of the bytes.
#[verifier::external_body]
fn rlp_decode_items(bytes: &Vec<u8>) -> (r: Option<Vec<Vec<u8>>>)
    ensures
        (r is Some <==> rlp_items_of(bytes@) is Some),
        (r matches Some(v) ==> {
            let items = rlp_items_of(bytes@)->Some_0;
            v@.len() == items.len() && (forall|i: int| 0 <= i < items.len() ==> v@[i]@ == items[i])
        }),
{
    rlp::Rlp::new(bytes.as_slice()).as_list::<Vec<u8>>().ok()
}

/// Relies on rlp::encode_list and the codec's encode/decode round trip:
/// decoding the bytes it produces yields back exactly the appended
/// byte-string items.
#[verifier::external_body]
fn rlp_encode_items(items: &Vec<Vec<u8>>) -> (r: Vec<u8>)
    ensures
        rlp_items_of(r@) is Some,
        rlp_items_of(r@)->Some_0.len() == items@.len(),
        forall|i: int| 0 <= i < items@.len() ==> rlp_items_of(r@)->Some_0[i] == items@[i]@,
{
    rlp::encode_list::<Vec<u8>, Vec<u8>>(items.as_slice()).to_vec()
}

/// What the 256-bit hash primitive computes: the 32-byte digest of a byte
/// string, a pure function of its input.
pub uninterp spec fn keccak_of(bytes: Seq<u8>) -> Seq<u8>;

/// Relies on tiny_keccak::Keccak (v256 parameters): the digest is 32 bytes
/// and depends on the input bytes alone.
#[verifier::external_body]
pub(crate) fn keccak256(slice: &[u8]) -> (r: [u8; 32])
    ensures
        r@ == keccak_of(slice@),
{
    let mut hasher = tiny_keccak::Keccak::v256();
    hasher.update(slice);
    let mut output = [0u8; 32];
    hasher.finalize(&mut output);
    output
}

/// Byte-for-byte copy of a byte string.
pub fn copy_bytes(v: &Vec<u8>) -> (r: Vec<u8>)
    ensures
        r@ == v@,
{
    let mut out: Vec<u8> = Vec::new();
    let mut i: usize = 0;
    while i < v.len()
        invariant
            i <= v@.len(),
            out@ == v@.subrange(0, i as int),
        decreases v@.len() - i,
    {
        out.push(v[i]);
        i = i + 1;
    }
    proof {
        assert(out@ =~= v@);
    }
    out
}

/// Copies the items of a byte-string list from a start position on.
pub fn copy_tail(items: &Vec<Vec<u8>>, start: usize) -> (r: Vec<Vec<u8>>)
    requires
        start <= items@.len(),
    ensures
        r@.len() == items@.len() - start,
        forall|k: int| 0 <= k < r@.len() ==> r@[k]@ == items@[k + start]@,
    decreases items@.len() - start,
{
    let mut out: Vec<Vec<u8>> = Vec::new();
    let mut i: usize = start;
    while i < items.len()
        invariant
            start <= i <= items@.len(),
            out@.len() == i - start,
            forall|k: int| 0 <= k < out@.len() ==> out@[k]@ == items@[k + start]@,
        decreases items@.len() - i,
    {
        out.push(copy_bytes(&items[i]));
        i = i + 1;
    }
    out
}

/// Byte-for-byte equality of two byte strings.
pub fn bytes_eq(a: &Vec<u8>, b: &Vec<u8>) -> (r: bool)
    ensures
        r == (a@ == b@),
{
    if a.len() != b.len() {
        proof {
            assert(a@ != b@);
        }
        return false;
    }
    let mut i: usize = 0;
    while i < a.len()
        invariant
            i <= a@.len(),
            a@.len() == b@.len(),
            forall|k: int| 0 <= k < i ==> a@[k] == b@[k],
        decreases a@.len() - i,
    {
        if a[i] != b[i] {
            proof {
                assert(a@ != b@);
            }
            return false;
        }
        i = i + 1;
    }
    proof {
        assert(a@ =~= b@);
    }
    true
}

/// Whether a 32-byte digest equals a cell's committed data bit for bit.
pub fn hash_matches(h: &[u8; 32], d: &Vec<u8>) -> (r: bool)
    ensures
        r == (h@ == d@),
{
    if d.len() != 32 {
        proof {
            assert(h@.len() == 32);
            assert(h@ != d@);
        }
        return false;
    }
    let mut i: usize = 0;
    while i < 32
        invariant
            i <= 32,
            h@.len() == 32,
            d@.len() == 32,
            forall|k: int| 0 <= k < i ==> h@[k] == d@[k],
        decreases 32 - i,
    {
        if h[i] != d[i] {
            proof {
                assert(h@ != d@);
            }
            return false;
        }
        i = i + 1;
    }
    proof {
        assert(h@ =~= d@);
    }
    true
}

/// The fixed eight-byte big-endian carrier of a height value.
pub open spec fn be8_of(v: u64) -> Seq<u8> {
    seq![
        ((v >> 56) & 0xff) as u8,
        ((v >> 48) & 0xff) as u8,
        ((v >> 40) & 0xff) as u8,
        ((v >> 32) & 0xff) as u8,
        ((v >> 24) & 0xff) as u8,
        ((v >> 16) & 0xff) as u8,
        ((v >> 8) & 0xff) as u8,
        (v & 0xff) as u8,
    ]
}

/// The value eight big-endian bytes carry.
pub open spec fn spec_u64_of_be8(b: Seq<u8>) -> u64
    recommends
        b.len() == 8,
{
    (((b[0] as u64) << 56) | ((b[1] as u64) << 48) | ((b[2] as u64) << 40) | ((b[3] as u64) << 32)
        | ((b[4] as u64) << 24) | ((b[5] as u64) << 16) | ((b[6] as u64) << 8) | (b[7] as u64)) as u64
}

pub fn u64_to_be8(v: u64) -> (r: Vec<u8>)
    ensures
        r@ == be8_of(v),
{
    let mut out: Vec<u8> = Vec::new();
    out.push(((v >> 56) & 0xff) as u8);
    out.push(((v >> 48) & 0xff) as u8);
    out.push(((v >> 40) & 0xff) as u8);
    out.push(((v >> 32) & 0xff) as u8);
    out.push(((v >> 24) & 0xff) as u8);
    out.push(((v >> 16) & 0xff) as u8);
    out.push(((v >> 8) & 0xff) as u8);
    out.push((v & 0xff) as u8);
    proof {
        assert(out@ =~= be8_of(v));
    }
    out
}

pub fn u64_of_be8(b: &Vec<u8>) -> (r: u64)
    requires
        b@.len() == 8,
    ensures
        r == spec_u64_of_be8(b@),
{
    ((b[0] as u64) << 56) | ((b[1] as u64) << 48) | ((b[2] as u64) << 40) | ((b[3] as u64) << 32)
        | ((b[4] as u64) << 24) | ((b[5] as u64) << 16) | ((b[6] as u64) << 8) | (b[7] as u64)
}

/// What envelope bytes decode to: a list of exactly two items, a one-byte
/// message kind and the kind's payload.
pub open spec fn spec_decode_envelope(b: Seq<u8>) -> Option<EnvelopeSpec> {
    match rlp_items_of(b) {
        None => None,
        Some(items) => if items.len() == 2 && items[0].len() == 1 {
            match spec_msg_type_of_byte(items[0][0]) {
                None => None,
                Some(t) => Some(EnvelopeSpec { msg_type: t, content: items[1] }),
            }
        } else {
            None
        },
    }
}

/// What committed connection bytes decode to: a list of a one-byte state,
/// the bound client id, the counterparty's client and connection ids, and
/// then one item per version.
pub open spec fn spec_decode_connection(b: Seq<u8>) -> Option<ConnSpec> {
    match rlp_items_of(b) {
        None => None,
        Some(items) => if items.len() >= 4 && items[0].len() == 1 {
            match spec_state_of_byte(items[0][0]) {
                None => None,
                Some(st) => Some(
                    ConnSpec {
                        state: st,
                        client_id: items[1],
                        counterparty_client_id: items[2],
                        counterparty_connection_id: items[3],
                        versions: items.skip(4),
                    },
                ),
            }
        } else {
            None
        },
    }
}

/// Whether first-step payload bytes decode: the step carries no fields, so
/// its payload is an empty list.
pub open spec fn spec_decode_msg_init(b: Seq<u8>) -> bool {
    rlp_items_of(b) matches Some(items) && items.len() == 0
}

/// What second-step payload bytes decode to: an eight-byte proof height, the
/// proof bytes, and then one item per proposed counterparty version.
pub open spec fn spec_decode_msg_try(b: Seq<u8>) -> Option<MsgTrySpec> {
    match rlp_items_of(b) {
        None => None,
        Some(items) => if items.len() >= 2 && items[0].len() == 8 {
            Some(
                MsgTrySpec {
                    proof_height: spec_u64_of_be8(items[0]),
                    proof: items[1],
                    counterparty_versions: items.skip(2),
                },
            )
        } else {
            None
        },
    }
}

/// What third-step payload bytes decode to: an eight-byte proof height, the
/// proof bytes, and the selected version.
pub open spec fn spec_decode_msg_ack(b: Seq<u8>) -> Option<MsgAckSpec> {
    match rlp_items_of(b) {
        None => None,
        Some(items) => if items.len() == 3 && items[0].len() == 8 {
            Some(
                MsgAckSpec {
                    proof_height: spec_u64_of_be8(items[0]),
                    proof: items[1],
                    version: items[2],
                },
            )
        } else {
            None
        },
    }
}

/// What final-step payload bytes decode to: an eight-byte proof height and
/// the proof bytes.
pub open spec fn spec_decode_msg_confirm(b: Seq<u8>) -> Option<MsgConfirmSpec> {
    match rlp_items_of(b) {
        None => None,
        Some(items) => if items.len() == 2 && items[0].len() == 8 {
            Some(MsgConfirmSpec { proof_height: spec_u64_of_be8(items[0]), proof: items[1] })
        } else {
            None
        },
    }
}

/// Decodes the one governing envelope from witness payload bytes.
pub fn decode_envelope(bytes: &Vec<u8>) -> (r: Option<Envelope>)
    ensures
        match spec_decode_envelope(bytes@) {
            Some(e) => (r matches Some(env) && env@ == e),
            None => r is None,
        },
{
    let mut items = match rlp_decode_items(bytes) {
        Some(v) => v,
        None => { return None; },
    };
    if items.len() != 2 {
        return None;
    }
    let content = match items.pop() {
        Some(c) => c,
        None => { return None; },
    };
    let head = match items.pop() {
        Some(h) => h,
        None => { return None; },
    };
    if head.len() != 1 {
        return None;
    }
    let t = match msg_type_of_byte(head[0]) {
        Some(t) => t,
        None => { return None; },
    };
    let env = Envelope { msg_type: t, content };
    proof {
        let e = spec_decode_envelope(bytes@)->Some_0;
        assert(env@ =~= e);
    }
    Some(env)
}

/// Decodes a committed connection record from witness payload bytes.
pub fn decode_connection_cell(bytes: &Vec<u8>) -> (r: Result<IbcConnections, Error>)
    ensures
        match spec_decode_connection(bytes@) {
            Some(c) => (r matches Ok(conn) && conn@ == c),
            None => r == Err::<IbcConnections, Error>(Error::ConnectionEncoding),
        },
{
    let items = match rlp_decode_items(bytes) {
        Some(v) => v,
        None => { return Err(Error::ConnectionEncoding); },
    };
    if items.len() < 4 {
        return Err(Error::ConnectionEncoding);
    }
    if items[0].len() != 1 {
        return Err(Error::ConnectionEncoding);
    }
    let st = match state_of_byte(items[0][0]) {
        Some(s) => s,
        None => { return Err(Error::ConnectionEncoding); },
    };
    let conn = IbcConnections {
        state: st,
        client_id: copy_bytes(&items[1]),
        counterparty_client_id: copy_bytes(&items[2]),
        counterparty_connection_id: copy_bytes(&items[3]),
        versions: copy_tail(&items, 4),
    };
    proof {
        let c = spec_decode_connection(bytes@)->Some_0;
        assert(forall|k: int| 0 <= k < conn@.versions.len() ==> conn@.versions[k]
            == c.versions[k]);
        assert(conn@.versions =~= c.versions);
        assert(conn@ =~= c);
    }
    Ok(conn)
}

/// Decodes a first-step message payload.
pub fn decode_msg_connection_open_init(bytes: &Vec<u8>) -> (r: Option<MsgConnectionOpenInit>)
    ensures
        r is Some <==> spec_decode_msg_init(bytes@),
{
    let items = match rlp_decode_items(bytes) {
        Some(v) => v,
        None => { return None; },
    };
    if items.len() != 0 {
        return None;
    }
    Some(MsgConnectionOpenInit {  })
}

/// Decodes a second-step message payload.
pub fn decode_msg_connection_open_try(bytes: &Vec<u8>) -> (r: Option<MsgConnectionOpenTry>)
    ensures
        match spec_decode_msg_try(bytes@) {
            Some(m) => (r matches Some(msg) && msg@ == m),
            None => r is None,
        },
{
    let items = match rlp_decode_items(bytes) {
        Some(v) => v,
        None => { return None; },
    };
    if items.len() < 2 {
        return None;
    }
    if items[0].len() != 8 {
        return None;
    }
    let proof_height = u64_of_be8(&items[0]);
    let msg = MsgConnectionOpenTry {
        proof_height,
        proof: copy_bytes(&items[1]),
        counterparty_versions: copy_tail(&items, 2),
    };
    proof {
        let m = spec_decode_msg_try(bytes@)->Some_0;
        assert(forall|k: int| 0 <= k < msg@.counterparty_versions.len()
            ==> msg@.counterparty_versions[k] == m.counterparty_versions[k]);
        assert(msg@.counterparty_versions =~= m.counterparty_versions);
        assert(msg@ =~= m);
    }
    Some(msg)
}

/// Decodes a third-step message payload.
pub fn decode_msg_connection_open_ack(bytes: &Vec<u8>) -> (r: Option<MsgConnectionOpenAck>)
    ensures
        match spec_decode_msg_ack(bytes@) {
            Some(m) => (r matches Some(msg) && msg@ == m),
            None => r is None,
        },
{
    let mut items = match rlp_decode_items(bytes) {
        Some(v) => v,
        None => { return None; },
    };
    if items.len() != 3 {
        return None;
    }
    let height_bytes = items.remove(0);
    if height_bytes.len() != 8 {
        return None;
    }
    let proof_height = u64_of_be8(&height_bytes);
    let proof = items.remove(0);
    let version = items.remove(0);
    let msg = MsgConnectionOpenAck { proof_height, proof, version };
    proof {
        let m = spec_decode_msg_ack(bytes@)->Some_0;
        assert(msg@ =~= m);
    }
    Some(msg)
}

/// Decodes a final-step message payload.
pub fn decode_msg_connection_open_confirm(bytes: &Vec<u8>) -> (r: Option<MsgConnectionOpenConfirm>)
    ensures
        match spec_decode_msg_confirm(bytes@) {
            Some(m) => (r matches Some(msg) && msg@ == m),
            None => r is None,
        },
{
    let mut items = match rlp_decode_items(bytes) {
        Some(v) => v,
        None => { return None; },
    };
    if items.len() != 2 {
        return None;
    }
    let height_bytes = items.remove(0);
    if height_bytes.len() != 8 {
        return None;
    }
    let proof_height = u64_of_be8(&height_bytes);
    let proof = items.remove(0);
    let msg = MsgConnectionOpenConfirm { proof_height, proof };
    proof {
        let m = spec_decode_msg_confirm(bytes@)->Some_0;
        assert(msg@ =~= m);
    }
    Some(msg)
}

/// Encodes an envelope; decoding the result yields the envelope back.
pub fn encode_envelope(e: &Envelope) -> (r: Vec<u8>)
    ensures
        spec_decode_envelope(r@) == Some(e@),
{
    let mut items: Vec<Vec<u8>> = Vec::new();
    let mut head: Vec<u8> = Vec::new();
    head.push(msg_type_byte(e.msg_type));
    items.push(head);
    items.push(copy_bytes(&e.content));
    let out = rlp_encode_items(&items);
    proof {
        let d = rlp_items_of(out@)->Some_0;
        assert(d[0] =~= seq![spec_msg_type_byte(e.msg_type)]);
        crate::msgs::lemma_msg_type_byte_roundtrip(e.msg_type);
        assert(spec_decode_envelope(out@)->Some_0 =~= e@);
    }
    out
}

/// Encodes a connection record; decoding the result yields the record back.
pub fn encode_connection(c: &IbcConnections) -> (r: Vec<u8>)
    ensures
        spec_decode_connection(r@) == Some(c@),
{
    let mut items: Vec<Vec<u8>> = Vec::new();
    let mut head: Vec<u8> = Vec::new();
    head.push(state_byte(c.state));
    items.push(head);
    items.push(copy_bytes(&c.client_id));
    items.push(copy_bytes(&c.counterparty_client_id));
    items.push(copy_bytes(&c.counterparty_connection_id));
    let mut i: usize = 0;
    while i < c.versions.len()
        invariant
            i <= c.versions@.len(),
            items@.len() == 4 + i,
            items@[0]@ == seq![spec_state_byte(c.state)],
            items@[1]@ == c.client_id@,
            items@[2]@ == c.counterparty_client_id@,
            items@[3]@ == c.counterparty_connection_id@,
            forall|k: int| 0 <= k < i ==> items@[k + 4]@ == c.versions@[k]@,
        decreases c.versions@.len() - i,
    {
        items.push(copy_bytes(&c.versions[i]));
        i = i + 1;
    }
    let out = rlp_encode_items(&items);
    proof {
        let d = rlp_items_of(out@)->Some_0;
        assert(d[0] =~= seq![spec_state_byte(c.state)]);
        crate::conn::lemma_state_byte_roundtrip(c.state);
        let decoded = spec_decode_connection(out@)->Some_0;
        assert(forall|k: int| 0 <= k < c.versions@.len() ==> decoded.versions[k] == c@.versions[k]);
        assert(decoded.versions =~= c@.versions);
        assert(decoded =~= c@);
    }
    out
}

/// Encodes a first-step message payload; the result decodes.
pub fn encode_msg_connection_open_init(_m: &MsgConnectionOpenInit) -> (r: Vec<u8>)
    ensures
        spec_decode_msg_init(r@),
{
    let items: Vec<Vec<u8>> = Vec::new();
    rlp_encode_items(&items)
}

/// Encodes a second-step message payload; decoding the result yields the
/// message back.
pub fn encode_msg_connection_open_try(m: &MsgConnectionOpenTry) -> (r: Vec<u8>)
    ensures
        spec_decode_msg_try(r@) == Some(m@),
{
    let mut items: Vec<Vec<u8>> = Vec::new();
    items.push(u64_to_be8(m.proof_height));
    items.push(copy_bytes(&m.proof));
    let mut i: usize = 0;
    while i < m.counterparty_versions.len()
        invariant
            i <= m.counterparty_versions@.len(),
            items@.len() == 2 + i,
            items@[0]@ == be8_of(m.proof_height),
            items@[1]@ == m.proof@,
            forall|k: int| 0 <= k < i ==> items@[k + 2]@ == m.counterparty_versions@[k]@,
        decreases m.counterparty_versions@.len() - i,
    {
        items.push(copy_bytes(&m.counterparty_versions[i]));
        i = i + 1;
    }
    let out = rlp_encode_items(&items);
    proof {
        lemma_be8_roundtrip(m.proof_height);
        let decoded = spec_decode_msg_try(out@)->Some_0;
        assert(forall|k: int| 0 <= k < m.counterparty_versions@.len()
            ==> decoded.counterparty_versions[k] == m@.counterparty_versions[k]);
        assert(decoded.counterparty_versions =~= m@.counterparty_versions);
        assert(decoded =~= m@);
    }
    out
}

/// Encodes a third-step message payload; decoding the result yields the
/// message back.
pub fn encode_msg_connection_open_ack(m: &MsgConnectionOpenAck) -> (r: Vec<u8>)
    ensures
        spec_decode_msg_ack(r@) == Some(m@),
{
    let mut items: Vec<Vec<u8>> = Vec::new();
    items.push(u64_to_be8(m.proof_height));
    items.push(copy_bytes(&m.proof));
    items.push(copy_bytes(&m.version));
    let out = rlp_encode_items(&items);
    proof {
        lemma_be8_roundtrip(m.proof_height);
        assert(spec_decode_msg_ack(out@)->Some_0 =~= m@);
    }
    out
}

/// Encodes a final-step message payload; decoding the result yields the
/// message back.
pub fn encode_msg_connection_open_confirm(m: &MsgConnectionOpenConfirm) -> (r: Vec<u8>)
    ensures
        spec_decode_msg_confirm(r@) == Some(m@),
{
    let mut items: Vec<Vec<u8>> = Vec::new();
    items.push(u64_to_be8(m.proof_height));
    items.push(copy_bytes(&m.proof));
    let out = rlp_encode_items(&items);
    proof {
        lemma_be8_roundtrip(m.proof_height);
        assert(spec_decode_msg_confirm(out@)->Some_0 =~= m@);
    }
    out
}

/// Carrying a height as eight big-endian bytes and reading them back always
/// recovers the height.
pub proof fn lemma_be8_roundtrip(v: u64)
    ensures
        spec_u64_of_be8(be8_of(v)) == v,
{
    let b0 = ((v >> 56) & 0xff) as u8;
    let b1 = ((v >> 48) & 0xff) as u8;
    let b2 = ((v >> 40) & 0xff) as u8;
    let b3 = ((v >> 32) & 0xff) as u8;
    let b4 = ((v >> 24) & 0xff) as u8;
    let b5 = ((v >> 16) & 0xff) as u8;
    let b6 = ((v >> 8) & 0xff) as u8;
    let b7 = (v & 0xff) as u8;
    assert((((b0 as u64) << 56) | ((b1 as u64) << 48) | ((b2 as u64) << 40) | ((b3 as u64) << 32)
        | ((b4 as u64) << 24) | ((b5 as u64) << 16) | ((b6 as u64) << 8) | (b7 as u64)) == v)
        by (bit_vector)
        requires
            b0 == ((v >> 56) & 0xff) as u8,
            b1 == ((v >> 48) & 0xff) as u8,
            b2 == ((v >> 40) & 0xff) as u8,
            b3 == ((v >> 32) & 0xff) as u8,
            b4 == ((v >> 24) & 0xff) as u8,
            b5 == ((v >> 16) & 0xff) as u8,
            b6 == ((v >> 8) & 0xff) as u8,
            b7 == (v & 0xff) as u8,
    ;
}

} // verus!

use vstd::prelude::*;

verus! {

/// The closed set of message kinds an envelope can carry. Exactly one
/// envelope governs a transaction; only the connection-handshake kinds and
/// `MsgClientCreate` are this verifier's business. The channel-handshake
/// kinds are a separate collaborator's and pass through; every other kind is
/// rejected as unexpected.
#[derive(Clone, Copy, Debug, PartialEq, Eq, Structural)]
pub enum MsgType {
    MsgClientCreate,
    MsgClientUpdate,
    MsgConnectionOpenInit,
    MsgConnectionOpenTry,
    MsgConnectionOpenAck,
    MsgConnectionOpenConfirm,
    MsgChannelOpenInit,
    MsgChannelOpenTry,
    MsgChannelOpenAck,
    MsgChannelOpenConfirm,
    MsgChannelCloseInit,
    MsgChannelCloseConfirm,
    MsgSendPacket,
    MsgRecvPacket,
    MsgAckPacket,
}

/// The one governing message of a transaction: its kind and the kind's
/// undecoded payload bytes.
#[derive(Clone, Debug)]
pub struct Envelope {
    pub msg_type: MsgType,
    pub content: Vec<u8>,
}

/// The mathematical value of an envelope.
#[verifier::ext_equal]
pub ghost struct EnvelopeSpec {
    pub msg_type: MsgType,
    pub content: Seq<u8>,
}

impl View for Envelope {
    type V = EnvelopeSpec;

    open spec fn view(&self) -> EnvelopeSpec {
        EnvelopeSpec { msg_type: self.msg_type, content: self.content@ }
    }
}

/// First handshake step: everything the step commits to is already in the
/// new connection record, so the message carries no fields of its own.
#[derive(Clone, Debug)]
pub struct MsgConnectionOpenInit {}

/// Second handshake step: carries the proof that the counterparty holds a
/// matching `Init`-state record, and the counterparty's proposed versions.
#[derive(Clone, Debug)]
pub struct MsgConnectionOpenTry {
    pub proof_height: u64,
    pub proof: Vec<u8>,
    pub counterparty_versions: Vec<Vec<u8>>,
}

/// The mathematical value of a `MsgConnectionOpenTry`.
#[verifier::ext_equal]
pub ghost struct MsgTrySpec {
    pub proof_height: u64,
    pub proof: Seq<u8>,
    pub counterparty_versions: Seq<Seq<u8>>,
}

impl View for MsgConnectionOpenTry {
    type V = MsgTrySpec;

    open spec fn view(&self) -> MsgTrySpec {
        MsgTrySpec {
            proof_height: self.proof_height,
            proof: self.proof@,
            counterparty_versions: self.counterparty_versions.deep_view(),
        }
    }
}

/// Third handshake step: the proof that the counterparty holds a `TryOpen`
/// record referencing this side, and the version it selected.
#[derive(Clone, Debug)]
pub struct MsgConnectionOpenAck {
    pub proof_height: u64,
    pub proof: Vec<u8>,
    pub version: Vec<u8>,
}

/// The mathematical value of a `MsgConnectionOpenAck`.
#[verifier::ext_equal]
pub ghost struct MsgAckSpec {
    pub proof_height: u64,
    pub proof: Seq<u8>,
    pub version: Seq<u8>,
}

impl View for MsgConnectionOpenAck {
    type V = MsgAckSpec;

    open spec fn view(&self) -> MsgAckSpec {
        MsgAckSpec { proof_height: self.proof_height, proof: self.proof@, version: self.version@ }
    }
}

/// Final handshake step: the proof that the counterparty has observed the
/// `Open` state.
#[derive(Clone, Debug)]
pub struct MsgConnectionOpenConfirm {
    pub proof_height: u64,
    pub proof: Vec<u8>,
}

/// The mathematical value of a `MsgConnectionOpenConfirm`.
#[verifier::ext_equal]
pub ghost struct MsgConfirmSpec {
    pub proof_height: u64,
    pub proof: Seq<u8>,
}

impl View for MsgConnectionOpenConfirm {
    type V = MsgConfirmSpec;

    open spec fn view(&self) -> MsgConfirmSpec {
        MsgConfirmSpec { proof_height: self.proof_height, proof: self.proof@ }
    }
}

/// Whether a kind is one of the four connection-handshake steps this
/// verifier decides.
pub open spec fn spec_is_connection_msg(t: MsgType) -> bool {
    t == MsgType::MsgConnectionOpenInit || t == MsgType::MsgConnectionOpenTry || t
        == MsgType::MsgConnectionOpenAck || t == MsgType::MsgConnectionOpenConfirm
}

/// Whether a kind belongs to the channel handshake, which a separate
/// collaborator script verifies.
pub open spec fn spec_is_channel_msg(t: MsgType) -> bool {
    t == MsgType::MsgChannelOpenInit || t == MsgType::MsgChannelOpenTry || t
        == MsgType::MsgChannelOpenAck || t == MsgType::MsgChannelOpenConfirm
}

pub fn is_connection_msg(t: MsgType) -> (r: bool)
    ensures
        r == spec_is_connection_msg(t),
{
    match t {
        MsgType::MsgConnectionOpenInit
        | MsgType::MsgConnectionOpenTry
        | MsgType::MsgConnectionOpenAck
        | MsgType::MsgConnectionOpenConfirm => true,
        _ => false,
    }
}

pub fn is_channel_msg(t: MsgType) -> (r: bool)
    ensures
        r == spec_is_channel_msg(t),
{
    match t {
        MsgType::MsgChannelOpenInit
        | MsgType::MsgChannelOpenTry
        | MsgType::MsgChannelOpenAck
        | MsgType::MsgChannelOpenConfirm => true,
        _ => false,
    }
}

/// The byte a message kind is carried as in an envelope.
pub open spec fn spec_msg_type_byte(t: MsgType) -> u8 {
    match t {
        MsgType::MsgClientCreate => 0,
        MsgType::MsgClientUpdate => 1,
        MsgType::MsgConnectionOpenInit => 2,
        MsgType::MsgConnectionOpenTry => 3,
        MsgType::MsgConnectionOpenAck => 4,
        MsgType::MsgConnectionOpenConfirm => 5,
        MsgType::MsgChannelOpenInit => 6,
        MsgType::MsgChannelOpenTry => 7,
        MsgType::MsgChannelOpenAck => 8,
        MsgType::MsgChannelOpenConfirm => 9,
        MsgType::MsgChannelCloseInit => 10,
        MsgType::MsgChannelCloseConfirm => 11,
        MsgType::MsgSendPacket => 12,
        MsgType::MsgRecvPacket => 13,
        MsgType::MsgAckPacket => 14,
    }
}

/// The message kind a carried byte stands for, if any; a byte outside the
/// closed set fails envelope decoding.
pub open spec fn spec_msg_type_of_byte(b: u8) -> Option<MsgType> {
    if b == 0 {
        Some(MsgType::MsgClientCreate)
    } else if b == 1 {
        Some(MsgType::MsgClientUpdate)
    } else if b == 2 {
        Some(MsgType::MsgConnectionOpenInit)
    } else if b == 3 {
        Some(MsgType::MsgConnectionOpenTry)
    } else if b == 4 {
        Some(MsgType::MsgConnectionOpenAck)
    } else if b == 5 {
        Some(MsgType::MsgConnectionOpenConfirm)
    } else if b == 6 {
        Some(MsgType::MsgChannelOpenInit)
    } else if b == 7 {
        Some(MsgType::MsgChannelOpenTry)
    } else if b == 8 {
        Some(MsgType::MsgChannelOpenAck)
    } else if b == 9 {
        Some(MsgType::MsgChannelOpenConfirm)
    } else if b == 10 {
        Some(MsgType::MsgChannelCloseInit)
    } else if b == 11 {
        Some(MsgType::MsgChannelCloseConfirm)
    } else if b == 12 {
        Some(MsgType::MsgSendPacket)
    } else if b == 13 {
        Some(MsgType::MsgRecvPacket)
    } else if b == 14 {
        Some(MsgType::MsgAckPacket)
    } else {
        None
    }
}

pub fn msg_type_byte(t: MsgType) -> (r: u8)
    ensures
        r == spec_msg_type_byte(t),
{
    match t {
        MsgType::MsgClientCreate => 0,
        MsgType::MsgClientUpdate => 1,
        MsgType::MsgConnectionOpenInit => 2,
        MsgType::MsgConnectionOpenTry => 3,
        MsgType::MsgConnectionOpenAck => 4,
        MsgType::MsgConnectionOpenConfirm => 5,
        MsgType::MsgChannelOpenInit => 6,
        MsgType::MsgChannelOpenTry => 7,
        MsgType::MsgChannelOpenAck => 8,
        MsgType::MsgChannelOpenConfirm => 9,
        MsgType::MsgChannelCloseInit => 10,
        MsgType::MsgChannelCloseConfirm => 11,
        MsgType::MsgSendPacket => 12,
        MsgType::MsgRecvPacket => 13,
        MsgType::MsgAckPacket => 14,
    }
}

pub fn msg_type_of_byte(b: u8) -> (r: Option<MsgType>)
    ensures
        r == spec_msg_type_of_byte(b),
{
    if b == 0 {
        Some(MsgType::MsgClientCreate)
    } else if b == 1 {
        Some(MsgType::MsgClientUpdate)
    } else if b == 2 {
        Some(MsgType::MsgConnectionOpenInit)
    } else if b == 3 {
        Some(MsgType::MsgConnectionOpenTry)
    } else if b == 4 {
        Some(MsgType::MsgConnectionOpenAck)
    } else if b == 5 {
        Some(MsgType::MsgConnectionOpenConfirm)
    } else if b == 6 {
        Some(MsgType::MsgChannelOpenInit)
    } else if b == 7 {
        Some(MsgType::MsgChannelOpenTry)
    } else if b == 8 {
        Some(MsgType::MsgChannelOpenAck)
    } else if b == 9 {
        Some(MsgType::MsgChannelOpenConfirm)
    } else if b == 10 {
        Some(MsgType::MsgChannelCloseInit)
    } else if b == 11 {
        Some(MsgType::MsgChannelCloseConfirm)
    } else if b == 12 {
        Some(MsgType::MsgSendPacket)
    } else if b == 13 {
        Some(MsgType::MsgRecvPacket)
    } else if b == 14 {
        Some(MsgType::MsgAckPacket)
    } else {
        None
    }
}

/// Carrying a kind as its byte and reading it back always recovers the kind.
pub proof fn lemma_msg_type_byte_roundtrip(t: MsgType)
    ensures
        spec_msg_type_of_byte(spec_msg_type_byte(t)) == Some(t),
{
}

} // verus!

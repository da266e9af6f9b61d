use vstd::prelude::*;

verus! {

/// The recorded state of a connection object. `Uninitialized` is the fresh
/// placeholder a connection cell carries before any handshake step has been
/// committed; the legal handshake sequence then runs
/// `Init`, `TryOpen`, `Open`.
#[derive(Clone, Copy, Debug, PartialEq, Eq, Structural)]
pub enum ConnState {
    Uninitialized,
    Init,
    TryOpen,
    Open,
}

/// The protocol-level connection record committed in a cell: its handshake
/// state, the identity of the light client it is bound to, the counterparty
/// chain's identifiers, and the version list under negotiation.
#[derive(Clone, Debug)]
pub struct IbcConnections {
    pub state: ConnState,
    pub client_id: Vec<u8>,
    pub counterparty_client_id: Vec<u8>,
    pub counterparty_connection_id: Vec<u8>,
    pub versions: Vec<Vec<u8>>,
}

/// The mathematical value of a connection record.
#[verifier::ext_equal]
pub ghost struct ConnSpec {
    pub state: ConnState,
    pub client_id: Seq<u8>,
    pub counterparty_client_id: Seq<u8>,
    pub counterparty_connection_id: Seq<u8>,
    pub versions: Seq<Seq<u8>>,
}

impl View for IbcConnections {
    type V = ConnSpec;

    open spec fn view(&self) -> ConnSpec {
        ConnSpec {
            state: self.state,
            client_id: self.client_id@,
            counterparty_client_id: self.counterparty_client_id@,
            counterparty_connection_id: self.counterparty_connection_id@,
            versions: self.versions.deep_view(),
        }
    }
}

/// The identity a connection cell's lock script argument bytes carry: the
/// 32-byte id of the light client the connection instance is paired with.
/// The argument bytes must parse to this fixed-size structure exactly.
#[derive(Clone, Debug)]
pub struct ConnectionArgs {
    pub client_id: Vec<u8>,
}

impl View for ConnectionArgs {
    type V = Seq<u8>;

    open spec fn view(&self) -> Seq<u8> {
        self.client_id@
    }
}

/// Whether lock script argument bytes parse as connection arguments.
pub open spec fn spec_parse_connection_args(args: Seq<u8>) -> Option<Seq<u8>> {
    if args.len() == 32 {
        Some(args)
    } else {
        None
    }
}

impl ConnectionArgs {
    /// Parses lock script argument bytes; anything but exactly 32 bytes is
    /// malformed.
    pub fn from_slice(args: &Vec<u8>) -> (r: Option<ConnectionArgs>)
        ensures
            match spec_parse_connection_args(args@) {
                Some(a) => (r matches Some(p) && p@ == a),
                None => r is None,
            },
    {
        if args.len() == 32 {
            Some(ConnectionArgs { client_id: crate::codec::copy_bytes(args) })
        } else {
            None
        }
    }
}

/// A loaded light-client record: its 32-byte identity and the verified state
/// blob read from the dependency cell. This core never inspects the blob; the
/// proof-verification capability bound to it is supplied separately.
#[derive(Clone, Debug)]
pub struct Client {
    pub id: Vec<u8>,
    pub state: Vec<u8>,
}

/// The mathematical value of a loaded light-client record.
#[verifier::ext_equal]
pub ghost struct ClientSpec {
    pub id: Seq<u8>,
    pub state: Seq<u8>,
}

impl View for Client {
    type V = ClientSpec;

    open spec fn view(&self) -> ClientSpec {
        ClientSpec { id: self.id@, state: self.state@ }
    }
}

/// The byte a connection state is committed as.
pub open spec fn spec_state_byte(s: ConnState) -> u8 {
    match s {
        ConnState::Uninitialized => 0,
        ConnState::Init => 1,
        ConnState::TryOpen => 2,
        ConnState::Open => 3,
    }
}

/// The connection state a committed byte stands for, if any.
pub open spec fn spec_state_of_byte(b: u8) -> Option<ConnState> {
    if b == 0 {
        Some(ConnState::Uninitialized)
    } else if b == 1 {
        Some(ConnState::Init)
    } else if b == 2 {
        Some(ConnState::TryOpen)
    } else if b == 3 {
        Some(ConnState::Open)
    } else {
        None
    }
}

pub fn state_byte(s: ConnState) -> (r: u8)
    ensures
        r == spec_state_byte(s),
{
    match s {
        ConnState::Uninitialized => 0,
        ConnState::Init => 1,
        ConnState::TryOpen => 2,
        ConnState::Open => 3,
    }
}

pub fn state_of_byte(b: u8) -> (r: Option<ConnState>)
    ensures
        r == spec_state_of_byte(b),
{
    if b == 0 {
        Some(ConnState::Uninitialized)
    } else if b == 1 {
        Some(ConnState::Init)
    } else if b == 2 {
        Some(ConnState::TryOpen)
    } else if b == 3 {
        Some(ConnState::Open)
    } else {
        None
    }
}

/// Committing a state and reading the byte back always recovers the state.
pub proof fn lemma_state_byte_roundtrip(s: ConnState)
    ensures
        spec_state_of_byte(spec_state_byte(s)) == Some(s),
{
}

} // verus!

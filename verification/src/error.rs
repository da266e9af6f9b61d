use vstd::prelude::*;

verus! {

/// Structured failure signals of the host transaction accessor: an index past
/// the end of a collection, a missing optional item, a read that found fewer
/// bytes than asked for (with the available length), a malformed host-side
/// encoding, or any other host error (with the host's raw code).
#[derive(Clone, Copy, Debug, PartialEq, Eq, Structural)]
pub enum SysError {
    IndexOutOfBound,
    ItemMissing,
    LengthNotEnough(usize),
    Encoding,
    Unknown(u64),
}

/// The flat taxonomy of terminal outcomes of one verification call. Every
/// rejection is one of these; there is no retry and no partial acceptance.
#[derive(Clone, Copy, Debug, PartialEq, Eq, Structural)]
pub enum Error {
    IndexOutOfBound,
    ItemMissing,
    LengthNotEnough,
    Encoding,
    UnknownSysError,
    ChannelEncoding,
    PacketEncoding,
    EnvelopeEncoding,
    MsgEncoding,
    WitnessIsNotExisted,
    WitnessIsIncorrect,
    WitnessTooMany,
    LoadCellDataErr,
    ChannelLock,
    PacketLock,
    UnexpectedMsg,
    ChannelHashUnmatch,
    PacketProofInvalid,
    ConnectionEncoding,
    ConnectionLock,
    ConnectionHashUnmatch,
    ConnectionProofInvalid,
    ClientCreateWrongClientId,
    LoadScriptErr,
}

/// The numeric status each error kind maps to at the process boundary.
/// Acceptance is 0, so every error code is nonzero; distinct kinds get
/// distinct codes (`lemma_error_code_one_to_one`).
pub open spec fn error_code(e: Error) -> i8 {
    match e {
        Error::IndexOutOfBound => 1,
        Error::ItemMissing => 2,
        Error::LengthNotEnough => 3,
        Error::Encoding => 4,
        Error::UnknownSysError => 5,
        Error::ChannelEncoding => 6,
        Error::PacketEncoding => 7,
        Error::EnvelopeEncoding => 8,
        Error::MsgEncoding => 9,
        Error::WitnessIsNotExisted => 10,
        Error::WitnessIsIncorrect => 11,
        Error::WitnessTooMany => 12,
        Error::LoadCellDataErr => 13,
        Error::ChannelLock => 14,
        Error::PacketLock => 15,
        Error::UnexpectedMsg => 16,
        Error::ChannelHashUnmatch => 17,
        Error::PacketProofInvalid => 18,
        Error::ConnectionEncoding => 19,
        Error::ConnectionLock => 20,
        Error::ConnectionHashUnmatch => 21,
        Error::ConnectionProofInvalid => 22,
        Error::ClientCreateWrongClientId => 23,
        Error::LoadScriptErr => 24,
    }
}

/// How a host accessor signal surfaces in the error taxonomy, verbatim,
/// one kind per signal.
pub open spec fn error_of_sys(err: SysError) -> Error {
    match err {
        SysError::IndexOutOfBound => Error::IndexOutOfBound,
        SysError::ItemMissing => Error::ItemMissing,
        SysError::LengthNotEnough(_) => Error::LengthNotEnough,
        SysError::Encoding => Error::Encoding,
        SysError::Unknown(_) => Error::UnknownSysError,
    }
}

impl Error {
    /// The status code handed to the host: nonzero, one per error kind.
    pub fn code(&self) -> (r: i8)
        ensures
            r == error_code(*self),
    {
        match self {
            Error::IndexOutOfBound => 1,
            Error::ItemMissing => 2,
            Error::LengthNotEnough => 3,
            Error::Encoding => 4,
            Error::UnknownSysError => 5,
            Error::ChannelEncoding => 6,
            Error::PacketEncoding => 7,
            Error::EnvelopeEncoding => 8,
            Error::MsgEncoding => 9,
            Error::WitnessIsNotExisted => 10,
            Error::WitnessIsIncorrect => 11,
            Error::WitnessTooMany => 12,
            Error::LoadCellDataErr => 13,
            Error::ChannelLock => 14,
            Error::PacketLock => 15,
            Error::UnexpectedMsg => 16,
            Error::ChannelHashUnmatch => 17,
            Error::PacketProofInvalid => 18,
            Error::ConnectionEncoding => 19,
            Error::ConnectionLock => 20,
            Error::ConnectionHashUnmatch => 21,
            Error::ConnectionProofInvalid => 22,
            Error::ClientCreateWrongClientId => 23,
            Error::LoadScriptErr => 24,
        }
    }
}

impl From<SysError> for Error {
    /// Surfaces a host accessor signal as a terminal error, dropping the
    /// signal's payload.
    fn from(err: SysError) -> (r: Self)
        ensures
            r == error_of_sys(err),
    {
        match err {
            SysError::IndexOutOfBound => Self::IndexOutOfBound,
            SysError::ItemMissing => Self::ItemMissing,
            SysError::LengthNotEnough(_) => Self::LengthNotEnough,
            SysError::Encoding => Self::Encoding,
            SysError::Unknown(_) => Self::UnknownSysError,
        }
    }
}

impl vstd::std_specs::convert::FromSpecImpl<SysError> for Error {
    open spec fn obeys_from_spec() -> bool {
        true
    }

    open spec fn from_spec(err: SysError) -> Error {
        error_of_sys(err)
    }
}

/// Each distinct error kind maps one-to-one to a nonzero status code, so the
/// host can always tell both rejection from acceptance and one rejection
/// kind from another.
pub proof fn lemma_error_code_one_to_one(a: Error, b: Error)
    ensures
        error_code(a) != 0,
        error_code(a) == error_code(b) ==> a == b,
{
}

} // verus!

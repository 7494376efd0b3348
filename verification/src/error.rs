//! Error types of the transport core.

use vstd::prelude::*;

verus! {

/// A protocol violation seen while framing or reassembling an exchange.
///
/// Every variant is fatal for the exchange in flight: the core never retries.
/// Handle-level I/O failures and read timeouts are reported by the embedding
/// application, which owns the device handle.
#[derive(Clone, Copy, Debug, PartialEq, Eq, Structural)]
pub enum TransportError {
    /// A report was too short to hold the header its position requires.
    IncompleteHeader,
    /// A report carried a channel id other than the one requested.
    InvalidChannel,
    /// A report carried a tag other than the protocol constant.
    InvalidTag,
    /// A report carried a sequence index other than the expected counter.
    InvalidSequence,
    /// The device handle accepted fewer bytes than one whole report.
    ShortWrite,
    /// A command payload was longer than the one-byte length field allows.
    PayloadTooLong,
}

/// Error interpreting bytes as an APDU answer.
#[derive(Clone, Copy, Debug, PartialEq, Eq, Structural)]
pub enum APDUAnswerError {
    /// The answer held fewer than the 2 bytes required for the return code.
    TooShort,
}

/// Known status values that the device can send back.
///
/// `6f00` to `6fff` signal an invalid parameter. The wire carries the raw
/// 16-bit value; [`APDUErrorCode::code`] gives the value of each variant.
#[derive(Clone, Copy, Debug, PartialEq, Eq, Structural)]
pub enum APDUErrorCode {
    PinRemainingAttempts,
    /// The APDU has an incorrect length
    IncorrectLength,
    /// The APDU is missing a critical parameter
    MissingCriticalParameter,
    CommandIncompatibleFileStructure,
    /// The connection with the device has some not satisfied security (dongle locked or invalid access rights)
    SecurityStatusNotSatisfied,
    /// Condition of use not satisfied (denied by the user?)
    ConditionsOfUseNotSatisfied,
    /// Invalid data received
    IncorrectData,
    NotEnoughMoneySpace,
    ReferencedDataNotFound,
    FileAlreadyExists,
    /// Invalid parameter received
    IncorrectP1P2,
    InsNotSupported,
    ClaNotSupported,
    TechnicalProblem,
    MemoryProblem,
    NoEFSelected,
    InvalidOffset,
    FileNotFound,
    InconsistentFile,
    AlgorithmNotSupported,
    InvalidKCV,
    CodeNotInitialized,
    AccessConditionNotFulfilled,
    ContradictionSecretCodeStatus,
    ContradictionInvalidation,
    CodeBlocked,
    MaxValueReached,
    GPAuthFailed,
    Licensing,
    Halted,
    /// The device is currently locked. Only happens on a seeded device.
    LockedDevice,
    /// No more space in the memory to add something, such as an app or a language pack.
    NotEnoughSpace,
    /// Success
    NoError,
    /// Error during apdu execution
    ExecutionError,
    /// Apdu buffer too small
    OutputBufferTooSmall,
    /// Apdu parameters invalid
    DataInvalid,
    /// Apdu command not allowed
    CommandNotAllowed,
    /// Apdu sign verify error
    SignVerifyError,
}

impl APDUErrorCode {
    /// The 16-bit status value that stands for this code on the wire.
    pub open spec fn code_spec(&self) -> u16 {
        match self {
            APDUErrorCode::PinRemainingAttempts => 0x63c0,
            APDUErrorCode::IncorrectLength => 0x6700,
            APDUErrorCode::MissingCriticalParameter => 0x6800,
            APDUErrorCode::CommandIncompatibleFileStructure => 0x6981,
            APDUErrorCode::SecurityStatusNotSatisfied => 0x6982,
            APDUErrorCode::ConditionsOfUseNotSatisfied => 0x6985,
            APDUErrorCode::IncorrectData => 0x6a80,
            APDUErrorCode::NotEnoughMoneySpace => 0x6a84,
            APDUErrorCode::ReferencedDataNotFound => 0x6a88,
            APDUErrorCode::FileAlreadyExists => 0x6a89,
            APDUErrorCode::IncorrectP1P2 => 0x6b00,
            APDUErrorCode::InsNotSupported => 0x6d00,
            APDUErrorCode::ClaNotSupported => 0x6e00,
            APDUErrorCode::TechnicalProblem => 0x6f00,
            APDUErrorCode::MemoryProblem => 0x9240,
            APDUErrorCode::NoEFSelected => 0x9400,
            APDUErrorCode::InvalidOffset => 0x9402,
            APDUErrorCode::FileNotFound => 0x9404,
            APDUErrorCode::InconsistentFile => 0x9408,
            APDUErrorCode::AlgorithmNotSupported => 0x9484,
            APDUErrorCode::InvalidKCV => 0x9485,
            APDUErrorCode::CodeNotInitialized => 0x9802,
            APDUErrorCode::AccessConditionNotFulfilled => 0x9804,
            APDUErrorCode::ContradictionSecretCodeStatus => 0x9808,
            APDUErrorCode::ContradictionInvalidation => 0x9810,
            APDUErrorCode::CodeBlocked => 0x9840,
            APDUErrorCode::MaxValueReached => 0x9850,
            APDUErrorCode::GPAuthFailed => 0x6300,
            APDUErrorCode::Licensing => 0x6f42,
            APDUErrorCode::Halted => 0x6faa,
            APDUErrorCode::LockedDevice => 0x5515,
            APDUErrorCode::NotEnoughSpace => 0x5102,
            APDUErrorCode::NoError => 0x9000,
            APDUErrorCode::ExecutionError => 0x6400,
            APDUErrorCode::OutputBufferTooSmall => 0x6983,
            APDUErrorCode::DataInvalid => 0x6984,
            APDUErrorCode::CommandNotAllowed => 0x6986,
            APDUErrorCode::SignVerifyError => 0x6F01,
        }
    }

    /// The 16-bit status value that stands for this code on the wire.
    pub fn code(&self) -> (r: u16)
        ensures
            r == self.code_spec(),
    {
        match self {
            APDUErrorCode::PinRemainingAttempts => 0x63c0,
            APDUErrorCode::IncorrectLength => 0x6700,
            APDUErrorCode::MissingCriticalParameter => 0x6800,
            APDUErrorCode::CommandIncompatibleFileStructure => 0x6981,
            APDUErrorCode::SecurityStatusNotSatisfied => 0x6982,
            APDUErrorCode::ConditionsOfUseNotSatisfied => 0x6985,
            APDUErrorCode::IncorrectData => 0x6a80,
            APDUErrorCode::NotEnoughMoneySpace => 0x6a84,
            APDUErrorCode::ReferencedDataNotFound => 0x6a88,
            APDUErrorCode::FileAlreadyExists => 0x6a89,
            APDUErrorCode::IncorrectP1P2 => 0x6b00,
            APDUErrorCode::InsNotSupported => 0x6d00,
            APDUErrorCode::ClaNotSupported => 0x6e00,
            APDUErrorCode::TechnicalProblem => 0x6f00,
            APDUErrorCode::MemoryProblem => 0x9240,
            APDUErrorCode::NoEFSelected => 0x9400,
            APDUErrorCode::InvalidOffset => 0x9402,
            APDUErrorCode::FileNotFound => 0x9404,
            APDUErrorCode::InconsistentFile => 0x9408,
            APDUErrorCode::AlgorithmNotSupported => 0x9484,
            APDUErrorCode::InvalidKCV => 0x9485,
            APDUErrorCode::CodeNotInitialized => 0x9802,
            APDUErrorCode::AccessConditionNotFulfilled => 0x9804,
            APDUErrorCode::ContradictionSecretCodeStatus => 0x9808,
            APDUErrorCode::ContradictionInvalidation => 0x9810,
            APDUErrorCode::CodeBlocked => 0x9840,
            APDUErrorCode::MaxValueReached => 0x9850,
            APDUErrorCode::GPAuthFailed => 0x6300,
            APDUErrorCode::Licensing => 0x6f42,
            APDUErrorCode::Halted => 0x6faa,
            APDUErrorCode::LockedDevice => 0x5515,
            APDUErrorCode::NotEnoughSpace => 0x5102,
            APDUErrorCode::NoError => 0x9000,
            APDUErrorCode::ExecutionError => 0x6400,
            APDUErrorCode::OutputBufferTooSmall => 0x6983,
            APDUErrorCode::DataInvalid => 0x6984,
            APDUErrorCode::CommandNotAllowed => 0x6986,
            APDUErrorCode::SignVerifyError => 0x6F01,
        }
    }
}

} // verus!

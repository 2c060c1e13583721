//! Status codes of the device driver.
use vstd::prelude::*;

verus! {

/// A status that the device driver returns.
#[derive(Clone, Copy, Debug, PartialEq, Eq, Structural)]
pub enum HailoStatus {
    Success,
    Uninitialized,
    InvalidArgument,
    OutOfHostMemory,
    Timeout,
    InsufficientBuffer,
    InvalidOperation,
    NotImplemented,
    InternalFailure,
    DataAlignmentFailure,
    ChunkTooLarge,
    CloseFailure,
    OpenFileFailure,
    FileOperationFailure,
    UnsupportedControlProtocolVersion,
    UnsupportedFirmwareVersion,
    InvalidControlResponse,
    FirmwareControlFailure,
    NotFound,
    CommunicationClosed,
    StreamAbort,
    DriverNotInstalled,
    NotAvailable,
    Unsupported,
}

/// The driver's numeric code of each status.
pub open spec fn status_code(s: HailoStatus) -> i32 {
    match s {
        HailoStatus::Success => 0,
        HailoStatus::Uninitialized => 1,
        HailoStatus::InvalidArgument => 2,
        HailoStatus::OutOfHostMemory => 3,
        HailoStatus::Timeout => 4,
        HailoStatus::InsufficientBuffer => 5,
        HailoStatus::InvalidOperation => 6,
        HailoStatus::NotImplemented => 7,
        HailoStatus::InternalFailure => 8,
        HailoStatus::DataAlignmentFailure => 9,
        HailoStatus::ChunkTooLarge => 10,
        HailoStatus::CloseFailure => 12,
        HailoStatus::OpenFileFailure => 13,
        HailoStatus::FileOperationFailure => 14,
        HailoStatus::UnsupportedControlProtocolVersion => 15,
        HailoStatus::UnsupportedFirmwareVersion => 16,
        HailoStatus::InvalidControlResponse => 17,
        HailoStatus::FirmwareControlFailure => 18,
        HailoStatus::NotFound => 61,
        HailoStatus::CommunicationClosed => 62,
        HailoStatus::StreamAbort => 63,
        HailoStatus::DriverNotInstalled => 64,
        HailoStatus::NotAvailable => 65,
        HailoStatus::Unsupported => 79,
    }
}

/// `v` is the code of some status.
pub open spec fn is_known_code(v: i32) -> bool {
    ||| 0 <= v <= 10
    ||| 12 <= v <= 18
    ||| 61 <= v <= 65
    ||| v == 79
}

/// The readable name of each status.
pub open spec fn status_text(s: HailoStatus) -> &'static str {
    match s {
        HailoStatus::Success => "Success",
        HailoStatus::Uninitialized => "Uninitialized",
        HailoStatus::InvalidArgument => "Invalid Argument",
        HailoStatus::OutOfHostMemory => "Out of Host Memory",
        HailoStatus::Timeout => "Timeout",
        HailoStatus::InsufficientBuffer => "Insufficient Buffer",
        HailoStatus::InvalidOperation => "Invalid Operation",
        HailoStatus::NotImplemented => "Not Implemented",
        HailoStatus::InternalFailure => "Internal Failure",
        HailoStatus::DataAlignmentFailure => "Data Alignment Failure",
        HailoStatus::ChunkTooLarge => "Chunk Too Large",
        HailoStatus::CloseFailure => "Close Failure",
        HailoStatus::OpenFileFailure => "Open File Failure",
        HailoStatus::FileOperationFailure => "File Operation Failure",
        HailoStatus::UnsupportedControlProtocolVersion => "Unsupported Control Protocol Version",
        HailoStatus::UnsupportedFirmwareVersion => "Unsupported Firmware Version",
        HailoStatus::InvalidControlResponse => "Invalid Control Response",
        HailoStatus::FirmwareControlFailure => "Firmware Control Failure",
        HailoStatus::NotFound => "Not Found",
        HailoStatus::CommunicationClosed => "Communication Closed",
        HailoStatus::StreamAbort => "Stream Abort",
        HailoStatus::DriverNotInstalled => "Driver Not Installed",
        HailoStatus::NotAvailable => "Not Available",
        HailoStatus::Unsupported => "Unsupported",
    }
}

impl HailoStatus {
    /// The status with code `value`; an unknown code reads as
    /// `InternalFailure`.
    pub fn from_i32(value: i32) -> (r: HailoStatus)
        ensures
            is_known_code(value) ==> status_code(r) == value,
            !is_known_code(value) ==> r == HailoStatus::InternalFailure,
    {
        match value {
            0 => HailoStatus::Success,
            1 => HailoStatus::Uninitialized,
            2 => HailoStatus::InvalidArgument,
            3 => HailoStatus::OutOfHostMemory,
            4 => HailoStatus::Timeout,
            5 => HailoStatus::InsufficientBuffer,
            6 => HailoStatus::InvalidOperation,
            7 => HailoStatus::NotImplemented,
            8 => HailoStatus::InternalFailure,
            9 => HailoStatus::DataAlignmentFailure,
            10 => HailoStatus::ChunkTooLarge,
            12 => HailoStatus::CloseFailure,
            13 => HailoStatus::OpenFileFailure,
            14 => HailoStatus::FileOperationFailure,
            15 => HailoStatus::UnsupportedControlProtocolVersion,
            16 => HailoStatus::UnsupportedFirmwareVersion,
            17 => HailoStatus::InvalidControlResponse,
            18 => HailoStatus::FirmwareControlFailure,
            61 => HailoStatus::NotFound,
            62 => HailoStatus::CommunicationClosed,
            63 => HailoStatus::StreamAbort,
            64 => HailoStatus::DriverNotInstalled,
            65 => HailoStatus::NotAvailable,
            79 => HailoStatus::Unsupported,
            _ => HailoStatus::InternalFailure,
        }
    }

    /// The driver's numeric code of the status.
    pub fn code(&self) -> (r: i32)
        ensures
            r == status_code(*self),
            is_known_code(r),
    {
        match self {
            HailoStatus::Success => 0,
            HailoStatus::Uninitialized => 1,
            HailoStatus::InvalidArgument => 2,
            HailoStatus::OutOfHostMemory => 3,
            HailoStatus::Timeout => 4,
            HailoStatus::InsufficientBuffer => 5,
            HailoStatus::InvalidOperation => 6,
            HailoStatus::NotImplemented => 7,
            HailoStatus::InternalFailure => 8,
            HailoStatus::DataAlignmentFailure => 9,
            HailoStatus::ChunkTooLarge => 10,
            HailoStatus::CloseFailure => 12,
            HailoStatus::OpenFileFailure => 13,
            HailoStatus::FileOperationFailure => 14,
            HailoStatus::UnsupportedControlProtocolVersion => 15,
            HailoStatus::UnsupportedFirmwareVersion => 16,
            HailoStatus::InvalidControlResponse => 17,
            HailoStatus::FirmwareControlFailure => 18,
            HailoStatus::NotFound => 61,
            HailoStatus::CommunicationClosed => 62,
            HailoStatus::StreamAbort => 63,
            HailoStatus::DriverNotInstalled => 64,
            HailoStatus::NotAvailable => 65,
            HailoStatus::Unsupported => 79,
        }
    }

    /// The readable name of the status.
    pub fn message(&self) -> (r: &'static str)
        ensures
            r == status_text(*self),
    {
        match self {
            HailoStatus::Success => "Success",
            HailoStatus::Uninitialized => "Uninitialized",
            HailoStatus::InvalidArgument => "Invalid Argument",
            HailoStatus::OutOfHostMemory => "Out of Host Memory",
            HailoStatus::Timeout => "Timeout",
            HailoStatus::InsufficientBuffer => "Insufficient Buffer",
            HailoStatus::InvalidOperation => "Invalid Operation",
            HailoStatus::NotImplemented => "Not Implemented",
            HailoStatus::InternalFailure => "Internal Failure",
            HailoStatus::DataAlignmentFailure => "Data Alignment Failure",
            HailoStatus::ChunkTooLarge => "Chunk Too Large",
            HailoStatus::CloseFailure => "Close Failure",
            HailoStatus::OpenFileFailure => "Open File Failure",
            HailoStatus::FileOperationFailure => "File Operation Failure",
            HailoStatus::UnsupportedControlProtocolVersion => "Unsupported Control Protocol Version",
            HailoStatus::UnsupportedFirmwareVersion => "Unsupported Firmware Version",
            HailoStatus::InvalidControlResponse => "Invalid Control Response",
            HailoStatus::FirmwareControlFailure => "Firmware Control Failure",
            HailoStatus::NotFound => "Not Found",
            HailoStatus::CommunicationClosed => "Communication Closed",
            HailoStatus::StreamAbort => "Stream Abort",
            HailoStatus::DriverNotInstalled => "Driver Not Installed",
            HailoStatus::NotAvailable => "Not Available",
            HailoStatus::Unsupported => "Unsupported",
        }
    }
}

/// Every status reads back from its own code.
pub proof fn lemma_status_code_round_trip(s: HailoStatus)
    ensures
        is_known_code(status_code(s)),
        forall|t: HailoStatus| status_code(t) == status_code(s) ==> t == s,
{
}

} // verus!

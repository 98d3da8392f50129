//! Outcomes of operations that did not succeed.

use vstd::prelude::*;

verus! {

/// The canonical status codes of uProtocol.
#[derive(Clone, Copy, Debug, PartialEq, Eq, Hash, Structural)]
pub enum UCode {
    OK,
    Cancelled,
    Unknown,
    InvalidArgument,
    DeadlineExceeded,
    NotFound,
    AlreadyExists,
    PermissionDenied,
    ResourceExhausted,
    FailedPrecondition,
    Aborted,
    OutOfRange,
    Unimplemented,
    Internal,
    Unavailable,
    DataLoss,
    Unauthenticated,
}

/// The number of a status code.
pub open spec fn code_value(code: UCode) -> i32 {
    match code {
        UCode::OK => 0,
        UCode::Cancelled => 1,
        UCode::Unknown => 2,
        UCode::InvalidArgument => 3,
        UCode::DeadlineExceeded => 4,
        UCode::NotFound => 5,
        UCode::AlreadyExists => 6,
        UCode::PermissionDenied => 7,
        UCode::ResourceExhausted => 8,
        UCode::FailedPrecondition => 9,
        UCode::Aborted => 10,
        UCode::OutOfRange => 11,
        UCode::Unimplemented => 12,
        UCode::Internal => 13,
        UCode::Unavailable => 14,
        UCode::DataLoss => 15,
        UCode::Unauthenticated => 16,
    }
}

/// The status code with a number, where there is one.
pub open spec fn code_of(value: i32) -> Option<UCode> {
    match value {
        0 => Some(UCode::OK),
        1 => Some(UCode::Cancelled),
        2 => Some(UCode::Unknown),
        3 => Some(UCode::InvalidArgument),
        4 => Some(UCode::DeadlineExceeded),
        5 => Some(UCode::NotFound),
        6 => Some(UCode::AlreadyExists),
        7 => Some(UCode::PermissionDenied),
        8 => Some(UCode::ResourceExhausted),
        9 => Some(UCode::FailedPrecondition),
        10 => Some(UCode::Aborted),
        11 => Some(UCode::OutOfRange),
        12 => Some(UCode::Unimplemented),
        13 => Some(UCode::Internal),
        14 => Some(UCode::Unavailable),
        15 => Some(UCode::DataLoss),
        16 => Some(UCode::Unauthenticated),
        _ => None,
    }
}

/// Reading the number of a status code gives back the code.
pub proof fn lemma_code_reads_back(code: UCode)
    ensures
        code_of(code_value(code)) == Some(code),
{
}

impl UCode {
    /// The number of this code.
    pub fn value(self) -> (value: i32)
        ensures
            value == code_value(self),
    {
        match self {
            UCode::OK => 0,
            UCode::Cancelled => 1,
            UCode::Unknown => 2,
            UCode::InvalidArgument => 3,
            UCode::DeadlineExceeded => 4,
            UCode::NotFound => 5,
            UCode::AlreadyExists => 6,
            UCode::PermissionDenied => 7,
            UCode::ResourceExhausted => 8,
            UCode::FailedPrecondition => 9,
            UCode::Aborted => 10,
            UCode::OutOfRange => 11,
            UCode::Unimplemented => 12,
            UCode::Internal => 13,
            UCode::Unavailable => 14,
            UCode::DataLoss => 15,
            UCode::Unauthenticated => 16,
        }
    }

    /// The code with a number, or the text of an error if no code has that number.
    pub fn try_from_i32(value: i32) -> (r: Result<UCode, String>)
        ensures
            match r {
                Ok(code) => code_of(value) == Some(code),
                Err(e) => code_of(value) is None && e@ == "unknown status code"@,
            },
    {
        let code = match value {
            0 => UCode::OK,
            1 => UCode::Cancelled,
            2 => UCode::Unknown,
            3 => UCode::InvalidArgument,
            4 => UCode::DeadlineExceeded,
            5 => UCode::NotFound,
            6 => UCode::AlreadyExists,
            7 => UCode::PermissionDenied,
            8 => UCode::ResourceExhausted,
            9 => UCode::FailedPrecondition,
            10 => UCode::Aborted,
            11 => UCode::OutOfRange,
            12 => UCode::Unimplemented,
            13 => UCode::Internal,
            14 => UCode::Unavailable,
            15 => UCode::DataLoss,
            16 => UCode::Unauthenticated,
            _ => {
                return Err("unknown status code".to_string());
            },
        };
        Ok(code)
    }
}

/// Why an operation failed: a code, and a message for people.
#[derive(Debug, PartialEq, Eq)]
pub struct UStatus {
    pub code: UCode,
    pub message: String,
}

/// What a [`UStatus`] holds.
#[verifier::ext_equal]
pub struct StatusView {
    pub code: UCode,
    pub message: Seq<char>,
}

impl View for UStatus {
    type V = StatusView;

    open spec fn view(&self) -> StatusView {
        StatusView { code: self.code, message: self.message@ }
    }
}

impl UStatus {
    /// A failure with a code and a message.
    pub fn fail_with_code(code: UCode, message: String) -> (r: UStatus)
        ensures
            r@ == (StatusView { code, message: message@ }),
    {
        UStatus { code, message }
    }

    /// The code of this status.
    pub fn code(&self) -> (code: UCode)
        ensures
            code == self@.code,
    {
        self.code
    }
}

/// The failure of an operation that was given an unusable argument.
pub open spec fn invalid(message: Seq<char>) -> StatusView {
    StatusView { code: UCode::InvalidArgument, message }
}

/// The failure of an operation that was given attributes without one that is required.
pub open spec fn missing(name: Seq<char>) -> StatusView {
    invalid("message attributes missing required "@ + name)
}

/// Makes the failure of an operation that was given an unusable argument.
pub fn invalid_argument(message: String) -> (r: UStatus)
    ensures
        r@ == invalid(message@),
{
    UStatus::fail_with_code(UCode::InvalidArgument, message)
}

/// Makes the failure of an operation that was given attributes without one that is required.
pub fn missing_required_attribute(name: &str) -> (r: UStatus)
    ensures
        r@ == missing(name@),
{
    invalid_argument("message attributes missing required ".to_string().concat(name))
}

} // verus!

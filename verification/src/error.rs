use vstd::prelude::*;

verus! {

/// Errors returned by ThorVG operations.
#[derive(Debug, Clone, Copy, PartialEq, Eq, Hash, Structural)]
#[non_exhaustive]
pub enum Error {
    /// An argument was rejected.
    InvalidArguments,
    /// The request cannot be processed in the object's current state.
    InsufficientCondition,
    /// A memory allocation failed.
    FailedAllocation,
    /// Bad memory handling was detected.
    MemoryCorruption,
    /// An unsupported engine feature or option was requested.
    NotSupported,
    /// A failure that does not map to a more specific variant.
    Unknown,
}

/// The `Tvg_Result` status code that stands for success.
pub const STATUS_SUCCESS: u32 = 0;

/// What a raw `Tvg_Result` status code means.
pub open spec fn status_result(code: u32) -> Result<(), Error> {
    if code == 0 {
        Ok(())
    } else if code == 1 {
        Err(Error::InvalidArguments)
    } else if code == 2 {
        Err(Error::InsufficientCondition)
    } else if code == 3 {
        Err(Error::FailedAllocation)
    } else if code == 4 {
        Err(Error::MemoryCorruption)
    } else if code == 5 {
        Err(Error::NotSupported)
    } else {
        Err(Error::Unknown)
    }
}

/// The `Tvg_Result` status code the engine reports each error with.
pub open spec fn error_code(e: Error) -> u32 {
    match e {
        Error::InvalidArguments => 1,
        Error::InsufficientCondition => 2,
        Error::FailedAllocation => 3,
        Error::MemoryCorruption => 4,
        Error::NotSupported => 5,
        Error::Unknown => 255,
    }
}

/// The text describing each error.
pub open spec fn error_message(e: Error) -> Seq<char> {
    match e {
        Error::InvalidArguments => "invalid arguments"@,
        Error::InsufficientCondition => "insufficient condition"@,
        Error::FailedAllocation => "failed allocation"@,
        Error::MemoryCorruption => "memory corruption"@,
        Error::NotSupported => "not supported"@,
        Error::Unknown => "unknown error"@,
    }
}

impl Error {
    /// A short lower-case description of the error.
    pub fn message(&self) -> (s: &'static str)
        ensures
            s@ == error_message(*self),
    {
        match self {
            Error::InvalidArguments => "invalid arguments",
            Error::InsufficientCondition => "insufficient condition",
            Error::FailedAllocation => "failed allocation",
            Error::MemoryCorruption => "memory corruption",
            Error::NotSupported => "not supported",
            Error::Unknown => "unknown error",
        }
    }

    /// Converts a raw `Tvg_Result` status code into a `Result`.
    pub fn from_raw(code: u32) -> (r: Result<(), Error>)
        ensures
            r == status_result(code),
            code == 0 ==> r == Ok::<(), Error>(()),
            code == 1 ==> r == Err::<(), Error>(Error::InvalidArguments),
            code == 2 ==> r == Err::<(), Error>(Error::InsufficientCondition),
            code == 3 ==> r == Err::<(), Error>(Error::FailedAllocation),
            code == 4 ==> r == Err::<(), Error>(Error::MemoryCorruption),
            code == 5 ==> r == Err::<(), Error>(Error::NotSupported),
            code > 5 ==> r == Err::<(), Error>(Error::Unknown),
    {
        match code {
            0 => Ok(()),
            1 => Err(Error::InvalidArguments),
            2 => Err(Error::InsufficientCondition),
            3 => Err(Error::FailedAllocation),
            4 => Err(Error::MemoryCorruption),
            5 => Err(Error::NotSupported),
            _ => Err(Error::Unknown),
        }
    }
}

/// Each error variant maps one-to-one onto a status code: decoding the
/// code the engine reports an error with gives that error back, and the
/// success code decodes to success.
pub proof fn lemma_status_round_trip(e: Error)
    ensures
        status_result(error_code(e)) == Err::<(), Error>(e),
        status_result(STATUS_SUCCESS) == Ok::<(), Error>(()),
{
}

/// The engine's fixed status codes: 0 is success, 1 to 5 the specific
/// errors, and every other code an unknown failure.
pub proof fn lemma_status_values(code: u32)
    ensures
        status_result(0) == Ok::<(), Error>(()),
        status_result(1) == Err::<(), Error>(Error::InvalidArguments),
        status_result(2) == Err::<(), Error>(Error::InsufficientCondition),
        status_result(3) == Err::<(), Error>(Error::FailedAllocation),
        status_result(4) == Err::<(), Error>(Error::MemoryCorruption),
        status_result(5) == Err::<(), Error>(Error::NotSupported),
        code > 5 ==> status_result(code) == Err::<(), Error>(Error::Unknown),
        error_code(Error::Unknown) == 255,
{
}

/// Only the success code decodes to success.
pub proof fn lemma_only_success_is_ok(code: u32)
    requires
        status_result(code) is Ok,
    ensures
        code == STATUS_SUCCESS,
{
}

} // verus!

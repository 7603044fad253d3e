//! The error taxonomy shared by every operation of the library, and the
//! translation of what a driver call reports into it.

use vstd::prelude::*;

verus! {

/// Why an operation did not succeed.
#[derive(Debug, Clone, PartialEq, Eq)]
pub enum Error {
    /// An allocation call handed back a null handle.
    ResourceCreationFailed { context: String },
    /// A driver operation reported a failure status.
    OperationFailed { os_error_code: i32 },
    /// The caller supplied an argument that the operation cannot take.
    InvalidArgument,
    /// The staged posting protocol was used out of sequence.
    InvalidState,
}

/// The magnitude of `ret`, as far as an `i32` holds it.
pub open spec fn magnitude(ret: i32) -> i32 {
    if ret < 0 && ret != i32::MIN {
        (-ret) as i32
    } else {
        ret
    }
}

/// The status that a failed driver call reports: the thread-local code where
/// one was set, otherwise the magnitude of the value that the call returned.
pub open spec fn failure_code(ret: i32, errno: i32) -> i32 {
    if errno != 0 {
        errno
    } else {
        magnitude(ret)
    }
}

/// The error for an operating-system error code.
pub fn from_errno(errno: i32) -> (e: Error)
    ensures
        e == (Error::OperationFailed { os_error_code: errno }),
{
    Error::OperationFailed { os_error_code: errno }
}

/// The error for a null handle, with the message that says what was asked
/// of the device.
pub fn custom_error(context: &str) -> (e: Error)
    ensures
        e matches Error::ResourceCreationFailed { context: c } && c@ == context@,
{
    Error::ResourceCreationFailed { context: context.to_string() }
}

/// Translates the status that a call returned directly: zero is success,
/// anything else is the error code.
pub fn check_status(ret: i32) -> (r: Result<(), Error>)
    ensures
        r is Ok <==> ret == 0,
        r is Err ==> r->Err_0 == (Error::OperationFailed { os_error_code: ret }),
{
    if ret != 0 {
        return Err(from_errno(ret));
    }
    Ok(())
}

/// Translates the status of a posting call, which reports failure through
/// the thread-local code or, where that was left at zero, through the value
/// it returned.
pub fn check_post_status(ret: i32, errno: i32) -> (r: Result<(), Error>)
    ensures
        r is Ok <==> ret == 0,
        r is Err ==> r->Err_0 == (Error::OperationFailed { os_error_code: failure_code(ret, errno) }),
{
    if ret != 0 {
        if errno != 0 {
            return Err(from_errno(errno));
        }
        if ret < 0 && ret != i32::MIN {
            return Err(from_errno(-ret));
        }
        return Err(from_errno(ret));
    }
    Ok(())
}

} // verus!

use vstd::prelude::*;

verus! {

/// Why running a hook failed.
#[derive(Clone, Debug)]
pub enum HookError {
    /// The hook could not be started or waited for.
    IoError(String),
    /// The hook ended with a status other than 0, or by a signal.
    BadExitStatus,
}

/// The outcome of a hook that ended with exit `code` (none where a signal
/// ended it): only status 0 is success.
pub fn exit_outcome(code: Option<i32>) -> (r: Result<(), HookError>)
    ensures
        r is Ok <==> code == Some(0i32),
        r matches Err(e) ==> e is BadExitStatus,
{
    match code {
        Some(0) => Ok(()),
        _ => Err(HookError::BadExitStatus),
    }
}

} // verus!

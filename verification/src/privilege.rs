//! The privilege transition: what the identity change's status means.

use vstd::prelude::*;

verus! {

/// The process could not take the superuser's identity.
#[derive(Clone, Copy, Debug, PartialEq, Eq, Structural)]
pub struct PrivilegeError;

/// The user id of the superuser, which the launcher asks for.
pub const SUPERUSER_ID: u32 = 0;

/// Whether the status that the identity change returned reports success.
pub open spec fn elevation_granted(status: i32) -> bool {
    status == 0
}

/// Judges the status returned by the operating system's identity change:
/// zero is success, anything else is a refusal.
pub fn elevation_outcome(status: i32) -> (res: Result<(), PrivilegeError>)
    ensures
        res.is_ok() <==> elevation_granted(status),
{
    if status == 0 {
        Ok(())
    } else {
        Err(PrivilegeError)
    }
}

} // verus!

//! Decisions about platform permission probes. The probes themselves are
//! platform calls; their raw answers are mapped to a status here.

use vstd::prelude::*;

verus! {

/// Outcome of a permission probe.
#[derive(Clone, Copy, Debug, PartialEq, Eq, Structural)]
pub enum PermissionStatus {
    Authorized,
    Denied,
    Restricted,
    NotDetermined,
}

/// Map the platform's media-authorization code to a status. Codes 0..=3
/// mean not-determined, restricted, denied and authorized in that order;
/// anything else reads as not determined.
pub fn status_from_av_code(code: i64) -> (r: PermissionStatus)
    ensures
        code == 0 ==> r is NotDetermined,
        code == 1 ==> r is Restricted,
        code == 2 ==> r is Denied,
        code == 3 ==> r is Authorized,
        !(0 <= code <= 3) ==> r is NotDetermined,
{
    if code == 1 {
        PermissionStatus::Restricted
    } else if code == 2 {
        PermissionStatus::Denied
    } else if code == 3 {
        PermissionStatus::Authorized
    } else {
        PermissionStatus::NotDetermined
    }
}

/// Map a yes/no screen-capture preflight answer to a status.
pub fn status_from_preflight(granted: bool) -> (r: PermissionStatus)
    ensures
        granted ==> r is Authorized,
        !granted ==> r is Denied,
{
    if granted {
        PermissionStatus::Authorized
    } else {
        PermissionStatus::Denied
    }
}

} // verus!

//! The small decisions of the command-line front end.
use vstd::prelude::*;

use crate::server::NetworkMode;

verus! {

/// `--local-only` selects the local-only network mode.
pub fn network_mode(local_only: bool) -> (r: NetworkMode)
    ensures
        r == (if local_only { NetworkMode::LocalOnly } else { NetworkMode::Public }),
{
    if local_only {
        NetworkMode::LocalOnly
    } else {
        NetworkMode::Public
    }
}

/// The process exit status for a remote exit code: the code itself when it fits
/// in 0..=255, else 1.
pub fn clamp_exit_code(code: i32) -> (r: u8)
    ensures
        0 <= code <= 255 ==> r == code,
        !(0 <= code <= 255) ==> r == 1,
{
    if code < 0 {
        1
    } else if code <= 255 {
        code as u8
    } else {
        1
    }
}

} // verus!

//! Synthetic keyboard input is unavailable while the session is locked.

use vstd::prelude::*;

verus! {

/// Lets a virtual-keyboard request through, or drops it while the session is
/// locked.
///
/// None of these requests creates an object, so dropping one is safe; dropping a
/// keymap request also closes its received descriptor.
pub fn request<R>(session_locked: bool, message: R) -> (res: Option<R>)
    ensures
        res == (if session_locked {
            None
        } else {
            Some(message)
        }),
{
    if session_locked {
        return None;
    }
    Some(message)
}

} // verus!

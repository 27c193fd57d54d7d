//! Logging only the pings that change a watcher's status.
use vstd::prelude::*;

use crate::text::chars_of;

verus! {

/// A ping is logged where the watcher has no logged ping yet (`None`), or
/// where its status differs from the latest logged status.
#[verifier::loop_isolation(false)]
pub fn log_status_change(latest_status: Option<&str>, status: &str) -> (log: bool)
    ensures
        log == match latest_status {
            None => true,
            Some(l) => l@ != status@,
        },
{
    let latest = match latest_status {
        None => return true,
        Some(l) => l,
    };
    let a = chars_of(latest);
    let b = chars_of(status);
    if a.len() != b.len() {
        return true;
    }
    let mut k: usize = 0;
    while k < a.len()
        invariant
            a@ == latest@,
            b@ == status@,
            a@.len() == b@.len(),
            k <= a@.len(),
            forall|j: int| 0 <= j < k ==> a@[j] == b@[j],
        decreases a@.len() - k,
    {
        if a[k] != b[k] {
            return true;
        }
        k = k + 1;
    }
    assert(a@ =~= b@);
    false
}

} // verus!

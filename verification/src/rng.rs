use vstd::prelude::*;

verus! {

/// Relies on getrandom::getrandom: on success the whole buffer has been
/// filled from the operating system's secure random source. Nothing can be
/// said of the bytes themselves; failure of the source is reported as `None`.
#[verifier::external_body]
pub(crate) fn os_random_bytes(n: usize) -> (r: Option<Vec<u8>>)
    ensures
        r matches Some(b) ==> b@.len() == n,
{
    let mut buf = vec![0u8; n];
    match getrandom::getrandom(&mut buf) {
        Ok(()) => Some(buf),
        Err(_) => None,
    }
}

/// Draws a uniform-up-to-modulo random index below `bound` from the secure
/// source; `None` only when the source itself refused.
pub fn random_index(bound: usize) -> (r: Option<usize>)
    requires
        bound >= 1,
    ensures
        r matches Some(j) ==> j < bound,
{
    match os_random_bytes(8) {
        None => None,
        Some(b) => {
            let mut x: u64 = 0;
            let mut i: usize = 0;
            while i < 8
                invariant
                    b@.len() == 8,
                    i <= 8,
                decreases 8 - i,
            {
                x = (x << 8) | (b[i] as u64);
                i = i + 1;
            }
            let m = x % (bound as u64);
            Some(m as usize)
        },
    }
}

} // verus!

//! Random values, by the `rand` crate.

use crate::text::is_ascii_alphanumeric;
use vstd::prelude::*;

verus! {

/// Draws `count` characters with `rand`'s `Alphanumeric` distribution from
/// the thread's generator. Each is an ASCII letter or digit; which ones come
/// is left open.
#[verifier::external_body]
pub(crate) fn random_alphanumeric(count: usize) -> (r: Vec<char>)
    ensures
        r@.len() == count,
        forall|i: int| 0 <= i < r@.len() ==> is_ascii_alphanumeric(#[trigger] r@[i]),
{
    rand::Rng::sample_iter(rand::thread_rng(), &rand::distributions::Alphanumeric).take(count).map(
        char::from,
    ).collect()
}

/// Draws a number from `low` up to, not including, `high` with
/// `rand::Rng::gen_range` from the thread's generator. The range must not be
/// empty.
#[verifier::external_body]
pub(crate) fn random_below(low: u64, high: u64) -> (r: u64)
    requires
        low < high,
    ensures
        low <= r < high,
{
    rand::Rng::gen_range(&mut rand::thread_rng(), low..high)
}

} // verus!

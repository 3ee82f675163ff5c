use rand::Rng;
use vstd::prelude::*;

verus! {

/// Calls `num_cpus::get`, the number of logical cores available to this
/// process. Its documentation promises at least 1; nothing more is
/// claimed, and two calls may differ.
#[verifier::external_body]
pub(crate) fn cpu_count() -> (n: usize)
    ensures
        n >= 1,
{
    num_cpus::get()
}

/// Calls `gen_range` of the `rand` crate on the thread's generator, with
/// the inclusive range from `low` to `high`. The result lies in the
/// range; which value comes is chance.
#[verifier::external_body]
pub(crate) fn random_in_range(low: i32, high: i32) -> (v: i32)
    requires
        low <= high,
    ensures
        low <= v <= high,
{
    rand::thread_rng().gen_range(low..=high)
}

/// The concurrency width used when the caller chooses none: the
/// parallelism that the machine offers, at least 1.
pub fn default_concurrency_width() -> (width: usize)
    ensures
        width >= 1,
{
    cpu_count()
}

} // verus!

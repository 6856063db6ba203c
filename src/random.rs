use rand::Rng;
use vstd::prelude::*;

verus! {

/// Relies on `rand::thread_rng` and `rand::Rng::gen_range` (rand 0.8): for
/// integers, `gen_range(lo..hi)` returns a value drawn from `lo..hi`, and it
/// panics when that range is empty.
#[verifier::external_body]
fn draw_below(lo: i128, hi: i128) -> (r: i128)
    requires
        lo < hi,
    ensures
        lo <= r < hi,
{
    rand::thread_rng().gen_range(lo..hi)
}

/// What a draw from `lo..hi` may return: a value of the half-open range, or
/// `lo` itself where the range is empty.
pub open spec fn in_draw_range(v: int, lo: int, hi: int) -> bool {
    if lo < hi {
        lo <= v < hi
    } else {
        v == lo
    }
}

/// A random value of `lo..hi`; an empty range gives `lo`.
pub fn uniform(lo: i64, hi: i64) -> (r: i64)
    ensures
        in_draw_range(r as int, lo as int, hi as int),
{
    if lo < hi {
        draw_below(lo as i128, hi as i128) as i64
    } else {
        lo
    }
}

/// A random index below `n`.
pub fn pick_index(n: usize) -> (r: usize)
    requires
        n > 0,
    ensures
        r < n,
{
    draw_below(0, n as i128) as usize
}

} // verus!

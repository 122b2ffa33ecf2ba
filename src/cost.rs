//! The cost that a store reports.
use vstd::prelude::*;

verus! {

/// Whole seconds of an expiry given in milliseconds; a refresh (`-1`) and
/// any other non-positive expiry count none.
pub open spec fn duration_factor(expiry_ms: int) -> int {
    if expiry_ms > 0 {
        expiry_ms / 1000
    } else {
        0
    }
}

/// `bytes_delta * duration_factor * memory_unit_cost + fixed_cost`.
pub open spec fn store_cost(bytes_delta: int, expiry_ms: int, memory_cost: int, fixed: int) -> int {
    bytes_delta * duration_factor(expiry_ms) * memory_cost + fixed
}

/// The store cost, where it fits in an `i64`.
pub fn checked_store_cost(bytes_delta: u64, expiry_ms: i64, memory_cost: i64, fixed: i64) -> (r:
    Option<i64>)
    ensures
        r is Some <==> i64::MIN <= store_cost(bytes_delta as int, expiry_ms as int, memory_cost as int, fixed as int) <= i64::MAX,
        r matches Some(c) ==> c == store_cost(bytes_delta as int, expiry_ms as int, memory_cost as int, fixed as int),
{
    let factor: i64 = if expiry_ms > 0 {
        expiry_ms / 1000
    } else {
        0
    };
    assert(factor == duration_factor(expiry_ms as int));
    assert(0 <= bytes_delta as int * factor as int <= u64::MAX as int * i64::MAX as int)
        by (nonlinear_arith)
        requires
            0 <= factor <= i64::MAX,
            0 <= bytes_delta <= u64::MAX,
    ;
    let sized: i128 = bytes_delta as i128 * factor as i128;
    if sized > u64::MAX as i128 && memory_cost != 0 {
        // Far enough from zero that no fixed cost brings it back in range.
        assert(sized * memory_cost > u64::MAX || sized * memory_cost < -(u64::MAX as int))
            by (nonlinear_arith)
            requires
                sized > u64::MAX,
                memory_cost != 0,
        ;
        return None;
    }
    let scaled: i128 = if memory_cost == 0 {
        0
    } else {
        assert(-(u64::MAX as int) * (i64::MAX as int + 1) <= sized * memory_cost <= u64::MAX as int
            * (i64::MAX as int + 1)) by (nonlinear_arith)
            requires
                0 <= sized <= u64::MAX,
                i64::MIN <= memory_cost <= i64::MAX,
        ;
        sized * memory_cost as i128
    };
    assert(scaled == sized * memory_cost);
    let total: i128 = scaled + fixed as i128;
    assert(total == store_cost(bytes_delta as int, expiry_ms as int, memory_cost as int, fixed as int));
    if total < i64::MIN as i128 || total > i64::MAX as i128 {
        None
    } else {
        Some(total as i64)
    }
}

} // verus!

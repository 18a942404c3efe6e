use vstd::prelude::*;

verus! {

/// Milliseconds left until `updated_at + lifetime` is reached, or zero once it has been;
/// a wait longer than `u64::MAX` is reported as `u64::MAX`.
pub open spec fn remaining(updated_at: u64, lifetime: u64, now: u64) -> int {
    if updated_at + lifetime <= now {
        0
    } else if updated_at + lifetime - now > u64::MAX {
        u64::MAX as int
    } else {
        updated_at + lifetime - now
    }
}

/// Time until data written at `updated_at` outlives `lifetime`, seen at `now`.
pub fn time_until_stale(updated_at: u64, lifetime: u64, now: u64) -> (r: u64)
    ensures
        r == remaining(updated_at, lifetime, now),
        r == 0 <==> updated_at + lifetime <= now,
{
    if now >= updated_at {
        let elapsed: u64 = now - updated_at;
        if elapsed >= lifetime {
            0
        } else {
            lifetime - elapsed
        }
    } else {
        let ahead: u64 = updated_at - now;
        if lifetime > u64::MAX - ahead {
            // The sum exceeds every representable instant; report the largest delay.
            u64::MAX
        } else {
            ahead + lifetime
        }
    }
}

} // verus!

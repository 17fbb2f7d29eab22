use vstd::prelude::*;

verus! {

/// A UTC instant: whole seconds since the Unix epoch, and the microseconds past
/// that second (a leap second counts them on past 999,999).
#[derive(Clone, Copy, Debug, PartialEq, Eq, Structural)]
pub struct Date {
    pub secs: i64,
    pub micros: u32,
}

/// `a` comes strictly before `b`.
pub open spec fn before(a: Date, b: Date) -> bool {
    a.secs < b.secs || (a.secs == b.secs && a.micros < b.micros)
}

/// Whether an offline snapshot issued at `issued`, expiring at `expiry`, with a
/// time-to-live of `ttl` seconds, has run out at `now`. It has once `now` is
/// past `expiry`; a positive `ttl` ends it too once `now` is more than `ttl`
/// seconds past `issued`. A `ttl` of zero or less sets no limit of its own.
pub open spec fn expired_at(issued: Date, expiry: Date, ttl: i32, now: Date) -> bool {
    ||| before(expiry, now)
    ||| ttl > 0 && (now.secs > issued.secs + ttl || (now.secs == issued.secs + ttl
        && now.micros > issued.micros))
}

/// A snapshot whose expiry lies before `now` has run out at `now`, whatever its
/// time-to-live and issue date.
pub proof fn lemma_past_expiry_has_run_out(issued: Date, expiry: Date, ttl: i32, now: Date)
    requires
        before(expiry, now),
    ensures
        expired_at(issued, expiry, ttl, now),
{
}

impl Date {
    pub fn new(secs: i64, micros: u32) -> (r: Date)
        ensures
            r.secs == secs,
            r.micros == micros,
    {
        Date { secs, micros }
    }

    /// Whether `self` comes strictly before `other`.
    pub fn is_before(&self, other: &Date) -> (r: bool)
        ensures
            r == before(*self, *other),
    {
        self.secs < other.secs || (self.secs == other.secs && self.micros < other.micros)
    }
}

/// Whether the snapshot described by `issued`, `expiry` and `ttl` has run out
/// at `now`.
pub fn is_expired(issued: Date, expiry: Date, ttl: i32, now: Date) -> (r: bool)
    ensures
        r == expired_at(issued, expiry, ttl, now),
{
    if expiry.is_before(&now) {
        return true;
    }
    if ttl <= 0 {
        return false;
    }
    let limit: i128 = issued.secs as i128 + ttl as i128;
    let at: i128 = now.secs as i128;
    at > limit || (at == limit && now.micros > issued.micros)
}

} // verus!

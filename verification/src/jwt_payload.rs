//! The claims a JWT of this project carries: a token id, an application
//! payload, and an absolute expiry in Unix milliseconds.

use vstd::prelude::*;

use crate::clock::unix_millis_now;

verus! {

/// `a + b` clamped to the `i64` range.
pub open spec fn sat_add_i64(a: i64, b: i64) -> i64 {
    if a + b > i64::MAX {
        i64::MAX
    } else if a + b < i64::MIN {
        i64::MIN
    } else {
        (a + b) as i64
    }
}

/// The payload carried inside a token. Serialisation happens with the
/// unverified web layer, on its own mirror of this type.
#[derive(Debug, PartialEq)]
pub struct JwtPayload<PayLoadType> {
    pub token_id: String,
    pub payload: PayLoadType,
    pub expire_ms: i64,
}

impl<PayLoadType> JwtPayload<PayLoadType> {
    /// A payload expiring `expire_in_ms` milliseconds from now, read off the
    /// wall clock as signed milliseconds since the Unix epoch.
    pub fn new(token_id: String, payload: PayLoadType, expire_in_ms: i64) -> (r: Self)
        ensures
            r.token_id == token_id,
            r.payload == payload,
    {
        let now_ms = unix_millis_now();
        Self::with_expiry_at(token_id, payload, now_ms, expire_in_ms)
    }

    /// A payload expiring `expire_in_ms` milliseconds past `now_ms`, clamped
    /// to the `i64` range.
    pub fn with_expiry_at(
        token_id: String,
        payload: PayLoadType,
        now_ms: i64,
        expire_in_ms: i64,
    ) -> (r: Self)
        ensures
            r.token_id == token_id,
            r.payload == payload,
            r.expire_ms == sat_add_i64(now_ms, expire_in_ms),
    {
        let expire_ms: i64 = if expire_in_ms >= 0 {
            if now_ms > i64::MAX - expire_in_ms {
                i64::MAX
            } else {
                now_ms + expire_in_ms
            }
        } else {
            if now_ms < i64::MIN - expire_in_ms {
                i64::MIN
            } else {
                now_ms + expire_in_ms
            }
        };
        JwtPayload { token_id, payload, expire_ms }
    }
}

} // verus!

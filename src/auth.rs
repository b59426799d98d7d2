//! Device credentials and the expiry policy of the token-refresh worker.

use vstd::prelude::*;
use crate::error::AgentError;
use crate::text::owned;

verus! {

/// Claims carried by a device token (times in Unix seconds).
#[derive(Debug)]
pub struct DeviceTokenClaims {
    /// Subject: the device id.
    pub sub: String,
    pub owner_id: String,
    pub capabilities: Vec<String>,
    pub iat: i64,
    pub exp: i64,
    pub iss: Option<String>,
}

/// A device credential: the raw string sent as bearer, and its claims.
#[derive(Debug)]
pub struct DeviceToken {
    pub raw: String,
    pub claims: DeviceTokenClaims,
}

/// Seconds in the one-year lifetime given to a bare-secret token.
pub const SECRET_LIFETIME_SECS: i64 = 31_536_000;

/// `a + b`, held within the `i64` range.
pub open spec fn clamped_sum(a: i64, b: i64) -> i64 {
    if a + b > i64::MAX {
        i64::MAX
    } else if a + b < i64::MIN {
        i64::MIN
    } else {
        (a + b) as i64
    }
}

fn add_clamped(a: i64, b: i64) -> (r: i64)
    ensures
        r == clamped_sum(a, b),
{
    let s: i128 = a as i128 + b as i128;
    if s > i64::MAX as i128 {
        i64::MAX
    } else if s < i64::MIN as i128 {
        i64::MIN
    } else {
        s as i64
    }
}

/// Positions of the `.` characters in `s`, in order.
pub open spec fn dot_positions(s: Seq<char>) -> Seq<int>
    decreases s.len(),
{
    if s.len() == 0 {
        Seq::empty()
    } else if s.last() == '.' {
        dot_positions(s.drop_last()).push(s.len() - 1)
    } else {
        dot_positions(s.drop_last())
    }
}

/// The claims part of a signed-claims credential: the middle of exactly three
/// `.`-separated parts. Anything else is a bare secret.
pub open spec fn claims_part(raw: Seq<char>) -> Option<Seq<char>> {
    let d = dot_positions(raw);
    if d.len() == 2 {
        Some(raw.subrange(d[0] + 1, d[1]))
    } else {
        None
    }
}

proof fn lemma_dot_positions(s: Seq<char>)
    ensures
        forall|j: int| 0 <= j < dot_positions(s).len() ==> 0 <= #[trigger] dot_positions(s)[j] < s.len(),
        forall|j: int, k: int| 0 <= j < k < dot_positions(s).len() ==> dot_positions(s)[j] < dot_positions(s)[k],
    decreases s.len(),
{
    if s.len() > 0 {
        let t = s.drop_last();
        lemma_dot_positions(t);
        let d0 = dot_positions(t);
        let d = dot_positions(s);
        if s.last() == '.' {
            assert(d == d0.push(s.len() - 1));
            assert forall|j: int| 0 <= j < d.len() implies 0 <= #[trigger] d[j] < s.len() by {
                if j < d0.len() {
                    assert(d[j] == d0[j]);
                }
            }
            assert forall|j: int, k: int| 0 <= j < k < d.len() implies d[j] < d[k] by {
                assert(d[j] == d0[j]);
                if k < d0.len() {
                    assert(d[k] == d0[k]);
                }
            }
        } else {
            assert(d == d0);
        }
    }
}

/// Splits a credential for decoding: the claims part when it has the shape of
/// signed claims (see `claims_part`), else nothing.
pub fn signed_claims_part(raw: &str) -> (r: Option<String>)
    ensures
        match claims_part(raw@) {
            Some(p) => r is Some && r->Some_0@ == p,
            None => r is None,
        },
{
    let n = raw.unicode_len();
    let mut dots: Vec<usize> = Vec::new();
    let mut i: usize = 0;
    while i < n
        invariant
            n == raw@.len(),
            i <= n,
            dots@.len() == dot_positions(raw@.subrange(0, i as int)).len(),
            forall|j: int| 0 <= j < dots@.len() ==> dots@[j] == dot_positions(raw@.subrange(0, i as int))[j],
        decreases n - i,
    {
        proof {
            assert(raw@.subrange(0, i + 1).drop_last() =~= raw@.subrange(0, i as int));
        }
        if raw.get_char(i) == '.' {
            dots.push(i);
        }
        i = i + 1;
    }
    proof {
        assert(raw@.subrange(0, n as int) =~= raw@);
        lemma_dot_positions(raw@);
    }
    if dots.len() == 2 {
        let a = dots[0] + 1;
        let b = dots[1];
        Some(owned(raw.substring_char(a, b)))
    } else {
        None
    }
}

impl DeviceToken {
    /// A token from a raw credential and its decoded claims. The raw string and
    /// the device id must both be non-empty.
    pub fn from_claims(raw: String, claims: DeviceTokenClaims) -> (r: Result<Self, AgentError>)
        ensures
            (raw@.len() > 0 && claims.sub@.len() > 0) ==> r is Ok && r->Ok_0.raw@ == raw@
                && r->Ok_0.claims.sub@ == claims.sub@ && r->Ok_0.claims.owner_id@
                == claims.owner_id@ && r->Ok_0.claims.exp == claims.exp && r->Ok_0.claims.iat
                == claims.iat,
            !(raw@.len() > 0 && claims.sub@.len() > 0) ==> r is Err && r->Err_0 is TokenError,
    {
        if raw.as_str().unicode_len() == 0 {
            return Err(AgentError::TokenError(owned("Token is empty")));
        }
        if claims.sub.as_str().unicode_len() == 0 {
            return Err(AgentError::TokenError(owned("Token has no device id")));
        }
        Ok(DeviceToken { raw, claims })
    }

    /// A long-lived token for a bare device secret issued at `now`: it expires a
    /// year later, has no owner and is issued by `device-secret`. The device id
    /// and the secret must both be non-empty.
    pub fn from_secret(device_id: String, secret: String, now: i64) -> (r: Self)
        requires
            device_id@.len() > 0,
            secret@.len() > 0,
        ensures
            r.raw@ == secret@,
            r.claims.sub@ == device_id@,
            r.claims.owner_id@.len() == 0,
            r.claims.capabilities@.len() == 0,
            r.claims.iat == now,
            r.claims.exp == clamped_sum(now, SECRET_LIFETIME_SECS),
            r.claims.iss is Some && r.claims.iss->Some_0@ == "device-secret"@,
    {
        let claims = DeviceTokenClaims {
            sub: device_id,
            owner_id: String::new(),
            capabilities: Vec::new(),
            iat: now,
            exp: add_clamped(now, SECRET_LIFETIME_SECS),
            iss: Some(owned("device-secret")),
        };
        DeviceToken { raw: secret, claims }
    }

    /// The device id.
    pub fn device_id(&self) -> (r: &str)
        ensures
            r@ == self.claims.sub@,
    {
        self.claims.sub.as_str()
    }

    /// The owner id.
    pub fn owner_id(&self) -> (r: &str)
        ensures
            r@ == self.claims.owner_id@,
    {
        self.claims.owner_id.as_str()
    }

    /// True when the token expired before `now`.
    pub fn is_expired(&self, now: i64) -> (r: bool)
        ensures
            r == (self.claims.exp < now),
    {
        self.claims.exp < now
    }

    /// True when the token expires within `seconds` of `now`:
    /// `expires_at - now < seconds`.
    pub fn expires_within(&self, now: i64, seconds: i64) -> (r: bool)
        ensures
            r == (self.claims.exp - now < seconds),
    {
        (self.claims.exp as i128) - (now as i128) < seconds as i128
    }

    /// Expiry time, Unix seconds.
    pub fn expires_at(&self) -> (r: i64)
        ensures
            r == self.claims.exp,
    {
        self.claims.exp
    }

    /// Seconds from `now` until expiry (negative once expired).
    pub fn time_until_expiry(&self, now: i64) -> (r: i128)
        ensures
            r == self.claims.exp - now,
    {
        self.claims.exp as i128 - now as i128
    }
}

/// Whether the refresh worker must refresh `token` at `now`: the token is
/// expiring soon, that is `expires_at - now < threshold_secs`.
pub fn should_refresh(token: &DeviceToken, now: i64, threshold_secs: i64) -> (r: bool)
    ensures
        r == (token.claims.exp - now < threshold_secs),
{
    token.expires_within(now, threshold_secs)
}

} // verus!

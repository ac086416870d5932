//! Fail-fast validation of the credential headers. A header value may hold
//! only horizontal tab, or a byte at or above the space character other than
//! delete; anything else is rejected here, before a client is ever built.

use vstd::prelude::*;
use crate::errors::ConfigError;

verus! {

/// Whether one byte may stand in an HTTP header field value: horizontal tab,
/// or any byte at or above space except delete.
pub open spec fn valid_header_byte(b: u8) -> bool {
    b == 9 || (b >= 32 && b != 127)
}

/// Whether every byte of the value may stand in an HTTP header field value.
pub open spec fn valid_header_value(s: Seq<u8>) -> bool {
    forall|i: int| 0 <= i < s.len() ==> valid_header_byte(#[trigger] s[i])
}

/// Checks a candidate header value byte by byte.
pub fn check_header_value(v: &[u8]) -> (ok: bool)
    ensures
        ok == valid_header_value(v@),
{
    let mut i: usize = 0;
    while i < v.len()
        invariant
            0 <= i <= v@.len(),
            forall|j: int| 0 <= j < i ==> valid_header_byte(#[trigger] v@[j]),
        decreases v@.len() - i,
    {
        let b = v[i];
        if !(b == 9 || (b >= 32 && b != 127)) {
            assert(!valid_header_byte(v@[i as int]));
            return false;
        }
        i = i + 1;
    }
    true
}

/// The validated credential headers of a session: the cookie and the
/// auxiliary auth token, both known to be well-formed header values.
#[derive(Debug)]
pub struct HeaderPlan {
    pub cookie: Vec<u8>,
    pub auth_token: Vec<u8>,
}

impl HeaderPlan {
    /// Both stored values are well-formed header values.
    pub open spec fn wf(self) -> bool {
        valid_header_value(self.cookie@) && valid_header_value(self.auth_token@)
    }
}

/// Builds the credential headers for a session, failing fast on the first
/// value that holds a byte invalid for an HTTP header field. The cookie is
/// checked before the auth token.
pub fn build_header_plan(cookie: Vec<u8>, auth_token: Vec<u8>) -> (r: Result<
    HeaderPlan,
    ConfigError,
>)
    ensures
        !valid_header_value(cookie@) ==> r == Err::<HeaderPlan, ConfigError>(
            ConfigError::InvalidCookie,
        ),
        valid_header_value(cookie@) && !valid_header_value(auth_token@) ==> r == Err::<
            HeaderPlan,
            ConfigError,
        >(ConfigError::InvalidAuthToken),
        valid_header_value(cookie@) && valid_header_value(auth_token@) ==> {
            &&& r is Ok
            &&& r->Ok_0.cookie@ == cookie@
            &&& r->Ok_0.auth_token@ == auth_token@
            &&& r->Ok_0.wf()
        },
{
    if !check_header_value(cookie.as_slice()) {
        return Err(ConfigError::InvalidCookie);
    }
    if !check_header_value(auth_token.as_slice()) {
        return Err(ConfigError::InvalidAuthToken);
    }
    Ok(HeaderPlan { cookie, auth_token })
}

} // verus!

//! Caller identity: token claims and registration validation.
//!
//! Tokens are minted and verified by the user service; this crate only
//! consumes a verified caller identity and checks its expiry.

use crate::errors::AppError;
use vstd::prelude::*;

verus! {

/// The standing a user account can have.
#[derive(Debug, Clone, Copy, PartialEq, Eq, Structural)]
pub enum UserRole {
    Default,
    Premium,
}

/// A user row.
#[derive(Debug)]
pub struct User {
    /// The unique identifier of the user.
    pub uuid: u128,
    /// The user's display name.
    pub name: String,
    /// The user's email address.
    pub email: String,
    /// The user's password hash, in PHC string form.
    pub password: String,
    /// When the account was created, ISO-8601 UTC.
    pub created_at: String,
}

/// The claims a verified access token carries.
#[derive(Debug)]
pub struct AccessTokenClaims {
    /// The user the token identifies.
    pub sub: u128,
    /// The user's display name.
    pub name: String,
    /// The user's email address.
    pub email: String,
    /// When the token expires, seconds since the epoch.
    pub exp: i64,
}

/// The claims a verified refresh token carries.
#[derive(Debug)]
pub struct RefreshTokenClaims {
    /// The user the token identifies.
    pub sub: u128,
    /// The stored token this refresh token continues.
    pub token_id: u128,
    /// When the token expires, seconds since the epoch.
    pub exp: i64,
}

/// Reads a token lifetime given as a whole number of minutes, as seconds:
/// sixty times the decimal value, when the text is digits and the product
/// fits.
pub fn parse_duration(s: &str) -> (r: Option<u64>)
    ensures
        match r {
            Some(secs) => crate::text::all_digits(s@) && s@.len() >= 1 && secs == 60
                * crate::text::dec_val(s@),
            None => !crate::text::all_digits(s@) || s@.len() == 0 || crate::text::dec_val(s@)
                > u64::MAX || 60 * crate::text::dec_val(s@) > u64::MAX,
        },
{
    let cs = crate::text::str_to_chars(s);
    if cs.len() == 0 {
        return None;
    }
    let mut i: usize = 0;
    while i < cs.len()
        invariant
            cs@ == s@,
            i <= cs@.len(),
            forall|j: int| 0 <= j < i ==> crate::text::is_digit(#[trigger] cs@[j]),
        decreases cs@.len() - i,
    {
        let c = cs[i];
        if !(c >= '0' && c <= '9') {
            proof {
                assert(!crate::text::all_digits(s@));
            }
            return None;
        }
        i = i + 1;
    }
    match crate::text::dec_val_u64(&cs, 0, cs.len()) {
        Some(minutes) => {
            proof {
                assert(cs@.subrange(0, cs@.len() as int) =~= s@);
            }
            if minutes > u64::MAX / 60 {
                return None;
            }
            Some(minutes * 60)
        },
        None => {
            proof {
                assert(cs@.subrange(0, cs@.len() as int) =~= s@);
            }
            None
        },
    }
}

/// An unexpired token is accepted; a past expiry is refused as
/// unauthorized.
pub fn validate_expiration_date(expiration: i64, now: i64) -> (r: Result<(), AppError>)
    ensures
        r is Ok <==> now <= expiration,
        r is Err ==> r->Err_0 is Unauthorized,
{
    if now > expiration {
        Err(AppError::Unauthorized)
    } else {
        Ok(())
    }
}

/// A registration request as a caller submits it.
#[derive(Debug)]
pub struct RegisterRequest {
    /// The display name; three to fifty characters.
    pub name: String,
    /// The email address.
    pub email: String,
    /// The password; eight to fifty characters.
    pub password: String,
}

/// A plausible email: one `@`, with something before it and a dot-bearing
/// domain of at least three characters after it.
pub open spec fn email_ok(s: Seq<char>) -> bool {
    exists|i: int|
        0 < i < s.len() - 3 && s[i] == '@' && (exists|j: int| i < j < s.len() && s[j] == '.')
            && (forall|k: int| 0 <= k < s.len() && k != i ==> s[k] != '@')
}

/// Whether a registration request is acceptable: name of three to fifty
/// characters, password of eight to fifty, plausible email.
pub open spec fn register_ok(name: Seq<char>, email: Seq<char>, password: Seq<char>) -> bool {
    &&& 3 <= name.len() <= 50
    &&& 8 <= password.len() <= 50
    &&& email_ok(email)
}

impl RegisterRequest {
    /// Accepts exactly the requests `register_ok` allows.
    pub fn validate(&self) -> (r: bool)
        ensures
            r == register_ok(self.name@, self.email@, self.password@),
    {
        let name = crate::text::str_to_chars(self.name.as_str());
        if name.len() < 3 || name.len() > 50 {
            return false;
        }
        let password = crate::text::str_to_chars(self.password.as_str());
        if password.len() < 8 || password.len() > 50 {
            return false;
        }
        let email = crate::text::str_to_chars(self.email.as_str());
        let mut at: Option<usize> = None;
        let mut ats: usize = 0;
        let mut dot_after_at = false;
        let mut i: usize = 0;
        while i < email.len()
            invariant
                i <= email@.len(),
                email@ == self.email@,
                match at {
                    Some(a) => a < i && email@[a as int] == '@' && ats >= 1,
                    None => ats == 0,
                },
                ats <= 1,
                ats == 0 <==> (forall|k: int| 0 <= k < i ==> email@[k] != '@'),
                ats == 1 <==> (at matches Some(a) && (forall|k: int|
                    0 <= k < i && k != a ==> email@[k] != '@')),
                dot_after_at <==> (at matches Some(a) && exists|j: int|
                    a < j < i && email@[j] == '.'),
            decreases email@.len() - i,
        {
            let c = email[i];
            if c == '@' {
                if ats == 0 {
                    at = Some(i);
                }
                ats = ats + 1;
                if ats > 1 {
                    proof {
                        let a = at->Some_0 as int;
                        assert(email@[a] == '@' && email@[i as int] == '@' && a != i);
                        assert(!email_ok(email@));
                    }
                    return false;
                }
            } else if c == '.' {
                if at.is_some() {
                    dot_after_at = true;
                }
            }
            i = i + 1;
        }
        match at {
            None => {
                proof {
                    assert(!email_ok(email@));
                }
                false
            },
            Some(a) => {
                let ok = a > 0 && email.len() - a > 3 && dot_after_at;
                proof {
                    let ai = a as int;
                    assert(ats == 1);
                    if ok {
                        assert(0 < ai < email@.len() - 3 && email@[ai] == '@' && (exists|j2: int|
                            ai < j2 < email@.len() && email@[j2] == '.') && (forall|k: int|
                            0 <= k < email@.len() && k != ai ==> email@[k] != '@'));
                        assert(email_ok(email@));
                    } else {
                        assert forall|i2: int|
                            !(0 < i2 < email@.len() - 3 && email@[i2] == '@' && (exists|j: int|
                                i2 < j < email@.len() && email@[j] == '.') && (forall|k: int|
                                0 <= k < email@.len() && k != i2 ==> email@[k] != '@')) by {
                            if 0 < i2 < email@.len() - 3 && email@[i2] == '@' {
                                if i2 != a {
                                } else {
                                    assert(!(a > 0 && a + 3 < email@.len()) || !dot_after_at);
                                }
                            }
                        }
                        assert(!email_ok(email@));
                    }
                }
                ok
            },
        }
    }
}

} // verus!

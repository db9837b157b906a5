//! Identity resolution and the authorization guard.
//!
//! Resolution runs once per request and is permissive: it records either a
//! resolved identity or the specific reason resolution failed, and never
//! rejects the request itself. The guard runs only on protected routes and
//! demands a resolved identity from the recorded outcome.

use vstd::prelude::*;

use crate::error::Error;

verus! {

/// The resolved caller identity, created once during resolution and read by
/// the guard and by handlers. Request-scoped; never shared across requests.
#[derive(Debug, Clone, Copy, PartialEq, Eq, Structural)]
pub struct IdentityContext {
    pub user_id: u64,
}

/// The per-request record of identity resolution: either a resolved identity
/// or the specific failure. Its presence is unconditional — a request with no
/// credential still produces a `Failed` outcome rather than nothing.
#[derive(Debug, Clone, Copy, PartialEq, Eq, Structural)]
pub enum ResolutionOutcome {
    Resolved(IdentityContext),
    Failed(Error),
}

/// Resolution only ever fails with one of the two resolution-failure kinds;
/// the wiring-defect kind is reserved for the guard finding no outcome at all.
pub open spec fn outcome_wf(o: ResolutionOutcome) -> bool {
    o matches ResolutionOutcome::Failed(e) ==> (e == Error::AuthMissingCredential || e
        == Error::AuthMalformedCredential)
}

pub open spec fn is_digit(c: char) -> bool {
    '0' <= c && c <= '9'
}

pub open spec fn digit_val(c: char) -> int {
    c as int - '0' as int
}

/// The end of the run of decimal digits starting at `i`.
pub open spec fn digits_end(s: Seq<char>, i: int) -> int
    decreases s.len() - i,
{
    if 0 <= i && i < s.len() && is_digit(s[i]) {
        digits_end(s, i + 1)
    } else {
        i
    }
}

/// The first index at or after `i` holding `c`, or `s.len()` if there is none.
pub open spec fn find_from(s: Seq<char>, i: int, c: char) -> int
    decreases s.len() - i,
{
    if 0 <= i && i < s.len() {
        if s[i] == c {
            i
        } else {
            find_from(s, i + 1, c)
        }
    } else {
        i
    }
}

/// The numeric value of the decimal digits `s[i..j)`.
pub open spec fn digits_value(s: Seq<char>, i: int, j: int) -> int
    decreases j - i,
{
    if i < j {
        digits_value(s, i, j - 1) * 10 + digit_val(s[j - 1])
    } else {
        0
    }
}

pub open spec fn has_user_prefix(s: Seq<char>) -> bool {
    s.len() >= 5 && s[0] == 'u' && s[1] == 's' && s[2] == 'e' && s[3] == 'r' && s[4] == '-'
}

/// Structural validity of a credential: `user-<digits>.<expiry>.<signature>`,
/// with at least one digit, a numeric value that fits in `u64`, a non-empty
/// expiry holding no `.`, and a non-empty signature.
pub open spec fn valid_credential(s: Seq<char>) -> bool {
    let d = digits_end(s, 5);
    let e = find_from(s, d + 1, '.');
    &&& has_user_prefix(s)
    &&& 5 < d
    &&& d < s.len() && s[d] == '.'
    &&& d + 1 < e
    &&& e < s.len()
    &&& e + 1 < s.len()
    &&& digits_value(s, 5, d) <= u64::MAX
}

/// The caller id carried by a structurally valid credential.
pub open spec fn credential_user_id(s: Seq<char>) -> int {
    digits_value(s, 5, digits_end(s, 5))
}

proof fn lemma_digits_end_props(s: Seq<char>, i: int)
    requires
        0 <= i <= s.len(),
    ensures
        i <= digits_end(s, i) <= s.len(),
        forall|m: int| i <= m < digits_end(s, i) ==> is_digit(#[trigger] s[m]),
        digits_end(s, i) < s.len() ==> !is_digit(s[digits_end(s, i)]),
    decreases s.len() - i,
{
    if i < s.len() && is_digit(s[i]) {
        lemma_digits_end_props(s, i + 1);
    }
}

proof fn lemma_find_from_props(s: Seq<char>, i: int, c: char)
    requires
        0 <= i <= s.len(),
    ensures
        i <= find_from(s, i, c) <= s.len(),
        forall|m: int| i <= m < find_from(s, i, c) ==> #[trigger] s[m] != c,
        find_from(s, i, c) < s.len() ==> s[find_from(s, i, c)] == c,
    decreases s.len() - i,
{
    if i < s.len() && s[i] != c {
        lemma_find_from_props(s, i + 1, c);
    }
}

proof fn lemma_digits_value_nonneg(s: Seq<char>, i: int, j: int)
    requires
        forall|m: int| i <= m < j ==> is_digit(#[trigger] s[m]),
    ensures
        0 <= digits_value(s, i, j),
    decreases j - i,
{
    if i < j {
        lemma_digits_value_nonneg(s, i, j - 1);
    }
}

proof fn lemma_digits_value_mono(s: Seq<char>, i: int, j: int, k: int)
    requires
        i <= j <= k,
        forall|m: int| i <= m < k ==> is_digit(#[trigger] s[m]),
    ensures
        digits_value(s, i, j) <= digits_value(s, i, k),
    decreases k - j,
{
    if j < k {
        lemma_digits_value_mono(s, i, j, k - 1);
        lemma_digits_value_nonneg(s, i, k - 1);
    }
}

/// Structural validation of a credential: `Some(uid)` exactly when the
/// credential is structurally valid, with `uid` the carried caller id.
pub fn parse_credential(s: &str) -> (r: Option<u64>)
    ensures
        r is Some <==> valid_credential(s@),
        r matches Some(uid) ==> uid as int == credential_user_id(s@),
{
    let n = s.unicode_len();
    if n < 6 {
        return None;
    }
    if !(s.get_char(0) == 'u' && s.get_char(1) == 's' && s.get_char(2) == 'e' && s.get_char(3)
        == 'r' && s.get_char(4) == '-') {
        return None;
    }
    proof {
        lemma_digits_end_props(s@, 5);
    }
    let mut i: usize = 5;
    let mut acc: u64 = 0;
    loop
        invariant
            5 <= i <= n,
            n == s@.len(),
            digits_end(s@, 5) == digits_end(s@, i as int),
            acc as int == digits_value(s@, 5, i as int),
            forall|m: int| 5 <= m < i as int ==> is_digit(#[trigger] s@[m]),
        ensures
            5 <= i <= n,
            n == s@.len(),
            i as int == digits_end(s@, 5),
            acc as int == digits_value(s@, 5, i as int),
            forall|m: int| 5 <= m < i as int ==> is_digit(#[trigger] s@[m]),
        decreases n - i,
    {
        if i >= n {
            break ;
        }
        let c = s.get_char(i);
        let v = c as u32;
        if !(48 <= v && v <= 57) {
            break ;
        }
        let dig: u64 = (v - 48) as u64;
        let stepped = acc.checked_mul(10);
        match stepped {
            Some(m) => {
                match m.checked_add(dig) {
                    Some(next) => {
                        acc = next;
                    },
                    None => {
                        proof {
                            lemma_overflow_invalidates(s@, i as int, acc as int, dig as int);
                        }
                        return None;
                    },
                }
            },
            None => {
                proof {
                    lemma_overflow_invalidates(s@, i as int, acc as int, dig as int);
                }
                return None;
            },
        }
        i = i + 1;
    }
    let digits_until = i;
    if digits_until == 5 {
        return None;
    }
    if digits_until >= n {
        return None;
    }
    if s.get_char(digits_until) != '.' {
        return None;
    }
    proof {
        lemma_find_from_props(s@, digits_until as int + 1, '.');
    }
    let mut j: usize = digits_until + 1;
    loop
        invariant
            digits_until + 1 <= j <= n,
            n == s@.len(),
            find_from(s@, digits_until as int + 1, '.') == find_from(s@, j as int, '.'),
        ensures
            digits_until + 1 <= j <= n,
            n == s@.len(),
            j as int == find_from(s@, digits_until as int + 1, '.'),
        decreases n - j,
    {
        if j >= n {
            break ;
        }
        if s.get_char(j) == '.' {
            break ;
        }
        j = j + 1;
    }
    if j == digits_until + 1 {
        return None;
    }
    if j >= n {
        return None;
    }
    if j + 1 >= n {
        return None;
    }
    Some(acc)
}

/// When the digit accumulator would overflow at position `i`, the full digit
/// run's value exceeds `u64::MAX`, so the credential is not valid.
proof fn lemma_overflow_invalidates(s: Seq<char>, i: int, acc: int, dig: int)
    requires
        5 <= i < s.len(),
        is_digit(s[i]),
        digits_end(s, 5) == digits_end(s, i),
        acc == digits_value(s, 5, i),
        dig == digit_val(s[i]),
        forall|m: int| 5 <= m < i ==> is_digit(#[trigger] s[m]),
        acc * 10 > u64::MAX || acc * 10 + dig > u64::MAX,
    ensures
        !valid_credential(s),
{
    lemma_digits_end_props(s, i);
    let d = digits_end(s, 5);
    assert(digits_value(s, 5, i + 1) == acc * 10 + dig);
    assert(forall|m: int| 5 <= m < d ==> is_digit(#[trigger] s[m])) by {
        lemma_digits_end_props(s, 5);
    }
    lemma_digits_value_mono(s, 5, i + 1, d);
    assert(digits_value(s, 5, d) > u64::MAX);
}

/// What resolution records for a request that did present a credential.
pub open spec fn resolve_present_spec(s: Seq<char>) -> ResolutionOutcome {
    if valid_credential(s) {
        ResolutionOutcome::Resolved(IdentityContext { user_id: credential_user_id(s) as u64 })
    } else {
        ResolutionOutcome::Failed(Error::AuthMalformedCredential)
    }
}

/// What resolution records for any request: a missing credential is recorded,
/// not enforced.
pub open spec fn resolve_spec(cred: Option<Seq<char>>) -> ResolutionOutcome {
    match cred {
        Option::None => ResolutionOutcome::Failed(Error::AuthMissingCredential),
        Option::Some(s) => resolve_present_spec(s),
    }
}

/// The context resolution stage: runs for every request, before dispatch, and
/// always produces an outcome. Failure here never rejects the request; it is
/// deferred data for the authorization guard.
pub fn resolve_context(credential: Option<&str>) -> (r: ResolutionOutcome)
    ensures
        credential is None ==> r == ResolutionOutcome::Failed(Error::AuthMissingCredential),
        credential matches Some(s) ==> r == resolve_present_spec(s@),
        outcome_wf(r),
{
    match credential {
        None => ResolutionOutcome::Failed(Error::AuthMissingCredential),
        Some(s) => match parse_credential(s) {
            Some(uid) => ResolutionOutcome::Resolved(IdentityContext { user_id: uid }),
            None => ResolutionOutcome::Failed(Error::AuthMalformedCredential),
        },
    }
}

/// What the authorization guard decides from the recorded outcome: a resolved
/// identity passes, a recorded failure is re-raised unchanged, and a missing
/// outcome is the wiring-defect failure.
pub open spec fn guard_spec(outcome: Option<ResolutionOutcome>) -> Result<IdentityContext, Error> {
    match outcome {
        Option::None => Result::Err(Error::AuthContextMissing),
        Option::Some(ResolutionOutcome::Resolved(ctx)) => Result::Ok(ctx),
        Option::Some(ResolutionOutcome::Failed(e)) => Result::Err(e),
    }
}

/// The authorization guard, applied only to protected routes. It preserves the
/// specific failure as first recorded, for logging — never a generic
/// replacement.
pub fn authorize(outcome: Option<&ResolutionOutcome>) -> (r: Result<IdentityContext, Error>)
    ensures
        r == guard_spec(
            match outcome {
                Option::None => Option::None,
                Option::Some(o) => Option::Some(*o),
            },
        ),
{
    match outcome {
        None => Err(Error::AuthContextMissing),
        Some(ResolutionOutcome::Resolved(ctx)) => Ok(*ctx),
        Some(ResolutionOutcome::Failed(e)) => Err(*e),
    }
}

} // verus!

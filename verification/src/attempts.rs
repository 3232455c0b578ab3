//! The attempt-tracking core: the per-phone record, the store, and the two
//! operations that issue and check verification codes.
use vstd::prelude::*;

verus! {

broadcast use vstd::std_specs::hash::group_hash_axioms;

/// How many wrong submissions a caller may make before the cooldown starts.
pub const INITIAL_ATTEMPTS: u8 = 3;

/// Seconds before a code goes stale; also the length of the cooldown.
pub const TTL_SECS: u64 = 10;

/// Smallest value a generated code can take (inclusive).
pub const CODE_MIN: u16 = 1;

/// Upper bound on generated codes (exclusive).
pub const CODE_MAX: u16 = 9999;

/// Smallest accepted phone number (inclusive).
pub const PHONE_MIN: u64 = 79000000000;

/// Largest accepted phone number (inclusive).
pub const PHONE_MAX: u64 = 79999999999;

pub type Count = u8;

pub type Code = u16;

pub type Phone = u64;

/// Seconds since the Unix epoch.
pub type Timestamp = u64;

/// One verification cycle for a phone number: the secret code the caller
/// must submit, how many wrong submissions are still tolerated, and when the
/// record was last touched.
#[derive(Clone, Copy, Debug, PartialEq, Eq, Structural)]
pub struct Attempt {
    pub count: Count,
    pub last_attemped_at: Timestamp,
    pub code: Code,
}

/// The shared store: at most one pending cycle per phone number.
pub type Attempts = std::collections::HashMap<Phone, Attempt>;

/// A phone number is well-formed only when it lies in the accepted
/// country-code range.
pub open spec fn phone_valid(phone: Phone) -> bool {
    PHONE_MIN <= phone <= PHONE_MAX
}

/// Generated codes are drawn from the half-open range `[CODE_MIN, CODE_MAX)`.
pub open spec fn code_in_range(code: Code) -> bool {
    CODE_MIN <= code < CODE_MAX
}

/// The instant a cycle last touched at `last` stops being current: retrying
/// becomes possible and the code stops being accepted. Clamped to the top of
/// the timestamp range rather than wrapping.
pub open spec fn retry_at(last: Timestamp) -> Timestamp {
    if last + TTL_SECS <= u64::MAX {
        (last + TTL_SECS) as u64
    } else {
        u64::MAX
    }
}

/// A cycle last touched at `last` has aged out by `now` once more than a
/// full TTL has elapsed.
pub open spec fn is_expired(last: Timestamp, now: Timestamp) -> bool {
    now > retry_at(last)
}

/// The record a request creates or renews: full attempt budget, the freshly
/// drawn code, and the current instant.
pub open spec fn fresh_attempt(now: Timestamp, fresh: Code) -> Attempt {
    Attempt { count: INITIAL_ATTEMPTS, last_attemped_at: now, code: fresh }
}

/// Well-formedness of the store contents: every pending cycle holds at most
/// the initial attempt budget and a code from the generated range.
pub open spec fn store_wf(m: Map<Phone, Attempt>) -> bool {
    forall|p: Phone|
        #[trigger] m.contains_key(p) ==> m[p].count <= INITIAL_ATTEMPTS && code_in_range(m[p].code)
}

/// Whether both operations accept the phone number; numbers outside the
/// range are rejected before any store access.
pub fn check_phone(phone: Phone) -> (r: bool)
    ensures
        r == phone_valid(phone),
{
    PHONE_MIN <= phone && phone <= PHONE_MAX
}

/// What checking a submitted code against the store yields.
#[derive(Clone, Copy, Debug, PartialEq, Eq, Structural)]
pub enum CodeResult {
    /// The cycle aged out before the submission; request a new code.
    Expired,
    /// The attempt budget is spent; retry from the instant carried here.
    OutOfAttempts(Timestamp),
    /// Wrong code; this many attempts remain.
    Invalid(Count),
    /// The phone number is outside the accepted range.
    InvalidPhone,
    /// No cycle is pending for this phone; request a code first.
    NotFound,
    /// The submitted code matched; the cycle is over.
    Valid,
}

/// What requesting a code yields.
#[derive(Clone, Copy, Debug, PartialEq, Eq, Structural)]
pub enum PhoneResult {
    /// A fresh cycle was created (or an expired one renewed) with this many
    /// attempts.
    Success(Count),
    /// An un-expired cycle is already live: its remaining attempts and the
    /// instant it stops being current.
    Exists(Count, Timestamp),
    /// The attempt budget is spent and the cooldown has not elapsed; retry
    /// from the instant carried here.
    TooSoon(Timestamp),
    /// The phone number is outside the accepted range.
    InvalidPhone,
}

/// What requesting a code at instant `now` does to store contents `m`, given
/// the code `fresh` that a renewal would install: the store afterwards and
/// the operation's result.
pub open spec fn spec_get_code(
    m: Map<Phone, Attempt>,
    phone: Phone,
    now: Timestamp,
    fresh: Code,
) -> (Map<Phone, Attempt>, PhoneResult) {
    if !phone_valid(phone) {
        (m, PhoneResult::InvalidPhone)
    } else if !m.contains_key(phone) || is_expired(m[phone].last_attemped_at, now) {
        (m.insert(phone, fresh_attempt(now, fresh)), PhoneResult::Success(INITIAL_ATTEMPTS))
    } else if m[phone].count == 0 {
        (m, PhoneResult::TooSoon(retry_at(m[phone].last_attemped_at)))
    } else {
        (m, PhoneResult::Exists(m[phone].count, retry_at(m[phone].last_attemped_at)))
    }
}

/// What checking `code` at instant `now` does to store contents `m`: the
/// store afterwards and the operation's result. Expiry wins over
/// exhaustion, exhaustion over a match; only a match removes the entry; a
/// wrong submission spends one attempt and refreshes the activity instant.
pub open spec fn spec_check_code(
    m: Map<Phone, Attempt>,
    phone: Phone,
    code: Code,
    now: Timestamp,
) -> (Map<Phone, Attempt>, CodeResult) {
    if !phone_valid(phone) {
        (m, CodeResult::InvalidPhone)
    } else if !m.contains_key(phone) {
        (m, CodeResult::NotFound)
    } else if is_expired(m[phone].last_attemped_at, now) {
        (m, CodeResult::Expired)
    } else if m[phone].count == 0 {
        (m, CodeResult::OutOfAttempts(retry_at(m[phone].last_attemped_at)))
    } else if m[phone].code == code {
        (m.remove(phone), CodeResult::Valid)
    } else {
        let spent = Attempt {
            count: (m[phone].count - 1) as Count,
            last_attemped_at: now,
            code: m[phone].code,
        };
        if spent.count > 0 {
            (m.insert(phone, spent), CodeResult::Invalid(spent.count))
        } else {
            (m.insert(phone, spent), CodeResult::OutOfAttempts(retry_at(now)))
        }
    }
}

/// The instant the cycle last touched at `last` stops being current,
/// clamped instead of wrapping.
pub fn compute_retry_at(last: Timestamp) -> (r: Timestamp)
    ensures
        r == retry_at(last),
{
    if last <= u64::MAX - TTL_SECS {
        last + TTL_SECS
    } else {
        u64::MAX
    }
}

/// Requesting a code, with the current instant and the candidate fresh code
/// passed in. This is the whole request decision: validation, lazy renewal
/// of an expired entry, cooldown, and the live-cycle report.
pub fn get_code_at(attempts: &mut Attempts, phone: Phone, now: Timestamp, fresh: Code) -> (r:
    PhoneResult)
    ensures
        final(attempts)@ == spec_get_code(old(attempts)@, phone, now, fresh).0,
        r == spec_get_code(old(attempts)@, phone, now, fresh).1,
{
    if !check_phone(phone) {
        return PhoneResult::InvalidPhone;
    }
    let existing: Option<Attempt> = match attempts.get(&phone) {
        Some(a) => Some(*a),
        None => None,
    };
    match existing {
        None => {
            attempts.insert(phone, Attempt { count: INITIAL_ATTEMPTS, last_attemped_at: now, code: fresh });
            PhoneResult::Success(INITIAL_ATTEMPTS)
        },
        Some(a) => {
            if now > compute_retry_at(a.last_attemped_at) {
                attempts.insert(phone, Attempt { count: INITIAL_ATTEMPTS, last_attemped_at: now, code: fresh });
                PhoneResult::Success(INITIAL_ATTEMPTS)
            } else if a.count == 0 {
                PhoneResult::TooSoon(compute_retry_at(a.last_attemped_at))
            } else {
                PhoneResult::Exists(a.count, compute_retry_at(a.last_attemped_at))
            }
        },
    }
}

/// Checking a submitted code, with the current instant passed in. This is
/// the whole verification decision, in strict priority order: validation,
/// presence, expiry, exhaustion, match (which destroys the entry), and the
/// attempt-spending wrong-code path.
pub fn check_code_at(attempts: &mut Attempts, phone: Phone, code: Code, now: Timestamp) -> (r:
    CodeResult)
    ensures
        final(attempts)@ == spec_check_code(old(attempts)@, phone, code, now).0,
        r == spec_check_code(old(attempts)@, phone, code, now).1,
{
    if !check_phone(phone) {
        return CodeResult::InvalidPhone;
    }
    let existing: Option<Attempt> = match attempts.get(&phone) {
        Some(a) => Some(*a),
        None => None,
    };
    match existing {
        None => CodeResult::NotFound,
        Some(a) => {
            if now > compute_retry_at(a.last_attemped_at) {
                CodeResult::Expired
            } else if a.count == 0 {
                CodeResult::OutOfAttempts(compute_retry_at(a.last_attemped_at))
            } else if a.code == code {
                attempts.remove(&phone);
                CodeResult::Valid
            } else {
                let spent = Attempt { count: a.count - 1, last_attemped_at: now, code: a.code };
                attempts.insert(phone, spent);
                if spent.count > 0 {
                    CodeResult::Invalid(spent.count)
                } else {
                    CodeResult::OutOfAttempts(compute_retry_at(now))
                }
            }
        },
    }
}

/// Relies on rand::random_range: a value drawn from the given half-open
/// range, here `[CODE_MIN, CODE_MAX)`, which is not empty.
#[verifier::external_body]
fn random_code() -> (r: Code)
    ensures
        code_in_range(r),
{
    rand::random_range(CODE_MIN..CODE_MAX)
}

/// Relies on SystemTime::now: the current instant, converted to whole
/// seconds since the Unix epoch (zero if the clock reads earlier than the
/// epoch). Nothing is promised of the clock.
#[verifier::external_body]
fn now_secs() -> (r: Timestamp)
{
    match std::time::SystemTime::now().duration_since(std::time::UNIX_EPOCH) {
        Ok(d) => d.as_secs(),
        Err(_) => 0,
    }
}

impl Default for Attempt {
    /// A record for a cycle starting now: full attempt budget and a freshly
    /// drawn code.
    fn default() -> (r: Attempt)
        ensures
            r.count == INITIAL_ATTEMPTS,
            code_in_range(r.code),
    {
        Attempt { count: INITIAL_ATTEMPTS, last_attemped_at: now_secs(), code: random_code() }
    }
}

/// The two operations of the store. Each reads the clock (and, on renewal,
/// the generator) itself, so its contract says what holds of whatever
/// instant and code came back: the store and the result are one step of the
/// corresponding specification for some such pair.
pub trait PhonesNCodes: View<V = Map<Phone, Attempt>> {
    fn check_code(&mut self, phone: Phone, code: Code) -> (r: CodeResult)
        ensures
            exists|now: Timestamp|
                final(self)@ == (#[trigger] spec_check_code(old(self)@, phone, code, now)).0 && r
                    == spec_check_code(old(self)@, phone, code, now).1,
    ;

    fn get_code(&mut self, phone: Phone) -> (r: PhoneResult)
        ensures
            exists|now: Timestamp, fresh: Code|
                code_in_range(fresh) && final(self)@ == (#[trigger] spec_get_code(
                    old(self)@,
                    phone,
                    now,
                    fresh,
                )).0 && r == spec_get_code(old(self)@, phone, now, fresh).1,
    ;
}

impl PhonesNCodes for Attempts {
    fn check_code(&mut self, phone: Phone, code: Code) -> (r: CodeResult) {
        let now = now_secs();
        check_code_at(self, phone, code, now)
    }

    fn get_code(&mut self, phone: Phone) -> (r: PhoneResult) {
        let now = now_secs();
        let fresh = random_code();
        get_code_at(self, phone, now, fresh)
    }
}

} // verus!

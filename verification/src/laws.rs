//! The guarantees the store gives, stated over the specification of its two
//! operations and proved once and for all.
use vstd::prelude::*;

use crate::attempts::Attempt;
use crate::attempts::Code;
use crate::attempts::CodeResult;
use crate::attempts::INITIAL_ATTEMPTS;
use crate::attempts::Phone;
use crate::attempts::PhoneResult;
use crate::attempts::Timestamp;
use crate::attempts::code_in_range;
use crate::attempts::fresh_attempt;
use crate::attempts::is_expired;
use crate::attempts::phone_valid;
use crate::attempts::retry_at;
use crate::attempts::spec_check_code;
use crate::attempts::spec_get_code;
use crate::attempts::store_wf;

verus! {

/// A phone number outside the accepted range is rejected by both
/// operations, and neither touches the store.
pub proof fn lemma_invalid_phone_rejected(
    m: Map<Phone, Attempt>,
    phone: Phone,
    code: Code,
    now: Timestamp,
    fresh: Code,
)
    requires
        !phone_valid(phone),
    ensures
        spec_get_code(m, phone, now, fresh).0 == m,
        spec_get_code(m, phone, now, fresh).1 == PhoneResult::InvalidPhone,
        spec_check_code(m, phone, code, now).0 == m,
        spec_check_code(m, phone, code, now).1 == CodeResult::InvalidPhone,
{
}

/// Requesting a code for a phone with no pending cycle installs a record
/// with the full attempt budget and the freshly drawn code, and reports
/// exactly that budget.
pub proof fn lemma_request_fresh_phone(
    m: Map<Phone, Attempt>,
    phone: Phone,
    now: Timestamp,
    fresh: Code,
)
    requires
        phone_valid(phone),
        !m.contains_key(phone),
        code_in_range(fresh),
    ensures
        spec_get_code(m, phone, now, fresh).1 == PhoneResult::Success(INITIAL_ATTEMPTS),
        spec_get_code(m, phone, now, fresh).0 == m.insert(phone, fresh_attempt(now, fresh)),
        spec_get_code(m, phone, now, fresh).0[phone].count == INITIAL_ATTEMPTS,
        code_in_range(spec_get_code(m, phone, now, fresh).0[phone].code),
{
}

/// Submitting the correct code of a live cycle succeeds and removes the
/// entry; any later submission for the same phone, at any instant and with
/// any code, then reports that no cycle is pending.
pub proof fn lemma_valid_code_removes_entry(
    m: Map<Phone, Attempt>,
    phone: Phone,
    now: Timestamp,
    later_code: Code,
    later: Timestamp,
)
    requires
        phone_valid(phone),
        m.contains_key(phone),
        !is_expired(m[phone].last_attemped_at, now),
        m[phone].count > 0,
    ensures
        spec_check_code(m, phone, m[phone].code, now).1 == CodeResult::Valid,
        !spec_check_code(m, phone, m[phone].code, now).0.contains_key(phone),
        spec_check_code(
            spec_check_code(m, phone, m[phone].code, now).0,
            phone,
            later_code,
            later,
        ).1 == CodeResult::NotFound,
{
}

/// Three wrong submissions against a fresh cycle spend the budget step by
/// step, and a fourth call before the cooldown ends is refused with the
/// same retry instant, whatever code it carries, without touching the
/// store.
pub proof fn lemma_wrong_codes_exhaust_budget(
    m: Map<Phone, Attempt>,
    phone: Phone,
    c1: Code,
    t1: Timestamp,
    c2: Code,
    t2: Timestamp,
    c3: Code,
    t3: Timestamp,
    c4: Code,
    t4: Timestamp,
)
    requires
        phone_valid(phone),
        m.contains_key(phone),
        m[phone].count == INITIAL_ATTEMPTS,
        c1 != m[phone].code,
        c2 != m[phone].code,
        c3 != m[phone].code,
        !is_expired(m[phone].last_attemped_at, t1),
        !is_expired(t1, t2),
        !is_expired(t2, t3),
        !is_expired(t3, t4),
    ensures
        ({
            let s1 = spec_check_code(m, phone, c1, t1);
            let s2 = spec_check_code(s1.0, phone, c2, t2);
            let s3 = spec_check_code(s2.0, phone, c3, t3);
            let s4 = spec_check_code(s3.0, phone, c4, t4);
            &&& s1.1 == CodeResult::Invalid(2u8)
            &&& s2.1 == CodeResult::Invalid(1u8)
            &&& s3.1 == CodeResult::OutOfAttempts(retry_at(t3))
            &&& s4.1 == CodeResult::OutOfAttempts(retry_at(t3))
            &&& s4.0 == s3.0
        }),
{
}

/// Requesting a code while an un-expired cycle with attempts remaining is
/// live reports the live cycle and alters nothing: neither the stored code
/// nor the count.
pub proof fn lemma_request_while_active(
    m: Map<Phone, Attempt>,
    phone: Phone,
    now: Timestamp,
    fresh: Code,
)
    requires
        phone_valid(phone),
        m.contains_key(phone),
        !is_expired(m[phone].last_attemped_at, now),
        m[phone].count > 0,
    ensures
        spec_get_code(m, phone, now, fresh).1 == PhoneResult::Exists(
            m[phone].count,
            retry_at(m[phone].last_attemped_at),
        ),
        spec_get_code(m, phone, now, fresh).0 == m,
{
}

/// Once a full TTL has elapsed past the cycle's last activity, a
/// submission is refused as expired whatever the remaining count and
/// whatever the code, without touching the store; a request made while the
/// entry is still expired then renews it wholesale: full budget and the
/// freshly drawn code.
pub proof fn lemma_expiry_wins(
    m: Map<Phone, Attempt>,
    phone: Phone,
    code: Code,
    now: Timestamp,
    later: Timestamp,
    fresh: Code,
)
    requires
        phone_valid(phone),
        m.contains_key(phone),
        is_expired(m[phone].last_attemped_at, now),
        is_expired(m[phone].last_attemped_at, later),
    ensures
        spec_check_code(m, phone, code, now).1 == CodeResult::Expired,
        spec_check_code(m, phone, code, now).0 == m,
        spec_get_code(m, phone, later, fresh).1 == PhoneResult::Success(INITIAL_ATTEMPTS),
        spec_get_code(m, phone, later, fresh).0 == m.insert(phone, fresh_attempt(later, fresh)),
{
}

/// Both operations keep the store well-formed: no cycle ever holds more
/// than the initial attempt budget, and every stored code stays in the
/// generated range. In particular a count is never driven below zero,
/// because exhaustion is tested before any decrement.
pub proof fn lemma_operations_preserve_wf(
    m: Map<Phone, Attempt>,
    phone: Phone,
    code: Code,
    now: Timestamp,
    fresh: Code,
)
    requires
        store_wf(m),
        code_in_range(fresh),
    ensures
        store_wf(spec_get_code(m, phone, now, fresh).0),
        store_wf(spec_check_code(m, phone, code, now).0),
{
}

} // verus!


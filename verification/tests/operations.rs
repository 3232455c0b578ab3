use phone_codes::attempts::{
    check_code_at, check_phone, compute_retry_at, get_code_at, Attempt, Attempts, CodeResult,
    PhoneResult, PhonesNCodes, CODE_MAX, CODE_MIN, INITIAL_ATTEMPTS, PHONE_MAX, PHONE_MIN,
    TTL_SECS,
};

const PHONE: u64 = 79161234567;

fn store_with(phone: u64, attempt: Attempt) -> Attempts {
    let mut attempts = Attempts::new();
    attempts.insert(phone, attempt);
    attempts
}

#[test]
fn phone_range_boundaries() {
    assert!(check_phone(PHONE_MIN));
    assert!(check_phone(PHONE_MAX));
    assert!(check_phone(PHONE));
    assert!(!check_phone(PHONE_MIN - 1));
    assert!(!check_phone(PHONE_MAX + 1));
    assert!(!check_phone(0));
}

#[test]
fn invalid_phone_rejected_without_mutation() {
    let mut attempts = store_with(PHONE, Attempt { count: 3, last_attemped_at: 100, code: 42 });
    for bad in [0u64, PHONE_MIN - 1, PHONE_MAX + 1, u64::MAX] {
        assert_eq!(get_code_at(&mut attempts, bad, 100, 17), PhoneResult::InvalidPhone);
        assert_eq!(check_code_at(&mut attempts, bad, 42, 100), CodeResult::InvalidPhone);
    }
    assert_eq!(attempts.len(), 1);
    let a = attempts.get(&PHONE).unwrap();
    assert_eq!((a.count, a.last_attemped_at, a.code), (3, 100, 42));
}

#[test]
fn request_on_fresh_phone_installs_full_budget() {
    let mut attempts = Attempts::new();
    assert_eq!(get_code_at(&mut attempts, PHONE, 100, 1234), PhoneResult::Success(3));
    let a = attempts.get(&PHONE).unwrap();
    assert_eq!(a.count, INITIAL_ATTEMPTS);
    assert_eq!(a.last_attemped_at, 100);
    assert_eq!(a.code, 1234);
    assert!(CODE_MIN <= a.code && a.code < CODE_MAX);
}

#[test]
fn request_while_active_reports_exists_and_changes_nothing() {
    let mut attempts = store_with(PHONE, Attempt { count: 2, last_attemped_at: 100, code: 42 });
    let r = get_code_at(&mut attempts, PHONE, 105, 9999 - 1);
    assert_eq!(r, PhoneResult::Exists(2, 100 + TTL_SECS));
    let a = attempts.get(&PHONE).unwrap();
    assert_eq!((a.count, a.last_attemped_at, a.code), (2, 100, 42));
}

#[test]
fn request_during_cooldown_is_too_soon() {
    let mut attempts = store_with(PHONE, Attempt { count: 0, last_attemped_at: 100, code: 42 });
    assert_eq!(get_code_at(&mut attempts, PHONE, 105, 17), PhoneResult::TooSoon(110));
    let a = attempts.get(&PHONE).unwrap();
    assert_eq!((a.count, a.last_attemped_at, a.code), (0, 100, 42));
}

#[test]
fn request_renews_expired_entry_even_with_exhausted_budget() {
    let mut attempts = store_with(PHONE, Attempt { count: 0, last_attemped_at: 100, code: 42 });
    assert_eq!(get_code_at(&mut attempts, PHONE, 111, 555), PhoneResult::Success(3));
    let a = attempts.get(&PHONE).unwrap();
    assert_eq!((a.count, a.last_attemped_at, a.code), (3, 111, 555));
}

#[test]
fn verify_without_entry_is_not_found() {
    let mut attempts = Attempts::new();
    assert_eq!(check_code_at(&mut attempts, PHONE, 42, 100), CodeResult::NotFound);
    assert!(attempts.is_empty());
}

#[test]
fn correct_code_removes_entry_and_next_verify_is_not_found() {
    let mut attempts = store_with(PHONE, Attempt { count: 3, last_attemped_at: 100, code: 42 });
    assert_eq!(check_code_at(&mut attempts, PHONE, 42, 105), CodeResult::Valid);
    assert!(!attempts.contains_key(&PHONE));
    assert_eq!(check_code_at(&mut attempts, PHONE, 42, 105), CodeResult::NotFound);
}

#[test]
fn wrong_code_spends_one_attempt_and_refreshes_activity() {
    let mut attempts = store_with(PHONE, Attempt { count: 3, last_attemped_at: 100, code: 42 });
    assert_eq!(check_code_at(&mut attempts, PHONE, 7, 104), CodeResult::Invalid(2));
    let a = attempts.get(&PHONE).unwrap();
    assert_eq!((a.count, a.last_attemped_at, a.code), (2, 104, 42));
}

#[test]
fn three_wrong_codes_exhaust_the_budget() {
    let mut attempts = store_with(PHONE, Attempt { count: 3, last_attemped_at: 100, code: 42 });
    assert_eq!(check_code_at(&mut attempts, PHONE, 1, 101), CodeResult::Invalid(2));
    assert_eq!(check_code_at(&mut attempts, PHONE, 2, 102), CodeResult::Invalid(1));
    assert_eq!(
        check_code_at(&mut attempts, PHONE, 3, 103),
        CodeResult::OutOfAttempts(103 + TTL_SECS)
    );
    // A fourth call before the cooldown ends is refused with the same
    // instant, even with the correct code, and changes nothing.
    assert_eq!(
        check_code_at(&mut attempts, PHONE, 42, 108),
        CodeResult::OutOfAttempts(103 + TTL_SECS)
    );
    let a = attempts.get(&PHONE).unwrap();
    assert_eq!((a.count, a.last_attemped_at, a.code), (0, 103, 42));
}

#[test]
fn expiry_wins_over_everything_and_request_renews() {
    let mut attempts = store_with(PHONE, Attempt { count: 2, last_attemped_at: 100, code: 42 });
    // Correct code, but more than a full TTL has elapsed.
    assert_eq!(check_code_at(&mut attempts, PHONE, 42, 111), CodeResult::Expired);
    // The entry is discovered lazily, not deleted.
    assert!(attempts.contains_key(&PHONE));
    assert_eq!(get_code_at(&mut attempts, PHONE, 112, 777), PhoneResult::Success(3));
    let a = attempts.get(&PHONE).unwrap();
    assert_eq!((a.count, a.last_attemped_at, a.code), (3, 112, 777));
}

#[test]
fn exactly_ttl_seconds_is_still_current() {
    let mut attempts = store_with(PHONE, Attempt { count: 3, last_attemped_at: 100, code: 42 });
    assert_eq!(check_code_at(&mut attempts, PHONE, 42, 100 + TTL_SECS), CodeResult::Valid);
}

#[test]
fn retry_instant_is_clamped_near_the_top_of_the_range() {
    assert_eq!(compute_retry_at(100), 100 + TTL_SECS);
    assert_eq!(compute_retry_at(u64::MAX - TTL_SECS), u64::MAX);
    assert_eq!(compute_retry_at(u64::MAX - 3), u64::MAX);
    assert_eq!(compute_retry_at(u64::MAX), u64::MAX);
    let mut attempts =
        store_with(PHONE, Attempt { count: 0, last_attemped_at: u64::MAX - 5, code: 42 });
    assert_eq!(
        get_code_at(&mut attempts, PHONE, u64::MAX - 1, 17),
        PhoneResult::TooSoon(u64::MAX)
    );
}

#[test]
fn full_scenario_request_fail_succeed() {
    let mut attempts = Attempts::new();
    assert_eq!(get_code_at(&mut attempts, 79161234567, 100, 4321), PhoneResult::Success(3));
    assert_eq!(check_code_at(&mut attempts, 79161234567, 1111, 101), CodeResult::Invalid(2));
    assert_eq!(check_code_at(&mut attempts, 79161234567, 4321, 102), CodeResult::Valid);
    assert_eq!(check_code_at(&mut attempts, 79161234567, 4321, 103), CodeResult::NotFound);
}

#[test]
fn store_operations_with_live_clock_and_generator() {
    let mut attempts = Attempts::new();
    assert_eq!(attempts.get_code(0), PhoneResult::InvalidPhone);
    assert_eq!(attempts.check_code(0, 1), CodeResult::InvalidPhone);
    assert_eq!(attempts.check_code(PHONE, 1), CodeResult::NotFound);
    assert_eq!(attempts.get_code(PHONE), PhoneResult::Success(3));
    let stored = *attempts.get(&PHONE).unwrap();
    assert_eq!(stored.count, 3);
    assert!(CODE_MIN <= stored.code && stored.code < CODE_MAX);
    // A wrong submission: codes run only up to CODE_MAX, so CODE_MAX itself
    // can never match.
    assert_eq!(attempts.check_code(PHONE, CODE_MAX), CodeResult::Invalid(2));
    // The correct code, read back from the store, ends the cycle.
    assert_eq!(attempts.check_code(PHONE, stored.code), CodeResult::Valid);
    assert_eq!(attempts.check_code(PHONE, stored.code), CodeResult::NotFound);
}

#[test]
fn default_attempt_has_full_budget_and_code_in_range() {
    let a = Attempt::default();
    assert_eq!(a.count, INITIAL_ATTEMPTS);
    assert!(CODE_MIN <= a.code && a.code < CODE_MAX);
}

use chive_runtime::authorship::{account_id_from_slice, AuraAccountAdapter};
use chive_runtime::fee::{FeeCoefficient, WeightToFee, PERBILL_ACCURACY};
use chive_runtime::proxy::ProxyType;
use chive_runtime::{deposit, CENTS, DAYS, DOLLARS, EXISTENTIAL_DEPOSIT, HOURS, MILLICENTS, MINUTES, SLOT_DURATION};

#[test]
fn time_units() {
    assert_eq!(MINUTES, 10);
    assert_eq!(HOURS, 600);
    assert_eq!(DAYS, 14_400);
    assert_eq!(SLOT_DURATION, 6000);
}

#[test]
fn currency_units() {
    assert_eq!(MILLICENTS, 1_000_000_000);
    assert_eq!(CENTS, 1_000_000_000_000);
    assert_eq!(DOLLARS, 100_000_000_000_000);
    assert_eq!(EXISTENTIAL_DEPOSIT, 500);
}

#[test]
fn deposit_of_nothing_is_zero() {
    assert_eq!(deposit(0, 0), 0);
}

#[test]
fn deposit_of_runtime_parameters() {
    // proxy and announcement deposits
    assert_eq!(deposit(1, 8), 63 * CENTS);
    assert_eq!(deposit(0, 33), 198 * CENTS);
    assert_eq!(deposit(0, 66), 396 * CENTS);
    // preimage deposits
    assert_eq!(deposit(2, 64), 414 * CENTS);
    assert_eq!(deposit(0, 1), 6 * CENTS);
}

#[test]
fn deposit_at_the_largest_counts() {
    let m = u32::MAX as u128;
    assert_eq!(deposit(u32::MAX, u32::MAX), m * 15 * CENTS + m * 6 * CENTS);
}

#[test]
fn deposit_is_additive() {
    assert_eq!(deposit(3 + 4, 10 + 22), deposit(3, 10) + deposit(4, 22));
}

#[test]
fn deposit_is_monotonic() {
    assert!(deposit(1, 8) <= deposit(2, 8));
    assert!(deposit(1, 8) <= deposit(1, 9));
}

fn single_term(base: u64) -> FeeCoefficient {
    let terms = WeightToFee::polynomial(base).to_vec();
    assert_eq!(terms.len(), 1);
    terms[0]
}

#[test]
fn polynomial_for_an_even_ratio() {
    // p = 10^11, q = 125_000_000
    let c = single_term(125_000_000);
    assert_eq!(
        c,
        FeeCoefficient { coeff_integer: 800, coeff_frac: 0, negative: false, degree: 1 }
    );
}

#[test]
fn polynomial_with_a_fraction() {
    // p = 10^11, q = 7: 14_285_714_285 remainder 5, 5 / 7 = 0.714285714...
    let c = single_term(7);
    assert_eq!(
        c,
        FeeCoefficient { coeff_integer: 14_285_714_285, coeff_frac: 714_285_714, negative: false, degree: 1 }
    );
    // q = 64_000_000: 1_562 remainder 32_000_000, a half
    let c = single_term(64_000_000);
    assert_eq!(
        c,
        FeeCoefficient { coeff_integer: 1_562, coeff_frac: 500_000_000, negative: false, degree: 1 }
    );
}

#[test]
fn polynomial_below_one() {
    // q > p: no integral part, 10^11 / 10^12 = 0.1
    let c = single_term(1_000_000_000_000);
    assert_eq!(c.coeff_integer, 0);
    assert_eq!(c.coeff_frac, 100_000_000);
    // the largest base weight: 10^20 / (2^64 - 1) = 5.42...
    let c = single_term(u64::MAX);
    assert_eq!(c.coeff_integer, 0);
    assert_eq!(c.coeff_frac, 5);
}

#[test]
fn polynomial_term_is_ratio_rounded_down() {
    for base in [1u64, 3, 7, 11, 999, 125_000_000, 1_000_000_007] {
        let c = single_term(base);
        let p = CENTS / 10;
        let q = base as u128;
        assert!(c.coeff_frac <= PERBILL_ACCURACY);
        assert_eq!(
            c.coeff_integer * PERBILL_ACCURACY as u128 + c.coeff_frac as u128,
            p * PERBILL_ACCURACY as u128 / q
        );
    }
}

#[test]
fn base_weight_costs_a_tenth_of_a_cent() {
    for base in [1u64, 7, 64_000_000, 125_000_000, 1_000_000_007, u64::MAX] {
        let c = single_term(base);
        let b = base as u128;
        let a = PERBILL_ACCURACY as u128;
        let charged = (c.coeff_integer * a + c.coeff_frac as u128) * b;
        assert!(charged <= CENTS / 10 * a);
        assert!(CENTS / 10 * a - b < charged);
    }
}

#[test]
fn proxy_default_is_any() {
    assert_eq!(ProxyType::default(), ProxyType::Any);
}

#[test]
fn proxy_any_filters_every_call() {
    assert!(ProxyType::Any.filter(&42u32));
    assert!(ProxyType::Any.filter(&"transfer"));
    assert!(ProxyType::Any.filter(&()));
}

#[test]
fn proxy_superset() {
    assert!(ProxyType::Any.is_superset(&ProxyType::Any));
    assert!(ProxyType::default().is_superset(&ProxyType::Any));
}

#[test]
fn account_from_32_bytes() {
    let key: Vec<u8> = (0u8..32).collect();
    let account = account_id_from_slice(&key).unwrap();
    assert_eq!(account.to_vec(), key);
}

#[test]
fn account_from_other_lengths() {
    assert_eq!(account_id_from_slice(&[]), None);
    assert_eq!(account_id_from_slice(&[7u8; 31]), None);
    assert_eq!(account_id_from_slice(&[7u8; 33]), None);
}

#[test]
fn author_account() {
    let key = [9u8; 32];
    assert_eq!(AuraAccountAdapter::find_author(Some(&key[..])), Some([9u8; 32]));
    assert_eq!(AuraAccountAdapter::find_author(Some(&key[..16])), None);
    assert_eq!(AuraAccountAdapter::find_author(None), None);
}

#[test]
fn runtime_version_values() {
    let v = chive_runtime::version::version();
    assert_eq!(v.spec_name, "parachain-template-runtime");
    assert_eq!(v.impl_name, "parachain-template-runtime");
    assert_eq!(v.authoring_version, 1);
    assert_eq!(v.spec_version, 1);
    assert_eq!(v.impl_version, 0);
    assert_eq!(v.transaction_version, 1);
    assert_eq!(v.state_version, 1);
}

#[test]
fn native_version_is_the_runtime_version() {
    let n = chive_runtime::version::native_version();
    assert_eq!(n.runtime_version, chive_runtime::version::version());
    assert!(n.can_author_with.is_empty());
}

use token_fraction_vester::decimal::Decimal;
use token_fraction_vester::override_state::EmergencyOverride;
use token_fraction_vester::registry::{ComponentAddress, ResourceAddress, TokenAmountCall};
use token_fraction_vester::vester::{PercentageVester, VestError};

fn asset() -> ResourceAddress {
    ResourceAddress { raw: 7 }
}

fn fresh(
    tokens_to_vest: i64,
    percentage_micro: i128,
    delay_days: Option<i64>,
) -> PercentageVester {
    PercentageVester::instantiate_vest(
        Decimal::from_units(tokens_to_vest),
        Decimal::from_micro(percentage_micro),
        Vec::new(),
        asset(),
        delay_days,
    )
    .expect("valid cap parameter")
}

fn no_reads() -> Vec<Option<Decimal>> {
    Vec::new()
}

#[test]
fn formula_example() {
    // total_supply 1,000,000; initially vested 100,000; cap 10%; no
    // non-circulating pools: the cap is 0.10 * 900,000 / 0.90 = 100,000.
    let v = fresh(100_000, 100_000, None);
    let u = v
        .get_amount_unvestable(Some(Decimal::from_units(1_000_000)), &no_reads())
        .unwrap();
    assert_eq!(u, Decimal::from_units(100_000));
}

#[test]
fn first_release_yields_the_full_cap() {
    let mut v = fresh(100_000, 100_000, None);
    let out = v
        .unvest_tokens(Some(Decimal::from_units(1_000_000)), &no_reads())
        .unwrap();
    assert_eq!(out, Some(Decimal::from_units(100_000)));
    assert_eq!(v.get_amount_unvested(), Decimal::from_units(100_000));
    assert_eq!(v.get_token_amount(), Decimal::from_units(0));
}

#[test]
fn formula_truncates_toward_zero() {
    // cap 0.333333 of a 10-token supply, nothing vested or pooled:
    // the fixed-point steps truncate to 4.999992 tokens.
    let v = fresh(0, 333_333, None);
    let u = v
        .get_amount_unvestable(Some(Decimal::from_micro(10_000_000)), &no_reads())
        .unwrap();
    assert_eq!(u, Decimal::from_micro(4_999_992));
}

#[test]
fn negative_unvestable_is_reported_not_clamped() {
    // A pool reporting more than the whole supply drives the cap
    // negative: 0.10 * (1,000 - 2,000) / 0.90 = -111.111111 tokens.
    let mut v = fresh(0, 100_000, None);
    v.add_method_call("escrow_balance".to_string(), false, ComponentAddress { raw: 1 });
    let reads = vec![Some(Decimal::from_units(2_000))];
    let u = v
        .get_amount_unvestable(Some(Decimal::from_units(1_000)), &reads)
        .unwrap();
    assert_eq!(u, Decimal::from_micro(-111_111_111));
}

#[test]
fn release_is_a_noop_when_nothing_is_releasable() {
    // Supply equals the initially vested amount: the cap is zero, and a
    // release changes nothing and yields nothing.
    let mut v = fresh(100_000, 100_000, None);
    let out = v
        .unvest_tokens(Some(Decimal::from_units(100_000)), &no_reads())
        .unwrap();
    assert_eq!(out, None);
    assert_eq!(v.get_amount_unvested(), Decimal::from_units(0));
    assert_eq!(v.get_token_amount(), Decimal::from_units(100_000));
}

#[test]
fn exhaustion_withdraws_only_the_reserve() {
    // The cap allows 990 tokens but only 10 are held: the release takes
    // exactly the remaining balance.
    let mut v = fresh(10, 500_000, None);
    let u = v
        .get_amount_unvestable(Some(Decimal::from_units(1_000)), &no_reads())
        .unwrap();
    assert_eq!(u, Decimal::from_units(990));
    let out = v
        .unvest_tokens(Some(Decimal::from_units(1_000)), &no_reads())
        .unwrap();
    assert_eq!(out, Some(Decimal::from_units(10)));
    assert_eq!(v.get_token_amount(), Decimal::from_units(0));
    assert_eq!(v.get_amount_unvested(), Decimal::from_units(10));
}

#[test]
fn releases_conserve_reserve_plus_unvested() {
    let mut v = fresh(100_000, 100_000, None);
    let before = v.get_token_amount().micro + v.get_amount_unvested().micro;
    v.unvest_tokens(Some(Decimal::from_units(1_000_000)), &no_reads())
        .unwrap();
    let after = v.get_token_amount().micro + v.get_amount_unvested().micro;
    assert_eq!(before, after);
    v.put_back_tokens(Decimal::from_units(40_000));
    let restored = v.get_token_amount().micro + v.get_amount_unvested().micro;
    assert_eq!(before, restored);
    assert_eq!(v.get_amount_unvested(), Decimal::from_units(60_000));
    assert_eq!(v.get_token_amount(), Decimal::from_units(40_000));
}

#[test]
fn repeated_releases_stay_at_the_cap() {
    // With unchanged reads the first release fills the cap exactly;
    // later releases find nothing left and change nothing.
    let mut v = fresh(100_000, 100_000, None);
    let supply = Some(Decimal::from_units(1_000_000));
    v.unvest_tokens(supply, &no_reads()).unwrap();
    assert_eq!(v.get_amount_unvested(), Decimal::from_units(100_000));
    let again = v.unvest_tokens(supply, &no_reads()).unwrap();
    assert_eq!(again, None);
    assert_eq!(v.get_amount_unvested(), Decimal::from_units(100_000));
    let third = v.unvest_tokens(supply, &no_reads()).unwrap();
    assert_eq!(third, None);
    assert_eq!(v.get_amount_unvested(), Decimal::from_units(100_000));
}

#[test]
fn put_back_may_drive_unvested_negative() {
    // Returning more than was released is the caller's responsibility;
    // the unvested total goes negative and is reported as such.
    let mut v = fresh(100, 100_000, None);
    v.put_back_tokens(Decimal::from_units(5));
    assert_eq!(v.get_amount_unvested(), Decimal::from_units(-5));
    assert_eq!(v.get_token_amount(), Decimal::from_units(105));
}

#[test]
fn cap_parameter_of_one_is_rejected() {
    let r = PercentageVester::instantiate_vest(
        Decimal::from_units(10),
        Decimal::from_micro(1_000_000),
        Vec::new(),
        asset(),
        None,
    );
    assert_eq!(r.err(), Some(VestError::InvalidCapParameter));
}

#[test]
fn negative_cap_parameter_is_rejected() {
    let r = PercentageVester::instantiate_vest(
        Decimal::from_units(10),
        Decimal::from_micro(-1),
        Vec::new(),
        asset(),
        None,
    );
    assert_eq!(r.err(), Some(VestError::InvalidCapParameter));
}

#[test]
fn unknown_asset_fails_the_computation() {
    let v = fresh(10, 100_000, None);
    let r = v.get_amount_unvestable(None, &no_reads());
    assert_eq!(r.err(), Some(VestError::AssetNotFound));
}

#[test]
fn failed_pool_read_fails_the_whole_release() {
    let mut v = fresh(10, 100_000, None);
    v.add_method_call("escrow_balance".to_string(), false, ComponentAddress { raw: 1 });
    v.add_method_call("treasury_balance".to_string(), true, ComponentAddress { raw: 2 });
    let reads = vec![Some(Decimal::from_units(1)), None];
    let r = v.unvest_tokens(Some(Decimal::from_units(1_000)), &reads);
    assert_eq!(r.err(), Some(VestError::ExternalCallFailed));
    assert_eq!(v.get_token_amount(), Decimal::from_units(10));
    assert_eq!(v.get_amount_unvested(), Decimal::from_units(0));
}

#[test]
fn aggregation_sums_every_registered_pool() {
    let mut v = fresh(0, 100_000, None);
    v.add_method_call("escrow_balance".to_string(), false, ComponentAddress { raw: 1 });
    v.add_method_call("treasury_balance".to_string(), true, ComponentAddress { raw: 2 });
    let reads = vec![
        Some(Decimal::from_units(100)),
        Some(Decimal::from_units(200)),
    ];
    // cap = 0.10 * (1,000 - 300) / 0.90 = 77.777777 (truncated)
    let u = v
        .get_amount_unvestable(Some(Decimal::from_units(1_000)), &reads)
        .unwrap();
    assert_eq!(u, Decimal::from_micro(77_777_777));
}

#[test]
fn initialize_marks_descriptors_and_protects_them() {
    let mut v = fresh(10, 100_000, None);
    let escrow = ComponentAddress { raw: 1 };
    v.add_method_call("escrow_balance".to_string(), false, escrow);
    assert!(!v.registered_calls()[0].initialized);
    v.initialize_uninitialized(&vec![true]).unwrap();
    assert!(v.registered_calls()[0].initialized);
    // an initialized descriptor survives the unprivileged removal
    v.remove_uninitialized_method_call("escrow_balance".to_string(), escrow);
    assert_eq!(v.registered_calls().len(), 1);
    // the overseer's removal always takes it out
    v.remove_method_call("escrow_balance".to_string(), escrow);
    assert_eq!(v.registered_calls().len(), 0);
}

#[test]
fn failed_probe_aborts_initialization_atomically() {
    let mut v = fresh(10, 100_000, None);
    v.add_method_call("escrow_balance".to_string(), false, ComponentAddress { raw: 1 });
    v.add_method_call("treasury_balance".to_string(), false, ComponentAddress { raw: 2 });
    let r = v.initialize_uninitialized(&vec![true, false]);
    assert_eq!(r.err(), Some(VestError::ExternalCallFailed));
    assert!(!v.registered_calls()[0].initialized);
    assert!(!v.registered_calls()[1].initialized);
}

#[test]
fn uninitialized_descriptor_is_removed_by_identity() {
    let mut v = fresh(10, 100_000, None);
    let escrow = ComponentAddress { raw: 1 };
    v.add_method_call("escrow_balance".to_string(), false, escrow);
    v.add_method_call("escrow_balance".to_string(), false, ComponentAddress { raw: 2 });
    v.remove_uninitialized_method_call("escrow_balance".to_string(), escrow);
    assert_eq!(v.registered_calls().len(), 1);
    assert_eq!(v.registered_calls()[0].component_address, ComponentAddress { raw: 2 });
}

#[test]
fn registration_appends_uninitialized_descriptors() {
    let mut v = fresh(10, 100_000, None);
    v.add_method_call("escrow_balance".to_string(), true, ComponentAddress { raw: 9 });
    let calls: &Vec<TokenAmountCall> = v.registered_calls();
    assert_eq!(calls.len(), 1);
    assert_eq!(calls[0].method_name, "escrow_balance".to_string());
    assert!(calls[0].with_arg);
    assert!(!calls[0].initialized);
}

#[test]
fn delayed_override_waits_out_its_delay() {
    // A 7-day delay: draining before the activation instant yields
    // nothing and leaves the override armed; at the instant it yields
    // the full reserve.
    let mut v = fresh(50, 100_000, Some(7));
    let armed_at: i64 = 1_000;
    let activation: i64 = armed_at + 7 * 86_400;
    v.emergency_unvest_toggle(armed_at);
    assert_eq!(v.emergency_unvest(activation - 1), None);
    assert!(matches!(
        v.override_state,
        EmergencyOverride::Delayed { activation: Some(t), .. } if t == activation
    ));
    assert_eq!(v.emergency_unvest(activation), Some(Decimal::from_units(50)));
    assert_eq!(v.get_token_amount(), Decimal::from_units(0));
}

#[test]
fn delayed_override_stays_armed_after_a_drain() {
    let mut v = fresh(50, 100_000, Some(0));
    v.emergency_unvest_toggle(10);
    assert_eq!(v.emergency_unvest(10), Some(Decimal::from_units(50)));
    // still armed: a later drain is permitted (and finds nothing left)
    assert_eq!(v.emergency_unvest(11), Some(Decimal::from_units(0)));
}

#[test]
fn toggle_disarms_an_armed_override() {
    let mut v = fresh(50, 100_000, Some(7));
    v.emergency_unvest_toggle(0);
    v.emergency_unvest_toggle(7 * 86_400);
    assert!(matches!(
        v.override_state,
        EmergencyOverride::Delayed { activation: None, .. }
    ));
    assert_eq!(v.emergency_unvest(30 * 86_400), None);
    assert_eq!(v.get_token_amount(), Decimal::from_units(50));
}

#[test]
fn activate_now_skips_the_delay() {
    let mut v = fresh(50, 100_000, Some(365));
    v.emergency_unvest_activate_now(500);
    assert_eq!(v.emergency_unvest(499), None);
    assert_eq!(v.emergency_unvest(500), Some(Decimal::from_units(50)));
}

#[test]
fn flag_override_arms_once_and_forever() {
    let mut v = fresh(25, 100_000, None);
    assert_eq!(v.emergency_unvest(0), None);
    v.emergency_unvest_allow();
    assert_eq!(v.emergency_unvest(0), Some(Decimal::from_units(25)));
    assert_eq!(v.emergency_unvest(1), Some(Decimal::from_units(0)));
}

#[test]
fn creation_sets_the_initial_state() {
    let v = fresh(123, 250_000, None);
    assert_eq!(v.tokens_initially_vested, Decimal::from_units(123));
    assert_eq!(v.get_token_amount(), Decimal::from_units(123));
    assert_eq!(v.get_amount_unvested(), Decimal::from_units(0));
    assert_eq!(v.max_percentage_unvested, Decimal::from_micro(250_000));
    assert_eq!(v.vested_token_address, asset());
    assert!(matches!(v.override_state, EmergencyOverride::Flag { allowed: false }));
    assert_eq!(v.registered_calls().len(), 0);
}

#[test]
fn zero_percentage_never_releases() {
    let mut v = fresh(100, 0, None);
    let out = v
        .unvest_tokens(Some(Decimal::from_units(1_000_000)), &no_reads())
        .unwrap();
    assert_eq!(out, None);
    assert_eq!(v.get_token_amount(), Decimal::from_units(100));
}

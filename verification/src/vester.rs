//! The vesting controller.
//!
//! [`PercentageVester`] owns the locked reserve, the vesting totals, the
//! cap parameter, the registry of non-circulating pool descriptors and the
//! emergency override. The cap formula keeps the cumulative unvested total
//! bounded by a fixed percentage of the asset's circulating supply:
//!
//! ```text
//! max_tokens_unvested
//!     = max_percentage_unvested
//!       * (total_supply - tokens_initially_vested - non_circulating)
//!       / (1 - max_percentage_unvested)
//! ```
//!
//! which is the closed form of "unvested never exceeds the percentage of
//! true circulating supply", where releasing tokens itself enlarges the
//! circulating supply.
//!
//! External state — the total supply, each pool's reported balance, the
//! clock — is read by the host and handed in as plain values; every
//! operation here is verified for all values of those reads.

use vstd::prelude::*;

use crate::decimal::{
    Decimal, SCALE, MAX_MAG, MAX_READ_MAG, MAX_CALLS, UNVESTED_MAG, div_towards_zero, div_trunc,
    lemma_div_towards_zero_bounds, lemma_div_towards_zero_scaled, lemma_mul_magnitude,
};
use crate::override_state::{EmergencyOverride, MAX_INSTANT, MAX_DELAY_DAYS};
use crate::registry::{
    ComponentAddress, ResourceAddress, TokenAmountCall, call_matches, keeps_if_removed,
    keeps_if_uninitialized_removed, lemma_filter_push,
};

verus! {

/// Why an operation failed.
#[derive(Clone, Copy, PartialEq, Eq, Structural, Debug)]
pub enum VestError {
    /// The cap percentage is outside `[0, 1)`; the formula's denominator
    /// would be zero or negative.
    InvalidCapParameter,
    /// The ledger service does not know the vested asset, so no total
    /// supply is available.
    AssetNotFound,
    /// An external pool read failed; the whole operation is aborted with
    /// no partial aggregation and no default value.
    ExternalCallFailed,
}

/// The cap on the cumulative unvested total, in micro-units, for cap
/// percentage `p` (fixed-point, `SCALE` = 1), initially vested amount
/// `v0`, total supply `s` and aggregated non-circulating amount `n`.
/// Decimal multiplication and division round toward zero, in the order
/// the controller computes them.
pub open spec fn spec_max_tokens_unvested(p: int, v0: int, s: int, n: int) -> int {
    div_towards_zero(p * div_towards_zero((s - v0 - n) * SCALE, SCALE - p), SCALE as int)
}

/// The currently releasable amount: the cap minus what is already
/// unvested. May be negative (nothing releasable) and may exceed the
/// reserve (clamped only at release time).
pub open spec fn spec_unvestable(p: int, v0: int, unv: int, s: int, n: int) -> int {
    spec_max_tokens_unvested(p, v0, s, n) - unv
}

/// What a release withdraws: nothing when the releasable amount `u` is
/// not positive, otherwise `u` clamped to the reserve balance.
pub open spec fn spec_release_amount(u: int, reserve: int) -> int {
    if u > 0 {
        if u > reserve {
            reserve
        } else {
            u
        }
    } else {
        0
    }
}

/// Sum of the pool reads that succeeded, counting a failed read as zero.
/// The controller only uses this once every read has succeeded.
pub open spec fn spec_reads_sum(reads: Seq<Option<Decimal>>) -> int
    decreases reads.len(),
{
    if reads.len() == 0 {
        0
    } else {
        spec_reads_sum(reads.drop_last()) + (match reads.last() {
            Some(d) => d.micro as int,
            None => 0,
        })
    }
}

/// Every pool read succeeded.
pub open spec fn all_reads_ok(reads: Seq<Option<Decimal>>) -> bool {
    forall|i: int| 0 <= i < reads.len() ==> reads[i] is Some
}

/// Every successful pool read is within the magnitude the arithmetic
/// accepts. The host maps a value it cannot represent to a failed read.
pub open spec fn reads_in_range(reads: Seq<Option<Decimal>>) -> bool {
    forall|i: int| 0 <= i < reads.len() ==> (match #[trigger] reads[i] {
        Some(d) => -MAX_READ_MAG <= d.micro <= MAX_READ_MAG,
        None => true,
    })
}

/// A total-supply read, when it succeeded, is within the magnitude the
/// arithmetic accepts.
pub open spec fn supply_in_range(total_supply: Option<Decimal>) -> bool {
    match total_supply {
        Some(d) => 0 <= d.micro <= MAX_MAG,
        None => true,
    }
}

/// The sum of in-range reads is bounded by the number of reads times the
/// per-read magnitude bound.
pub proof fn lemma_reads_sum_bound(reads: Seq<Option<Decimal>>)
    requires
        reads_in_range(reads),
    ensures
        -(reads.len() as int) * MAX_READ_MAG <= spec_reads_sum(reads) <= (reads.len() as int)
            * MAX_READ_MAG,
    decreases reads.len(),
{
    if reads.len() > 0 {
        assert(reads_in_range(reads.drop_last())) by {
            assert(forall|i: int| 0 <= i < reads.len() - 1 ==> reads.drop_last()[i] == reads[i]);
        }
        lemma_reads_sum_bound(reads.drop_last());
    }
}

/// The cap is bounded: with the percentage in `[0, 1)` and the supply
/// figures bounded by `MAX_MAG`, its magnitude never exceeds
/// `3 * MAX_MAG * SCALE`.
pub proof fn lemma_max_tokens_bound(p: int, v0: int, s: int, n: int)
    requires
        0 <= p < SCALE,
        0 <= v0 <= MAX_MAG,
        0 <= s <= MAX_MAG,
        -MAX_MAG <= n <= MAX_MAG,
    ensures
        -3 * MAX_MAG * SCALE <= spec_max_tokens_unvested(p, v0, s, n) <= 3 * MAX_MAG * SCALE,
{
    let t1 = s - v0 - n;
    let prod1 = t1 * SCALE;
    let omp = SCALE - p;
    let t2 = div_towards_zero(prod1, omp);
    let prod2 = p * t2;
    let t3 = div_towards_zero(prod2, SCALE as int);
    assert(-3 * MAX_MAG * SCALE <= prod1 <= 3 * MAX_MAG * SCALE);
    lemma_div_towards_zero_bounds(prod1, omp as int);
    lemma_mul_magnitude(p, SCALE as int, t2, 3 * MAX_MAG * SCALE);
    assert((SCALE as int) * (3 * MAX_MAG * SCALE) == (3 * MAX_MAG * SCALE) * SCALE)
        by (nonlinear_arith);
    lemma_div_towards_zero_scaled(prod2, 3 * MAX_MAG * SCALE, SCALE as int);
}

/// Computes the releasable amount from in-range figures. `p` is the cap
/// percentage, `v0` the initially vested amount, `unv` the unvested total,
/// `s` the total supply and `n` the aggregated non-circulating amount.
fn compute_unvestable_core(p: i128, v0: i128, unv: i128, s: i128, n: i128) -> (u: i128)
    requires
        0 <= p < SCALE,
        0 <= v0 <= MAX_MAG,
        0 <= s <= MAX_MAG,
        -MAX_MAG <= n <= MAX_MAG,
        -UNVESTED_MAG <= unv <= UNVESTED_MAG,
    ensures
        u == spec_unvestable(p as int, v0 as int, unv as int, s as int, n as int),
{
    proof {
        lemma_max_tokens_bound(p as int, v0 as int, s as int, n as int);
    }
    let t1: i128 = s - v0 - n;
    let prod1: i128 = t1 * SCALE;
    let omp: i128 = SCALE - p;
    let t2: i128 = div_trunc(prod1, omp);
    proof {
        lemma_mul_magnitude(p as int, SCALE as int, t2 as int, 3 * MAX_MAG * SCALE);
        assert((SCALE as int) * (3 * MAX_MAG * SCALE) == (3 * MAX_MAG * SCALE) * SCALE)
            by (nonlinear_arith);
    }
    let prod2: i128 = p * t2;
    let t3: i128 = div_trunc(prod2, SCALE);
    proof {
        lemma_div_towards_zero_scaled(prod2 as int, 3 * MAX_MAG * SCALE, SCALE as int);
    }
    t3 - unv
}

/// The vesting controller: one locked reserve of one asset, released
/// under a percentage-of-circulating-supply cap.
pub struct PercentageVester {
    /// Amount placed under vesting at creation; immutable thereafter.
    pub tokens_initially_vested: Decimal,
    /// Cumulative amount released minus amount returned. May go negative
    /// when more is returned than was released; that is the caller's
    /// responsibility.
    pub tokens_unvested: Decimal,
    /// Cap parameter in `[0, 1)` (fixed-point, `SCALE` = 1); immutable.
    pub max_percentage_unvested: Decimal,
    /// Registered external read calls that report non-circulating pools.
    pub method_calls: Vec<TokenAmountCall>,
    /// Balance of the custodial reserve.
    pub token_vault: Decimal,
    /// Identity of the vested asset, passed to pool reads that take an
    /// argument and used to query the total supply; immutable.
    pub vested_token_address: ResourceAddress,
    /// The emergency override gating a full-reserve drain.
    pub override_state: EmergencyOverride,
}

impl PercentageVester {
    /// The component invariant: the cap parameter is in `[0, 1)`, the
    /// fixed amounts and the reserve are within the magnitudes the
    /// arithmetic accepts, and the registry is within its size bound.
    pub open spec fn wf(self) -> bool {
        &&& 0 <= self.max_percentage_unvested.micro < SCALE
        &&& 0 <= self.tokens_initially_vested.micro <= MAX_MAG
        &&& 0 <= self.token_vault.micro <= MAX_MAG
        &&& -UNVESTED_MAG <= self.tokens_unvested.micro <= UNVESTED_MAG
        &&& self.method_calls@.len() <= MAX_CALLS
        &&& self.override_state.wf()
    }

    /// The cap in force for this controller at total supply `s` and
    /// aggregated non-circulating amount `n` (micro-units).
    pub open spec fn spec_max_tokens(self, s: int, n: int) -> int {
        spec_max_tokens_unvested(
            self.max_percentage_unvested.micro as int,
            self.tokens_initially_vested.micro as int,
            s,
            n,
        )
    }

    /// The releasable amount for this controller at total supply `s` and
    /// aggregated non-circulating amount `n` (micro-units).
    pub open spec fn spec_unvestable_amount(self, s: int, n: int) -> int {
        self.spec_max_tokens(s, n) - self.tokens_unvested.micro
    }

    /// Everything a release or return leaves untouched: the creation-time
    /// parameters, the registry and the override.
    pub open spec fn same_but_funds(self, other: PercentageVester) -> bool {
        &&& self.tokens_initially_vested == other.tokens_initially_vested
        &&& self.max_percentage_unvested == other.max_percentage_unvested
        &&& self.method_calls == other.method_calls
        &&& self.vested_token_address == other.vested_token_address
        &&& self.override_state == other.override_state
    }

    /// Everything a registry mutation leaves untouched: the funds, the
    /// creation-time parameters and the override.
    pub open spec fn same_but_registry(self, other: PercentageVester) -> bool {
        &&& self.tokens_initially_vested == other.tokens_initially_vested
        &&& self.tokens_unvested == other.tokens_unvested
        &&& self.max_percentage_unvested == other.max_percentage_unvested
        &&& self.token_vault == other.token_vault
        &&& self.vested_token_address == other.vested_token_address
        &&& self.override_state == other.override_state
    }

    /// Everything an override transition leaves untouched: the funds, the
    /// creation-time parameters and the registry.
    pub open spec fn same_but_override(self, other: PercentageVester) -> bool {
        &&& self.tokens_initially_vested == other.tokens_initially_vested
        &&& self.tokens_unvested == other.tokens_unvested
        &&& self.max_percentage_unvested == other.max_percentage_unvested
        &&& self.method_calls == other.method_calls
        &&& self.token_vault == other.token_vault
        &&& self.vested_token_address == other.vested_token_address
    }

    /// Creates the controller: the reserve starts as the deposited amount,
    /// nothing is unvested yet, and the override starts disarmed — delayed
    /// when a delay is configured, flag-based otherwise. The cap parameter
    /// is rejected outside `[0, 1)`, where the formula is undefined.
    ///
    /// The host mints the vester capability and fixes the overseer rule
    /// when it deploys the component; authorization never reaches this
    /// logic.
    pub fn instantiate_vest(
        tokens_to_vest: Decimal,
        max_percentage_unvested: Decimal,
        method_calls: Vec<TokenAmountCall>,
        vested_token_address: ResourceAddress,
        override_delay_days: Option<i64>,
    ) -> (r: Result<PercentageVester, VestError>)
        requires
            0 <= tokens_to_vest.micro <= MAX_MAG,
            method_calls@.len() <= MAX_CALLS,
            match override_delay_days {
                Some(d) => 0 <= d <= MAX_DELAY_DAYS,
                None => true,
            },
        ensures
            r is Ok <==> 0 <= max_percentage_unvested.micro < SCALE,
            match r {
                Ok(v) => {
                    &&& v.wf()
                    &&& v.tokens_initially_vested == tokens_to_vest
                    &&& v.tokens_unvested.micro == 0
                    &&& v.max_percentage_unvested == max_percentage_unvested
                    &&& v.method_calls@ == method_calls@
                    &&& v.token_vault == tokens_to_vest
                    &&& v.vested_token_address == vested_token_address
                    &&& v.override_state == match override_delay_days {
                        Some(d) => EmergencyOverride::Delayed { delay_days: d, activation: None },
                        None => EmergencyOverride::Flag { allowed: false },
                    }
                },
                Err(e) => e == VestError::InvalidCapParameter,
            },
    {
        if !(0 <= max_percentage_unvested.micro && max_percentage_unvested.micro < SCALE) {
            return Err(VestError::InvalidCapParameter);
        }
        let override_state: EmergencyOverride = match override_delay_days {
            Some(d) => EmergencyOverride::new_delayed(d),
            None => EmergencyOverride::new_flag(),
        };
        Ok(PercentageVester {
            tokens_initially_vested: tokens_to_vest,
            tokens_unvested: Decimal::zero(),
            max_percentage_unvested,
            method_calls,
            token_vault: tokens_to_vest,
            vested_token_address,
            override_state,
        })
    }

    /// The reserve's current balance.
    pub fn get_token_amount(&self) -> (r: Decimal)
        ensures
            r == self.token_vault,
    {
        self.token_vault
    }

    /// The cumulative unvested total.
    pub fn get_amount_unvested(&self) -> (r: Decimal)
        ensures
            r == self.tokens_unvested,
    {
        self.tokens_unvested
    }

    /// The registered pool descriptors, for the host to drive reads from.
    pub fn registered_calls(&self) -> (r: &Vec<TokenAmountCall>)
        ensures
            r == &self.method_calls,
    {
        &self.method_calls
    }

    /// Appends a descriptor, uninitialized, to the registry. No
    /// deduplication: registering the same identity twice is the caller's
    /// lookout.
    pub fn add_method_call(
        &mut self,
        method_name: String,
        with_arg: bool,
        component_address: ComponentAddress,
    )
        requires
            old(self).wf(),
            old(self).method_calls@.len() < MAX_CALLS,
        ensures
            final(self).wf(),
            final(self).method_calls@ == old(self).method_calls@.push(
                (TokenAmountCall {
                    method_name,
                    component_address,
                    with_arg,
                    initialized: false,
                }),
            ),
            old(self).same_but_registry(*final(self)),
    {
        self.method_calls.push(TokenAmountCall {
            method_name,
            component_address,
            with_arg,
            initialized: false,
        });
    }

    /// Deposits `tokens` back into the reserve and decrements the
    /// unvested total, reversing a release. Nothing stops the unvested
    /// total from going negative when more is returned than was released;
    /// that is the caller's responsibility.
    pub fn put_back_tokens(&mut self, tokens: Decimal)
        requires
            old(self).wf(),
            tokens.micro >= 0,
            old(self).token_vault.micro + tokens.micro <= MAX_MAG,
            old(self).tokens_unvested.micro - tokens.micro >= -UNVESTED_MAG,
        ensures
            final(self).wf(),
            final(self).tokens_unvested.micro == old(self).tokens_unvested.micro - tokens.micro,
            final(self).token_vault.micro == old(self).token_vault.micro + tokens.micro,
            final(self).token_vault.micro + final(self).tokens_unvested.micro == old(
                self,
            ).token_vault.micro + old(self).tokens_unvested.micro,
            old(self).same_but_funds(*final(self)),
    {
        self.tokens_unvested = Decimal { micro: self.tokens_unvested.micro - tokens.micro };
        self.token_vault = Decimal { micro: self.token_vault.micro + tokens.micro };
    }

    /// One-way arming of the flag-variant override. On the delayed
    /// variant this is not an arming path and changes nothing.
    pub fn emergency_unvest_allow(&mut self)
        requires
            old(self).wf(),
        ensures
            final(self).wf(),
            final(self).override_state == match old(self).override_state {
                EmergencyOverride::Flag { .. } => EmergencyOverride::Flag { allowed: true },
                EmergencyOverride::Delayed { .. } => old(self).override_state,
            },
            old(self).same_but_override(*final(self)),
    {
        self.override_state.allow();
    }

    /// Arms or disarms the delayed-variant override at instant `now`:
    /// disarmed moves to armed, activating `delay_days` days ahead; armed
    /// moves back to disarmed. The flag variant is left unchanged.
    pub fn emergency_unvest_toggle(&mut self, now: i64)
        requires
            old(self).wf(),
            0 <= now <= MAX_INSTANT,
        ensures
            final(self).wf(),
            final(self).override_state == ({
                let o = old(self).override_state;
                match o {
                    EmergencyOverride::Flag { .. } => o,
                    EmergencyOverride::Delayed { delay_days, activation } => match activation {
                        None => EmergencyOverride::Delayed {
                            delay_days,
                            activation: Some(
                                (now + delay_days * crate::override_state::SECONDS_PER_DAY) as i64,
                            ),
                        },
                        Some(_) => EmergencyOverride::Delayed { delay_days, activation: None },
                    },
                }
            }),
            old(self).same_but_override(*final(self)),
    {
        self.override_state.toggle(now);
    }

    /// Immediately arms the delayed-variant override: the activation
    /// instant becomes `now`, skipping the delay. The flag variant is
    /// left unchanged.
    pub fn emergency_unvest_activate_now(&mut self, now: i64)
        requires
            old(self).wf(),
            0 <= now <= MAX_INSTANT,
        ensures
            final(self).wf(),
            final(self).override_state == match old(self).override_state {
                EmergencyOverride::Flag { .. } => old(self).override_state,
                EmergencyOverride::Delayed { delay_days, .. } => EmergencyOverride::Delayed {
                    delay_days,
                    activation: Some(now),
                },
            },
            old(self).same_but_override(*final(self)),
    {
        self.override_state.activate_now(now);
    }

    /// Attempts the emergency drain at instant `now`. When the override
    /// is usable, the entire reserve is withdrawn and returned; the
    /// override stays armed, so the drain remains available until it is
    /// explicitly disarmed. When it is not usable, nothing happens and
    /// nothing is returned.
    pub fn emergency_unvest(&mut self, now: i64) -> (r: Option<Decimal>)
        requires
            old(self).wf(),
        ensures
            final(self).wf(),
            match r {
                Some(w) => {
                    &&& old(self).override_state.spec_usable(now as int)
                    &&& w == old(self).token_vault
                    &&& final(self).token_vault.micro == 0
                    &&& final(self).tokens_unvested == old(self).tokens_unvested
                    &&& old(self).same_but_funds(*final(self))
                },
                None => {
                    &&& !old(self).override_state.spec_usable(now as int)
                    &&& *final(self) == *old(self)
                },
            },
    {
        if self.override_state.usable(now) {
            let withdrawn: Decimal = self.token_vault;
            self.token_vault = Decimal { micro: 0 };
            Some(withdrawn)
        } else {
            None
        }
    }

    /// Computes the currently releasable amount from the host's reads:
    /// `total_supply` is the ledger's answer for the vested asset (`None`
    /// when the asset is unknown), and `pool_reads` holds one entry per
    /// registered descriptor, in registry order, `None` where the call
    /// failed. Every descriptor is consulted, initialized or not. One
    /// failed read aborts the whole computation: no partial aggregation,
    /// no default of zero.
    ///
    /// The result is the cap minus the unvested total. It may be negative
    /// (nothing releasable) and may exceed the reserve; `unvest_tokens`
    /// alone clamps it.
    pub fn get_amount_unvestable(
        &self,
        total_supply: Option<Decimal>,
        pool_reads: &Vec<Option<Decimal>>,
    ) -> (r: Result<Decimal, VestError>)
        requires
            self.wf(),
            pool_reads@.len() == self.method_calls@.len(),
            supply_in_range(total_supply),
            reads_in_range(pool_reads@),
        ensures
            r is Ok <==> (total_supply is Some && all_reads_ok(pool_reads@)),
            match r {
                Ok(u) => u.micro == self.spec_unvestable_amount(
                    total_supply->Some_0.micro as int,
                    spec_reads_sum(pool_reads@),
                ),
                Err(e) => (if total_supply is None {
                    e == VestError::AssetNotFound
                } else {
                    e == VestError::ExternalCallFailed
                }),
            },
    {
        let supply: Decimal = match total_supply {
            Some(d) => d,
            None => {
                return Err(VestError::AssetNotFound);
            },
        };
        let ghost reads: Seq<Option<Decimal>> = pool_reads@;
        let mut non_circulating: i128 = 0;
        let mut i: usize = 0;
        while i < pool_reads.len()
            invariant
                total_supply is Some,
                pool_reads@ == reads,
                reads_in_range(reads),
                i <= reads.len(),
                reads.len() <= MAX_CALLS,
                forall|j: int| 0 <= j < i ==> reads[j] is Some,
                non_circulating == spec_reads_sum(reads.take(i as int)),
                -(i as int) * MAX_READ_MAG <= non_circulating <= (i as int) * MAX_READ_MAG,
            decreases reads.len() - i,
        {
            match pool_reads[i] {
                Some(d) => {
                    proof {
                        assert(reads.take(i as int + 1).drop_last() =~= reads.take(i as int));
                        assert(reads.take(i as int + 1).last() == reads[i as int]);
                    }
                    non_circulating = non_circulating + d.micro;
                },
                None => {
                    proof {
                        assert(0 <= i < reads.len() && !(reads[i as int] is Some));
                        assert(!all_reads_ok(reads));
                    }
                    return Err(VestError::ExternalCallFailed);
                },
            }
            i = i + 1;
        }
        proof {
            assert(reads.take(reads.len() as int) =~= reads);
        }
        let u: i128 = compute_unvestable_core(
            self.max_percentage_unvested.micro,
            self.tokens_initially_vested.micro,
            self.tokens_unvested.micro,
            supply.micro,
            non_circulating,
        );
        Ok(Decimal { micro: u })
    }

    /// Releases what the cap currently allows. The host performs the same
    /// reads as for `get_amount_unvestable` and hands them in, so all
    /// external calls are over before any state changes: a reentrant read
    /// can never observe a half-updated controller.
    ///
    /// Returns `Ok(None)` — a no-op, nothing to release — when the
    /// releasable amount is not positive, and `Ok(Some(withdrawn))`
    /// otherwise, where `withdrawn` is the releasable amount clamped to
    /// the reserve balance: the cap formula is a ceiling, not a supply
    /// guarantee. A failed read aborts with no state change. Every unit
    /// withdrawn is added to the unvested total, so
    /// `token_vault + tokens_unvested` is conserved.
    pub fn unvest_tokens(
        &mut self,
        total_supply: Option<Decimal>,
        pool_reads: &Vec<Option<Decimal>>,
    ) -> (r: Result<Option<Decimal>, VestError>)
        requires
            old(self).wf(),
            pool_reads@.len() == old(self).method_calls@.len(),
            supply_in_range(total_supply),
            reads_in_range(pool_reads@),
        ensures
            final(self).wf(),
            old(self).same_but_funds(*final(self)),
            final(self).token_vault.micro + final(self).tokens_unvested.micro == old(
                self,
            ).token_vault.micro + old(self).tokens_unvested.micro,
            r is Ok <==> (total_supply is Some && all_reads_ok(pool_reads@)),
            match r {
                Ok(w) => ({
                    let u = old(self).spec_unvestable_amount(
                        total_supply->Some_0.micro as int,
                        spec_reads_sum(pool_reads@),
                    );
                    let amount = spec_release_amount(u, old(self).token_vault.micro as int);
                    match w {
                        None => u <= 0 && *final(self) == *old(self),
                        Some(withdrawn) => {
                            &&& u > 0
                            &&& withdrawn.micro == amount
                            &&& final(self).tokens_unvested.micro == old(
                                self,
                            ).tokens_unvested.micro + amount
                            &&& final(self).token_vault.micro == old(self).token_vault.micro
                                - amount
                            &&& final(self).tokens_unvested.micro <= old(self).spec_max_tokens(
                                total_supply->Some_0.micro as int,
                                spec_reads_sum(pool_reads@),
                            )
                        },
                    }
                }),
                Err(e) => *final(self) == *old(self) && (if total_supply is None {
                    e == VestError::AssetNotFound
                } else {
                    e == VestError::ExternalCallFailed
                }),
            },
    {
        let unvestable: Decimal = match self.get_amount_unvestable(total_supply, pool_reads) {
            Ok(d) => d,
            Err(e) => {
                return Err(e);
            },
        };
        if unvestable.micro > 0 {
            proof {
                lemma_reads_sum_bound(pool_reads@);
                lemma_max_tokens_bound(
                    self.max_percentage_unvested.micro as int,
                    self.tokens_initially_vested.micro as int,
                    total_supply->Some_0.micro as int,
                    spec_reads_sum(pool_reads@),
                );
            }
            let vault_balance: i128 = self.token_vault.micro;
            let amount: i128 = if unvestable.micro > vault_balance {
                vault_balance
            } else {
                unvestable.micro
            };
            self.tokens_unvested = Decimal { micro: self.tokens_unvested.micro + amount };
            self.token_vault = Decimal { micro: vault_balance - amount };
            Ok(Some(Decimal { micro: amount }))
        } else {
            Ok(None)
        }
    }

    /// Removes every descriptor of the given identity that is still
    /// uninitialized. A descriptor that has proven reachable at least
    /// once is never removed by this call, so a consumer cannot silently
    /// lose a validated source.
    pub fn remove_uninitialized_method_call(
        &mut self,
        method_name: String,
        component_address: ComponentAddress,
    )
        requires
            old(self).wf(),
        ensures
            final(self).wf(),
            final(self).method_calls@ == old(self).method_calls@.filter(
                |c: TokenAmountCall|
                    keeps_if_uninitialized_removed(c, method_name@, component_address),
            ),
            forall|i: int|
                0 <= i < old(self).method_calls@.len() && (#[trigger] old(
                    self,
                ).method_calls@[i]).initialized ==> final(self).method_calls@.contains(
                    old(self).method_calls@[i],
                ),
            forall|j: int|
                0 <= j < final(self).method_calls@.len() ==> keeps_if_uninitialized_removed(
                    #[trigger] final(self).method_calls@[j],
                    method_name@,
                    component_address,
                ),
            old(self).same_but_registry(*final(self)),
    {
        let ghost pred = |c: TokenAmountCall|
            keeps_if_uninitialized_removed(c, method_name@, component_address);
        let mut work: Vec<TokenAmountCall> = Vec::new();
        core::mem::swap(&mut self.method_calls, &mut work);
        let ghost orig: Seq<TokenAmountCall> = work@;
        let mut kept: Vec<TokenAmountCall> = Vec::new();
        let ghost mut processed: Seq<TokenAmountCall> = Seq::empty();
        while work.len() > 0
            invariant
                orig == processed + work@,
                kept@ == processed.filter(pred),
                pred == (|c: TokenAmountCall|
                    keeps_if_uninitialized_removed(c, method_name@, component_address)),
            decreases work.len(),
        {
            let c = work.remove(0);
            proof {
                assert(processed.push(c) + work@ =~= orig);
                lemma_filter_push(processed, pred, c);
            }
            let keep: bool = !(c.method_name == method_name
                && c.component_address == component_address && !c.initialized);
            if keep {
                kept.push(c);
            }
            proof {
                processed = processed.push(c);
            }
        }
        proof {
            assert(processed =~= orig);
        }
        self.method_calls = kept;
        proof {
            orig.lemma_filter_len(pred);
            assert forall|i: int|
                0 <= i < orig.len() && (#[trigger] orig[i]).initialized implies self
                .method_calls@.contains(orig[i]) by {
                orig.lemma_filter_contains(pred, i);
            };
            assert forall|j: int|
                0 <= j < self.method_calls@.len() implies keeps_if_uninitialized_removed(
                #[trigger] self.method_calls@[j],
                method_name@,
                component_address,
            ) by {
                orig.lemma_filter_pred(pred, j);
            };
        }
    }

    /// Removes every descriptor of the given identity, initialized or
    /// not. Reserved for the higher-privilege overseer: the party that
    /// can freely add sources cannot unilaterally strip a validated one.
    pub fn remove_method_call(&mut self, method_name: String, component_address: ComponentAddress)
        requires
            old(self).wf(),
        ensures
            final(self).wf(),
            final(self).method_calls@ == old(self).method_calls@.filter(
                |c: TokenAmountCall| keeps_if_removed(c, method_name@, component_address),
            ),
            forall|j: int|
                0 <= j < final(self).method_calls@.len() ==> !call_matches(
                    #[trigger] final(self).method_calls@[j],
                    method_name@,
                    component_address,
                ),
            old(self).same_but_registry(*final(self)),
    {
        let ghost pred = |c: TokenAmountCall| keeps_if_removed(c, method_name@, component_address);
        let mut work: Vec<TokenAmountCall> = Vec::new();
        core::mem::swap(&mut self.method_calls, &mut work);
        let ghost orig: Seq<TokenAmountCall> = work@;
        let mut kept: Vec<TokenAmountCall> = Vec::new();
        let ghost mut processed: Seq<TokenAmountCall> = Seq::empty();
        while work.len() > 0
            invariant
                orig == processed + work@,
                kept@ == processed.filter(pred),
                pred == (|c: TokenAmountCall| keeps_if_removed(c, method_name@, component_address)),
            decreases work.len(),
        {
            let c = work.remove(0);
            proof {
                assert(processed.push(c) + work@ =~= orig);
                lemma_filter_push(processed, pred, c);
            }
            let keep: bool = !(c.method_name == method_name
                && c.component_address == component_address);
            if keep {
                kept.push(c);
            }
            proof {
                processed = processed.push(c);
            }
        }
        proof {
            assert(processed =~= orig);
        }
        self.method_calls = kept;
        proof {
            orig.lemma_filter_len(pred);
            assert forall|j: int|
                0 <= j < self.method_calls@.len() implies !call_matches(
                #[trigger] self.method_calls@[j],
                method_name@,
                component_address,
            ) by {
                orig.lemma_filter_pred(pred, j);
            };
        }
    }

    /// Marks every descriptor initialized, after the host has probed each
    /// uninitialized one. `call_results` holds one entry per descriptor,
    /// in registry order: whether the host's probe call to it completed
    /// without failure. Entries for already-initialized descriptors are
    /// not consulted — those are not probed again. One failed probe
    /// aborts the whole operation with no state change: there is no
    /// partial-success state.
    pub fn initialize_uninitialized(&mut self, call_results: &Vec<bool>) -> (r: Result<
        (),
        VestError,
    >)
        requires
            old(self).wf(),
            call_results@.len() == old(self).method_calls@.len(),
        ensures
            final(self).wf(),
            old(self).same_but_registry(*final(self)),
            r is Ok <==> (forall|i: int|
                0 <= i < old(self).method_calls@.len() ==> ((#[trigger] old(
                    self,
                ).method_calls@[i]).initialized || call_results@[i])),
            match r {
                Ok(_) => {
                    &&& final(self).method_calls@.len() == old(self).method_calls@.len()
                    &&& forall|i: int|
                        0 <= i < old(self).method_calls@.len() ==> {
                            let c = #[trigger] final(self).method_calls@[i];
                            let o = old(self).method_calls@[i];
                            c.method_name == o.method_name && c.component_address
                                == o.component_address && c.with_arg == o.with_arg && c.initialized
                        }
                },
                Err(e) => e == VestError::ExternalCallFailed && *final(self) == *old(self),
            },
    {
        let n: usize = self.method_calls.len();
        let mut i: usize = 0;
        while i < n
            invariant
                *self == *old(self),
                old(self).wf(),
                n == self.method_calls@.len(),
                call_results@.len() == n,
                i <= n,
                forall|j: int|
                    0 <= j < i ==> ((#[trigger] self.method_calls@[j]).initialized
                        || call_results@[j]),
            decreases n - i,
        {
            if !self.method_calls[i].initialized && !call_results[i] {
                proof {
                    assert(!((self.method_calls@[i as int]).initialized
                        || call_results@[i as int]));
                }
                return Err(VestError::ExternalCallFailed);
            }
            i = i + 1;
        }
        let mut work: Vec<TokenAmountCall> = Vec::new();
        core::mem::swap(&mut self.method_calls, &mut work);
        let ghost orig: Seq<TokenAmountCall> = work@;
        let mut marked: Vec<TokenAmountCall> = Vec::new();
        while work.len() > 0
            invariant
                marked@.len() + work@.len() == orig.len(),
                work@ =~= orig.skip(marked@.len() as int),
                forall|j: int|
                    0 <= j < marked@.len() ==> {
                        let c = #[trigger] marked@[j];
                        let o = orig[j];
                        c.method_name == o.method_name && c.component_address
                            == o.component_address && c.with_arg == o.with_arg && c.initialized
                    },
            decreases work.len(),
        {
            let ghost k = marked@.len() as int;
            let c = work.remove(0);
            marked.push(TokenAmountCall {
                method_name: c.method_name,
                component_address: c.component_address,
                with_arg: c.with_arg,
                initialized: true,
            });
            proof {
                assert(work@ =~= orig.skip(k + 1));
            }
        }
        self.method_calls = marked;
        Ok(())
    }
}

} // verus!

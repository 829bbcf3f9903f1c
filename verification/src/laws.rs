//! Laws of the controller, stated over the same spec functions that its
//! contracts use.

use vstd::prelude::*;

use crate::registry::{
    ComponentAddress, TokenAmountCall, keeps_if_uninitialized_removed,
    lemma_remove_uninitialized_noop_when_initialized,
};
use crate::vester::{PercentageVester, spec_max_tokens_unvested, spec_release_amount};

verus! {

/// Law: once every registered descriptor is initialized — the state a
/// successful `initialize_uninitialized` ensures — the registry that
/// `remove_uninitialized_method_call` leaves behind is the registry
/// itself, for any identity: a validated source can only be stripped by
/// the overseer's `remove_method_call`.
pub proof fn lemma_registry_protection(
    v: PercentageVester,
    name: Seq<char>,
    addr: ComponentAddress,
)
    requires
        forall|i: int|
            0 <= i < v.method_calls@.len() ==> (#[trigger] v.method_calls@[i]).initialized,
    ensures
        v.method_calls@.filter(
            |c: TokenAmountCall| keeps_if_uninitialized_removed(c, name, addr),
        ) == v.method_calls@,
{
    lemma_remove_uninitialized_noop_when_initialized(v.method_calls@, name, addr);
}

/// Law: a release never pushes the unvested total above the cap in force.
///
/// With reserve balance `reserve` and unvested total `unv`, a release
/// under the cap `spec_max_tokens_unvested(p, v0, s, n)` withdraws
/// `spec_release_amount(cap - unv, reserve)`. The new unvested total
/// stays at or below the larger of the old total and the cap; in
/// particular, a total that starts at or below the cap stays at or below
/// it, and when nothing is releasable the total is unchanged. The cap
/// does not depend on the unvested total, so by induction any sequence
/// of releases with unchanged external reads keeps the total at or below
/// the cap computed at each call.
pub proof fn lemma_cap_invariant(p: int, v0: int, unv: int, reserve: int, s: int, n: int)
    requires
        0 <= reserve,
    ensures
        ({
            let cap = spec_max_tokens_unvested(p, v0, s, n);
            let next = unv + spec_release_amount(cap - unv, reserve);
            &&& next <= (if unv >= cap {
                unv
            } else {
                cap
            })
            &&& (unv <= cap ==> next <= cap)
            &&& (cap - unv <= 0 ==> next == unv)
        }),
{
}

} // verus!

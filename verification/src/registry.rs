//! Descriptors for the external non-circulating pools.
//!
//! The controller derives circulating supply by querying a mutable list of
//! externally owned components. Each list entry is a [`TokenAmountCall`]:
//! the method to invoke, the component that owns it, whether the vested
//! asset's identity is passed as the sole argument, and whether a probe
//! call has ever completed successfully (`initialized`).

use vstd::prelude::*;

verus! {

/// Identity of an externally deployed component, as a plain handle value.
/// The host resolves it to the real component when it performs a call.
#[derive(Clone, Copy, PartialEq, Eq, Structural, Debug)]
pub struct ComponentAddress {
    pub raw: u64,
}

/// Identity of an asset tracked by the ledger service, as a plain handle
/// value. The host resolves it when it queries the total supply.
#[derive(Clone, Copy, PartialEq, Eq, Structural, Debug)]
pub struct ResourceAddress {
    pub raw: u64,
}

/// One registered read call that reports a non-circulating balance.
pub struct TokenAmountCall {
    /// Name of the method to invoke on the target component.
    pub method_name: String,
    /// The component that owns the method.
    pub component_address: ComponentAddress,
    /// Whether the vested asset's identity is passed as the sole argument.
    pub with_arg: bool,
    /// Whether a probe call to this descriptor has ever succeeded. A
    /// liveness record, not a correctness guarantee: aggregation ignores it.
    pub initialized: bool,
}

/// Whether a descriptor carries the given identity. `method_name` and
/// `component_address` together identify a descriptor.
pub open spec fn call_matches(c: TokenAmountCall, name: Seq<char>, addr: ComponentAddress) -> bool {
    c.method_name@ == name && c.component_address == addr
}

/// The predicate under which `remove_uninitialized_method_call` keeps a
/// descriptor: initialized descriptors and those of another identity stay.
pub open spec fn keeps_if_uninitialized_removed(
    c: TokenAmountCall,
    name: Seq<char>,
    addr: ComponentAddress,
) -> bool {
    !(call_matches(c, name, addr) && !c.initialized)
}

/// The predicate under which `remove_method_call` keeps a descriptor: only
/// those of another identity stay.
pub open spec fn keeps_if_removed(c: TokenAmountCall, name: Seq<char>, addr: ComponentAddress) -> bool {
    !call_matches(c, name, addr)
}

/// Filtering distributes over `push`: the kept part of `s.push(e)` is the
/// kept part of `s`, with `e` appended exactly when the predicate holds.
pub proof fn lemma_filter_push<A>(s: Seq<A>, pred: spec_fn(A) -> bool, e: A)
    ensures
        s.push(e).filter(pred) == (if pred(e) {
            s.filter(pred).push(e)
        } else {
            s.filter(pred)
        }),
{
    reveal(Seq::filter);
    assert(s.push(e).drop_last() =~= s);
    assert(s.push(e).last() == e);
}

/// A filter whose predicate holds of every element changes nothing.
pub proof fn lemma_filter_all_kept<A>(s: Seq<A>, pred: spec_fn(A) -> bool)
    requires
        forall|i: int| 0 <= i < s.len() ==> pred(#[trigger] s[i]),
    ensures
        s.filter(pred) == s,
    decreases s.len(),
{
    reveal(Seq::filter);
    if s.len() > 0 {
        lemma_filter_all_kept(s.drop_last(), pred);
        assert(s.drop_last().push(s.last()) =~= s);
    }
}

/// Once a descriptor is initialized, removing uninitialized descriptors of
/// its identity — or of any identity — leaves the whole registry unchanged
/// whenever every registered descriptor is initialized.
pub proof fn lemma_remove_uninitialized_noop_when_initialized(
    s: Seq<TokenAmountCall>,
    name: Seq<char>,
    addr: ComponentAddress,
)
    requires
        forall|i: int| 0 <= i < s.len() ==> #[trigger] s[i].initialized,
    ensures
        s.filter(|c: TokenAmountCall| keeps_if_uninitialized_removed(c, name, addr)) == s,
{
    lemma_filter_all_kept(s, |c: TokenAmountCall| keeps_if_uninitialized_removed(c, name, addr));
}

} // verus!

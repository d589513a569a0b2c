//! Properties of the presale that span operations.
use crate::error::PresaleError;
use crate::records::{ConfigData, PresaleData};
use vstd::bytes::spec_u64_to_le_bytes;
use crate::vesting::{purchase_outcome, vest_outcome};
use vstd::prelude::*;

verus! {

/// A successful purchase keeps the registry within its supply and the ledger
/// within what was bought; so does a successful claim for the ledger.
pub proof fn lemma_invariants_preserved(c: ConfigData, d: PresaleData, amount: u64, now: i64)
    requires
        c.wf(),
        d.wf(),
    ensures
        purchase_outcome(c, d, amount, now) is Ok ==> purchase_outcome(c, d, amount, now)->Ok_0.0.wf()
            && purchase_outcome(c, d, amount, now)->Ok_0.1.wf(),
        vest_outcome(d, now) is Ok ==> vest_outcome(d, now)->Ok_0.0.wf(),
{
    assert(reward_cliff_bound(amount)) by (nonlinear_arith);
}

/// The cliff tranche of a purchase never exceeds the purchase.
pub open spec fn reward_cliff_bound(amount: u64) -> bool {
    crate::vesting::cliff_for(crate::vesting::reward_for(amount)) <= crate::vesting::reward_for(amount)
}

/// A successful purchase never lowers the amount sold nor the amount already
/// paid to the contributor.
pub proof fn lemma_purchase_monotone(c: ConfigData, d: PresaleData, amount: u64, now: i64)
    requires
        c.wf(),
        d.wf(),
    ensures
        purchase_outcome(c, d, amount, now) is Ok ==> {
            let (c2, d2, _) = purchase_outcome(c, d, amount, now)->Ok_0;
            &&& c2.presale_total >= c.presale_total
            &&& c2.nest_total == c.nest_total
            &&& d2.nest_claim == d.nest_claim
            &&& d2.nest_total >= d.nest_total
        },
{
}

/// A successful claim never lowers the amount paid, provided that a pending
/// cliff tranche means that nothing has been paid yet: the cliff claim is the
/// first claim, and it sets the amount paid rather than adding to it.
pub proof fn lemma_claim_monotone(d: PresaleData, now: i64)
    requires
        d.wf(),
        d.nest_cliff > 0 ==> d.nest_claim == 0,
    ensures
        vest_outcome(d, now) is Ok ==> {
            let d2 = vest_outcome(d, now)->Ok_0.0;
            &&& d2.nest_claim >= d.nest_claim
            &&& d2.nest_total == d.nest_total
            &&& d2.nest_cliff == 0
        },
{
}

/// That precondition holds of every ledger in a history in which claims only
/// follow purchases: a purchase keeps a ledger with nothing paid at nothing
/// paid, a successful claim leaves no cliff pending, and a purchase can only
/// succeed at an earlier time than any claim.
pub proof fn lemma_cliff_precedes_payment(c: ConfigData, d: PresaleData, amount: u64, t_buy: i64, e: PresaleData, t_claim: i64)
    requires
        c.wf(),
        d.wf(),
        e.wf(),
    ensures
        purchase_outcome(c, d, amount, t_buy) is Ok && d.nest_claim == 0 ==> purchase_outcome(
            c,
            d,
            amount,
            t_buy,
        )->Ok_0.1.nest_claim == 0,
        vest_outcome(e, t_claim) is Ok ==> vest_outcome(e, t_claim)->Ok_0.0.nest_cliff == 0,
        purchase_outcome(c, d, amount, t_buy) is Ok && vest_outcome(e, t_claim) is Ok ==> t_buy < t_claim,
{
}

/// A well-formed registry or ledger reads back, from its stored form, as
/// itself.
pub proof fn lemma_records_round_trip(c: ConfigData, d: PresaleData)
    requires
        c.wf(),
        d.wf(),
    ensures
        ConfigData::parse(c.encoding()) == Ok::<ConfigData, PresaleError>(c),
        PresaleData::parse(d.encoding()) == Ok::<PresaleData, PresaleError>(d),
{
    vstd::bytes::lemma_auto_spec_u64_to_from_le_bytes();
    let ce = c.encoding();
    assert(ce.subrange(0, 8) =~= spec_u64_to_le_bytes(c.nest_total));
    assert(ce.subrange(8, 16) =~= spec_u64_to_le_bytes(c.presale_total));
    let de = d.encoding();
    assert(de.subrange(0, 8) =~= spec_u64_to_le_bytes(d.nest_total));
    assert(de.subrange(8, 16) =~= spec_u64_to_le_bytes(d.nest_claim));
    assert(de.subrange(16, 24) =~= spec_u64_to_le_bytes(d.nest_cliff));
}

} // verus!

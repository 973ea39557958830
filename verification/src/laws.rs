//! Laws of the escrow state machine, proved about the transition functions of
//! [`crate::transitions`]. The executable handlers refine those functions
//! exactly, so each law carries over to the handlers' results.

use vstd::prelude::*;

use crate::model::SwapError;
use crate::model::SwapItemStatus;
use crate::model::SwapProposalModel;
use crate::model::SwapProposalStatus;
use crate::model::unique_item_ids;
use crate::transitions::all_deposited;
use crate::transitions::deposit_plan;
use crate::transitions::deposit_step;
use crate::transitions::fulfill_plan;
use crate::transitions::fulfill_step;
use crate::transitions::has_item;
use crate::transitions::item_index;
use crate::transitions::lemma_item_index_of;
use crate::transitions::lemma_option_index_of;
use crate::transitions::option_index;
use crate::transfer_assets_to_vault::TransferParamsModel;
use crate::transfer_assets_to_vault::execute_plan;
use crate::transfer_assets_to_vault::execute_step;

verus! {

/// Position of a status on the forward-only track Open, Deposited, Fulfilled.
pub open spec fn status_rank(s: SwapProposalStatus) -> int {
    match s {
        SwapProposalStatus::Open => 0,
        SwapProposalStatus::Deposited => 1,
        SwapProposalStatus::Fulfilled => 2,
    }
}

/// A successful offering-side deposit keeps the proposal well-formed.
pub proof fn lemma_deposit_preserves_wf(p: SwapProposalModel, item_id: Seq<char>, signer: Seq<char>)
    requires
        p.wf(),
    ensures
        deposit_step(p, item_id, signer) matches Ok(p2) ==> p2.wf(),
{
    let step = deposit_step(p, item_id, signer);
    if step is Ok {
        let p2 = step->Ok_0;
        let i = item_index(p.offered_items, item_id);
        assert(forall|k: int|
            0 <= k < p2.offered_items.len() ==> (#[trigger] p2.offered_items[k]).id
                == p.offered_items[k].id);
        assert(unique_item_ids(p2.offered_items));
    }
}

/// A successful fulfilling deposit keeps the proposal well-formed.
pub proof fn lemma_fulfill_preserves_wf(
    p: SwapProposalModel,
    option_id: Seq<char>,
    item_id: Seq<char>,
    signer: Seq<char>,
)
    requires
        p.wf(),
    ensures
        fulfill_step(p, option_id, item_id, signer) matches Ok(p2) ==> p2.wf(),
{
    let step = fulfill_step(p, option_id, item_id, signer);
    if step is Ok {
        let p2 = step->Ok_0;
        let oi = option_index(p.swap_options, option_id);
        let asking = p.swap_options[oi].asking_items;
        let asking2 = p2.swap_options[oi].asking_items;
        assert(forall|k: int|
            0 <= k < p2.swap_options.len() ==> (#[trigger] p2.swap_options[k]).id
                == p.swap_options[k].id);
        assert(forall|k: int|
            0 <= k < asking2.len() ==> (#[trigger] asking2[k]).id == asking[k].id);
        assert(unique_item_ids(asking2));
        assert(forall|k: int|
            0 <= k < p2.swap_options.len() && k != oi ==> #[trigger] p2.swap_options[k]
                == p.swap_options[k]);
    }
}

/// No double deposit, offering side: once an offered item is deposited, any
/// further deposit targeting it is rejected, before the vault transfer
/// gateway would be invoked (the validation and the transition reject alike),
/// whatever caller attempts it.
pub proof fn lemma_no_double_deposit(p: SwapProposalModel, item_id: Seq<char>, signer: Seq<char>)
    requires
        p.wf(),
        has_item(p.offered_items, item_id),
        p.offered_items[item_index(p.offered_items, item_id)].status == SwapItemStatus::Deposited,
    ensures
        deposit_plan(p, item_id) == Err::<u64, SwapError>(SwapError::DepositIsNotAvailable),
        deposit_step(p, item_id, signer) == Err::<SwapProposalModel, SwapError>(
            SwapError::DepositIsNotAvailable,
        ),
{
}

/// No double deposit, sequentially: the deposit that succeeded makes every
/// later deposit of the same item id fail.
pub proof fn lemma_deposit_rejects_replay(
    p: SwapProposalModel,
    item_id: Seq<char>,
    signer: Seq<char>,
    signer2: Seq<char>,
)
    requires
        p.wf(),
    ensures
        deposit_step(p, item_id, signer) matches Ok(p2) ==> deposit_step(p2, item_id, signer2)
            == Err::<SwapProposalModel, SwapError>(SwapError::DepositIsNotAvailable),
{
    let step = deposit_step(p, item_id, signer);
    if step is Ok {
        let p2 = step->Ok_0;
        lemma_deposit_preserves_wf(p, item_id, signer);
        let i = item_index(p.offered_items, item_id);
        lemma_item_index_of(p2.offered_items, item_id, i);
        lemma_no_double_deposit(p2, item_id, signer2);
    }
}

/// No double deposit, fulfilling side: once an asking item of the reserved
/// option is deposited, a further fulfillment targeting it is rejected, by
/// the validation and by the transition alike.
pub proof fn lemma_no_double_fulfill(
    p: SwapProposalModel,
    option_id: Seq<char>,
    item_id: Seq<char>,
    signer: Seq<char>,
    signer2: Seq<char>,
)
    requires
        p.wf(),
    ensures
        fulfill_step(p, option_id, item_id, signer) matches Ok(p2) ==> {
            &&& fulfill_plan(p2, option_id, item_id, signer2) == Err::<u64, SwapError>(
                SwapError::FulfillingIsNotAvailable,
            )
            &&& fulfill_step(p2, option_id, item_id, signer2) == Err::<
                SwapProposalModel,
                SwapError,
            >(SwapError::FulfillingIsNotAvailable)
        },
{
    let step = fulfill_step(p, option_id, item_id, signer);
    if step is Ok {
        let p2 = step->Ok_0;
        lemma_fulfill_preserves_wf(p, option_id, item_id, signer);
        let oi = option_index(p.swap_options, option_id);
        lemma_option_index_of(p2.swap_options, option_id, oi);
        if p2.open_for_fulfilling(option_id, signer2) {
            let asking = p.swap_options[oi].asking_items;
            let ii = item_index(asking, item_id);
            lemma_item_index_of(p2.swap_options[oi].asking_items, item_id, ii);
        }
    }
}

/// Status monotonicity: no transition moves a proposal's status backward on
/// the track Open, Deposited, Fulfilled. (The two macro-stages are reached on
/// independent tracks: fulfillment does not pass through Deposited.)
pub proof fn lemma_status_monotonic(
    p: SwapProposalModel,
    params: TransferParamsModel,
    signer: Seq<char>,
)
    ensures
        execute_step(p, params, signer) matches Ok(p2) ==> status_rank(p.status) <= status_rank(
            p2.status,
        ),
{
}

/// Single fulfiller reservation: after one fulfiller deposits against one
/// option, every fulfillment by another fulfiller, and every fulfillment by
/// the same fulfiller against another option, is rejected.
pub proof fn lemma_single_fulfiller_reservation(
    p: SwapProposalModel,
    option_id: Seq<char>,
    item_id: Seq<char>,
    signer: Seq<char>,
    option_id2: Seq<char>,
    item_id2: Seq<char>,
    signer2: Seq<char>,
)
    requires
        p.wf(),
        !(option_id2 == option_id && signer2 == signer),
    ensures
        fulfill_step(p, option_id, item_id, signer) matches Ok(p2) ==> {
            &&& fulfill_plan(p2, option_id2, item_id2, signer2) == Err::<u64, SwapError>(
                SwapError::FulfillingIsNotAvailable,
            )
            &&& fulfill_step(p2, option_id2, item_id2, signer2) == Err::<
                SwapProposalModel,
                SwapError,
            >(SwapError::FulfillingIsNotAvailable)
        },
{
}

/// Idempotent reservation: a successful fulfillment records the option and
/// the fulfiller, and a further fulfillment by the same fulfiller against the
/// same option, targeting an asking item that is still to be deposited while
/// the proposal is still open, succeeds and leaves the reservation as it is.
pub proof fn lemma_reservation_idempotent(
    p: SwapProposalModel,
    option_id: Seq<char>,
    item_id: Seq<char>,
    item_id2: Seq<char>,
    signer: Seq<char>,
)
    requires
        p.wf(),
    ensures
        fulfill_step(p, option_id, item_id, signer) matches Ok(p2) ==> {
            &&& p2.fulfilled_with_option_id == Some(option_id)
            &&& p2.fulfilled_by == Some(signer)
            &&& ({
                let asking2 = p2.swap_options[option_index(p2.swap_options, option_id)].asking_items;
                &&& p2.status == SwapProposalStatus::Open
                &&& has_item(asking2, item_id2)
                &&& asking2[item_index(asking2, item_id2)].status == SwapItemStatus::Created
            }) ==> (fulfill_step(p2, option_id, item_id2, signer) matches Ok(p3)
                && p3.fulfilled_with_option_id == Some(option_id) && p3.fulfilled_by == Some(
                signer,
            ))
        },
{
    let step = fulfill_step(p, option_id, item_id, signer);
    if step is Ok {
        let p2 = step->Ok_0;
        lemma_fulfill_preserves_wf(p, option_id, item_id, signer);
        let oi = option_index(p.swap_options, option_id);
        lemma_option_index_of(p2.swap_options, option_id, oi);
    }
}

/// Completion triggers: a successful deposit advances the proposal to
/// `Deposited` exactly when it deposited the last offered item, and otherwise
/// leaves the status as it was; a successful fulfillment advances it to
/// `Fulfilled` exactly when it deposited the last asking item of the reserved
/// option, and otherwise leaves the status as it was.
pub proof fn lemma_completion_triggers(
    p: SwapProposalModel,
    option_id: Seq<char>,
    item_id: Seq<char>,
    signer: Seq<char>,
)
    requires
        p.wf(),
    ensures
        deposit_step(p, item_id, signer) matches Ok(p2) ==> {
            &&& (p2.status == SwapProposalStatus::Deposited <==> all_deposited(p2.offered_items))
            &&& (p2.status == SwapProposalStatus::Deposited || p2.status == p.status)
        },
        fulfill_step(p, option_id, item_id, signer) matches Ok(p2) ==> {
            &&& (p2.status == SwapProposalStatus::Fulfilled <==> all_deposited(
                p2.swap_options[option_index(p.swap_options, option_id)].asking_items,
            ))
            &&& (p2.status == SwapProposalStatus::Fulfilled || p2.status == p.status)
        },
{
}

/// A transition touches nothing but its target: a deposit changes no option
/// and no other offered item; a fulfillment changes no offered item, no other
/// option, and no other asking item of the reserved option (unchosen options'
/// items never transition). Neither changes the proposal's identity, and a
/// deposit leaves the reservation fields as they were.
pub proof fn lemma_only_the_target_changes(
    p: SwapProposalModel,
    option_id: Seq<char>,
    item_id: Seq<char>,
    signer: Seq<char>,
)
    requires
        p.wf(),
    ensures
        deposit_step(p, item_id, signer) matches Ok(p2) ==> {
            &&& p2.id == p.id
            &&& p2.swap_options == p.swap_options
            &&& p2.fulfilled_with_option_id == p.fulfilled_with_option_id
            &&& p2.fulfilled_by == p.fulfilled_by
            &&& p2.offered_items.len() == p.offered_items.len()
            &&& forall|k: int|
                0 <= k < p.offered_items.len() && k != item_index(p.offered_items, item_id)
                    ==> p2.offered_items[k] == p.offered_items[k]
        },
        fulfill_step(p, option_id, item_id, signer) matches Ok(p2) ==> {
            &&& p2.id == p.id
            &&& p2.offered_items == p.offered_items
            &&& p2.swap_options.len() == p.swap_options.len()
            &&& forall|k: int|
                0 <= k < p.swap_options.len() && k != option_index(p.swap_options, option_id)
                    ==> p2.swap_options[k] == p.swap_options[k]
            &&& ({
                let oi = option_index(p.swap_options, option_id);
                let asking = p.swap_options[oi].asking_items;
                let asking2 = p2.swap_options[oi].asking_items;
                &&& p2.swap_options[oi].id == p.swap_options[oi].id
                &&& asking2.len() == asking.len()
                &&& forall|k: int|
                    0 <= k < asking.len() && k != item_index(asking, item_id) ==> asking2[k]
                        == asking[k]
            })
        },
{
}

/// All-or-nothing: validation alone decides a transition. A request that the
/// validation rejects is rejected by the transition with the same error, and
/// a request it accepts is accepted; the host therefore invokes the vault
/// transfer gateway only for requests whose transition is owed success, and
/// after a gateway failure it simply does not apply the transition, so a
/// failed transfer changes no field. A rejected request rejects identically
/// on every replay, since a rejection changes nothing.
pub proof fn lemma_validation_decides_execution(
    p: SwapProposalModel,
    params: TransferParamsModel,
    signer: Seq<char>,
)
    ensures
        execute_plan(p, params, signer) matches Err(e) ==> execute_step(p, params, signer)
            == Err::<SwapProposalModel, SwapError>(e),
        execute_step(p, params, signer) matches Err(e) ==> execute_plan(p, params, signer)
            == Err::<u64, SwapError>(e),
        execute_plan(p, params, signer) matches Ok(_) <==> execute_step(p, params, signer)
            matches Ok(_),
{
}

} // verus!

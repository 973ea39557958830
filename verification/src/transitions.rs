//! The transitions of the escrow state machine, as mathematical functions on
//! proposal models. The executable handlers refine these functions, and the
//! laws in [`crate::laws`] are proved about them.

use vstd::prelude::*;

use crate::model::SwapError;
use crate::model::SwapItemModel;
use crate::model::SwapItemStatus;
use crate::model::SwapOptionModel;
use crate::model::SwapProposalModel;
use crate::model::SwapProposalStatus;

verus! {

/// Some item of the collection carries this id.
pub open spec fn has_item(items: Seq<SwapItemModel>, id: Seq<char>) -> bool {
    exists|i: int| 0 <= i < items.len() && (#[trigger] items[i]).id == id
}

/// The index of the item carrying this id. Meaningful only where
/// [`has_item`] holds and ids are unique.
pub open spec fn item_index(items: Seq<SwapItemModel>, id: Seq<char>) -> int {
    choose|i: int| 0 <= i < items.len() && (#[trigger] items[i]).id == id
}

/// Some option of the collection carries this id.
pub open spec fn has_option(options: Seq<SwapOptionModel>, id: Seq<char>) -> bool {
    exists|i: int| 0 <= i < options.len() && (#[trigger] options[i]).id == id
}

/// The index of the option carrying this id. Meaningful only where
/// [`has_option`] holds and ids are unique.
pub open spec fn option_index(options: Seq<SwapOptionModel>, id: Seq<char>) -> int {
    choose|i: int| 0 <= i < options.len() && (#[trigger] options[i]).id == id
}

/// Every item of the collection has been deposited.
pub open spec fn all_deposited(items: Seq<SwapItemModel>) -> bool {
    forall|i: int| 0 <= i < items.len() ==> (#[trigger] items[i]).status == SwapItemStatus::Deposited
}

/// Where ids are unique, an index that carries the id is the item's index.
pub proof fn lemma_item_index_of(items: Seq<SwapItemModel>, id: Seq<char>, i: int)
    requires
        crate::model::unique_item_ids(items),
        0 <= i < items.len(),
        items[i].id == id,
    ensures
        has_item(items, id),
        item_index(items, id) == i,
{
    assert(has_item(items, id));
    let j = item_index(items, id);
    assert(0 <= j < items.len() && items[j].id == id);
}

/// Where ids are unique, an index that carries the id is the option's index.
pub proof fn lemma_option_index_of(options: Seq<SwapOptionModel>, id: Seq<char>, i: int)
    requires
        crate::model::unique_option_ids(options),
        0 <= i < options.len(),
        options[i].id == id,
    ensures
        has_option(options, id),
        option_index(options, id) == i,
{
    assert(has_option(options, id));
    let j = option_index(options, id);
    assert(0 <= j < options.len() && options[j].id == id);
}

/// The item after a successful deposit: same id and amount, now in custody
/// and attributed to `signer`.
pub open spec fn deposited_item(item: SwapItemModel, signer: Seq<char>) -> SwapItemModel {
    SwapItemModel { id: item.id, amount: item.amount, status: SwapItemStatus::Deposited, owner: Some(signer) }
}

/// Validation of an offering-side deposit: the amount the vault transfer
/// gateway must move, or the exact rejection. Decides nothing else and
/// changes nothing.
pub open spec fn deposit_plan(p: SwapProposalModel, item_id: Seq<char>) -> Result<u64, SwapError> {
    if !p.open_for_depositing() {
        Err(SwapError::DepositIsNotAvailable)
    } else if !has_item(p.offered_items, item_id) {
        Err(SwapError::ItemNotFound)
    } else if p.offered_items[item_index(p.offered_items, item_id)].status
        != SwapItemStatus::Created {
        Err(SwapError::DepositIsNotAvailable)
    } else {
        Ok(p.offered_items[item_index(p.offered_items, item_id)].amount)
    }
}

/// The proposal after a successful offering-side deposit of `item_id` by
/// `signer`: the item moves to `Deposited`, and the proposal reaches
/// `Deposited` exactly when every offered item is now in custody.
pub open spec fn deposit_apply(
    p: SwapProposalModel,
    item_id: Seq<char>,
    signer: Seq<char>,
) -> SwapProposalModel {
    let i = item_index(p.offered_items, item_id);
    let offered = p.offered_items.update(i, deposited_item(p.offered_items[i], signer));
    SwapProposalModel {
        id: p.id,
        status: if all_deposited(offered) {
            SwapProposalStatus::Deposited
        } else {
            p.status
        },
        offered_items: offered,
        swap_options: p.swap_options,
        fulfilled_with_option_id: p.fulfilled_with_option_id,
        fulfilled_by: p.fulfilled_by,
    }
}

/// The full offering-side deposit transition: the next proposal state, or the
/// exact rejection, under which the proposal is unchanged.
pub open spec fn deposit_step(
    p: SwapProposalModel,
    item_id: Seq<char>,
    signer: Seq<char>,
) -> Result<SwapProposalModel, SwapError> {
    match deposit_plan(p, item_id) {
        Err(e) => Err(e),
        Ok(_amount) => Ok(deposit_apply(p, item_id, signer)),
    }
}

/// Validation of a fulfilling deposit by `signer` against `option_id`: the
/// amount the vault transfer gateway must move, or the exact rejection.
pub open spec fn fulfill_plan(
    p: SwapProposalModel,
    option_id: Seq<char>,
    item_id: Seq<char>,
    signer: Seq<char>,
) -> Result<u64, SwapError> {
    if !p.open_for_fulfilling(option_id, signer) {
        Err(SwapError::FulfillingIsNotAvailable)
    } else if !has_option(p.swap_options, option_id) {
        Err(SwapError::OptionNotFound)
    } else {
        let asking = p.swap_options[option_index(p.swap_options, option_id)].asking_items;
        if !has_item(asking, item_id) {
            Err(SwapError::ItemNotFound)
        } else if asking[item_index(asking, item_id)].status != SwapItemStatus::Created {
            Err(SwapError::FulfillingIsNotAvailable)
        } else {
            Ok(asking[item_index(asking, item_id)].amount)
        }
    }
}

/// The proposal after a successful fulfilling deposit of `item_id` under
/// `option_id` by `signer`: the option is reserved for `signer` (idempotently),
/// the asking item moves to `Deposited`, and the proposal reaches `Fulfilled`
/// exactly when every asking item of the reserved option is now in custody.
pub open spec fn fulfill_apply(
    p: SwapProposalModel,
    option_id: Seq<char>,
    item_id: Seq<char>,
    signer: Seq<char>,
) -> SwapProposalModel {
    let oi = option_index(p.swap_options, option_id);
    let asking = p.swap_options[oi].asking_items;
    let ii = item_index(asking, item_id);
    let asking2 = asking.update(ii, deposited_item(asking[ii], signer));
    let option2 = SwapOptionModel { id: p.swap_options[oi].id, asking_items: asking2 };
    SwapProposalModel {
        id: p.id,
        status: if all_deposited(asking2) {
            SwapProposalStatus::Fulfilled
        } else {
            p.status
        },
        offered_items: p.offered_items,
        swap_options: p.swap_options.update(oi, option2),
        fulfilled_with_option_id: Some(option_id),
        fulfilled_by: Some(signer),
    }
}

/// The full fulfilling transition: the next proposal state, or the exact
/// rejection, under which the proposal is unchanged.
pub open spec fn fulfill_step(
    p: SwapProposalModel,
    option_id: Seq<char>,
    item_id: Seq<char>,
    signer: Seq<char>,
) -> Result<SwapProposalModel, SwapError> {
    match fulfill_plan(p, option_id, item_id, signer) {
        Err(e) => Err(e),
        Ok(_amount) => Ok(fulfill_apply(p, option_id, item_id, signer)),
    }
}

} // verus!

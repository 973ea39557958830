//! The transfer-to-vault transition: dispatching, validation, and the two
//! handlers that apply an offering-side deposit or a fulfilling deposit to a
//! proposal.
//!
//! The actual asset movement is the host's job: it first calls
//! [`TransferAssetsToVaultContext::transfer_request`] to learn whether the
//! transition is permitted and how much the vault transfer gateway must move,
//! performs that transfer, and only on the gateway's success calls
//! [`TransferAssetsToVaultContext::execute`], which applies the state change
//! and returns the events to publish. A rejected or abandoned transition
//! leaves the proposal unchanged. The host must serialize all transitions
//! that touch one proposal.

use vstd::prelude::*;

use crate::model::SwapError;
use crate::model::SwapEvent;
use crate::model::SwapItem;
use crate::model::SwapItemStatus;
use crate::model::SwapOption;
use crate::model::SwapProposal;
use crate::model::SwapProposalModel;
use crate::model::SwapProposalStatus;
use crate::model::items_model;
use crate::model::options_model;
use crate::transitions::all_deposited;
use crate::transitions::deposit_apply;
use crate::transitions::deposit_plan;
use crate::transitions::deposit_step;
use crate::transitions::fulfill_apply;
use crate::transitions::fulfill_plan;
use crate::transitions::fulfill_step;
use crate::transitions::has_item;
use crate::transitions::has_option;
use crate::transitions::lemma_item_index_of;
use crate::transitions::lemma_option_index_of;

verus! {

/// Which side of the swap a transition request works on.
#[derive(Clone, Copy, Debug, PartialEq, Eq, Structural)]
pub enum ActionType {
    /// The proposal's initiator deposits one of the offered items.
    Depositing,
    /// A counterparty deposits one asking item of a chosen option.
    Fulfilling,
}

/// The wire encoding of an [`ActionType`]: the index of the variant.
pub open spec fn action_type_from_code(code: u8) -> Result<ActionType, SwapError> {
    if code == 0 {
        Ok(ActionType::Depositing)
    } else if code == 1 {
        Ok(ActionType::Fulfilling)
    } else {
        Err(SwapError::InvalidValue)
    }
}

impl ActionType {
    /// Decodes an action discriminant; any unrecognized value is rejected
    /// with [`SwapError::InvalidValue`].
    pub fn from_code(code: u8) -> (r: Result<ActionType, SwapError>)
        ensures
            r == action_type_from_code(code),
    {
        if code == 0 {
            Ok(ActionType::Depositing)
        } else if code == 1 {
            Ok(ActionType::Fulfilling)
        } else {
            Err(SwapError::InvalidValue)
        }
    }
}

/// A transition request: which proposal, which action, and which option/item
/// the deposit targets. `option_id` is ignored for `Depositing`.
#[derive(Clone, Debug, PartialEq)]
pub struct TransferAssetsToVaultParams {
    pub swap_token_vault_bump: u8,
    pub proposal_id: String,
    pub action_type: ActionType,
    pub option_id: String,
    pub swap_item_id: String,
}

/// Mathematical model of a [`TransferAssetsToVaultParams`].
#[verifier::ext_equal]
pub ghost struct TransferParamsModel {
    pub swap_token_vault_bump: u8,
    pub proposal_id: Seq<char>,
    pub action_type: ActionType,
    pub option_id: Seq<char>,
    pub swap_item_id: Seq<char>,
}

impl View for TransferAssetsToVaultParams {
    type V = TransferParamsModel;

    open spec fn view(&self) -> TransferParamsModel {
        TransferParamsModel {
            swap_token_vault_bump: self.swap_token_vault_bump,
            proposal_id: self.proposal_id@,
            action_type: self.action_type,
            option_id: self.option_id@,
            swap_item_id: self.swap_item_id@,
        }
    }
}

/// What the vault transfer gateway is asked to do: move `amount` units from
/// the caller's holding into the vault.
#[derive(Clone, Debug, PartialEq)]
pub struct TransferRequest {
    /// The caller whose holding funds the transfer.
    pub from: String,
    pub amount: u64,
}

/// Outcome of a successful transition: the statuses it produced and the
/// domain events to publish, in order.
#[derive(Clone, Debug, PartialEq)]
pub struct TransitionReceipt {
    pub item_status: SwapItemStatus,
    pub proposal_status: SwapProposalStatus,
    pub events: Vec<SwapEvent>,
}

/// Validation of a transition request, routed by its action kind: the amount
/// the gateway must move, or the exact rejection.
pub open spec fn execute_plan(
    p: SwapProposalModel,
    params: TransferParamsModel,
    signer: Seq<char>,
) -> Result<u64, SwapError> {
    match params.action_type {
        ActionType::Depositing => deposit_plan(p, params.swap_item_id),
        ActionType::Fulfilling => fulfill_plan(p, params.option_id, params.swap_item_id, signer),
    }
}

/// The full transition, routed by its action kind.
pub open spec fn execute_step(
    p: SwapProposalModel,
    params: TransferParamsModel,
    signer: Seq<char>,
) -> Result<SwapProposalModel, SwapError> {
    match params.action_type {
        ActionType::Depositing => deposit_step(p, params.swap_item_id, signer),
        ActionType::Fulfilling => fulfill_step(p, params.option_id, params.swap_item_id, signer),
    }
}

/// `e` reports that item `item_id` of proposal `proposal_id` was deposited by
/// `actor`.
pub open spec fn is_item_deposited_event(
    e: SwapEvent,
    item_id: Seq<char>,
    proposal_id: Seq<char>,
    actor: Seq<char>,
) -> bool {
    e matches SwapEvent::ItemDeposited { id, status, proposal_id: pid, actor: a } && id@ == item_id
        && status == SwapItemStatus::Deposited && pid@ == proposal_id && a@ == actor
}

/// `e` reports that proposal `proposal_id` reached `Deposited` through `actor`.
pub open spec fn is_proposal_deposited_event(
    e: SwapEvent,
    proposal_id: Seq<char>,
    actor: Seq<char>,
) -> bool {
    e matches SwapEvent::ProposalDeposited { id, status, actor: a } && id@ == proposal_id && status
        == SwapProposalStatus::Deposited && a@ == actor
}

/// `e` reports that proposal `proposal_id` reached `Fulfilled` through `actor`.
pub open spec fn is_proposal_fulfilled_event(
    e: SwapEvent,
    proposal_id: Seq<char>,
    actor: Seq<char>,
) -> bool {
    e matches SwapEvent::ProposalFulfilled { id, status, actor: a } && id@ == proposal_id && status
        == SwapProposalStatus::Fulfilled && a@ == actor
}

/// The events of a successful offering-side deposit that produced `p2`: one
/// `ItemDeposited`, followed by exactly one `ProposalDeposited` when this call
/// completed the offering side.
pub open spec fn deposit_events_ok(
    events: Seq<SwapEvent>,
    p2: SwapProposalModel,
    item_id: Seq<char>,
    actor: Seq<char>,
) -> bool {
    &&& events.len() == (if p2.status == SwapProposalStatus::Deposited {
        2int
    } else {
        1int
    })
    &&& is_item_deposited_event(events[0], item_id, p2.id, actor)
    &&& p2.status == SwapProposalStatus::Deposited ==> is_proposal_deposited_event(
        events[1],
        p2.id,
        actor,
    )
}

/// The events of a successful fulfilling deposit that produced `p2`: one
/// `ItemDeposited`, followed by exactly one `ProposalFulfilled` when this call
/// completed the reserved option.
pub open spec fn fulfill_events_ok(
    events: Seq<SwapEvent>,
    p2: SwapProposalModel,
    item_id: Seq<char>,
    actor: Seq<char>,
) -> bool {
    &&& events.len() == (if p2.status == SwapProposalStatus::Fulfilled {
        2int
    } else {
        1int
    })
    &&& is_item_deposited_event(events[0], item_id, p2.id, actor)
    &&& p2.status == SwapProposalStatus::Fulfilled ==> is_proposal_fulfilled_event(
        events[1],
        p2.id,
        actor,
    )
}

/// Replacing one element commutes with taking the model of the collection.
proof fn lemma_items_model_update(items: Seq<SwapItem>, i: int, item: SwapItem)
    requires
        0 <= i < items.len(),
    ensures
        items_model(items.update(i, item)) =~= items_model(items).update(i, item@),
{
}

/// Replacing one option commutes with taking the model of the collection.
proof fn lemma_options_model_update(options: Seq<SwapOption>, i: int, option: SwapOption)
    requires
        0 <= i < options.len(),
    ensures
        options_model(options.update(i, option)) =~= options_model(options).update(i, option@),
{
}

/// Linear scan for the item carrying `id`, as the model's `item_index`.
fn find_item_index(items: &Vec<SwapItem>, id: &String) -> (r: Option<usize>)
    ensures
        match r {
            Some(i) => i < items@.len() && items_model(items@)[i as int].id == id@,
            None => !has_item(items_model(items@), id@),
        },
{
    let n = items.len();
    let mut j: usize = 0;
    while j < n
        invariant
            n == items@.len(),
            j <= n,
            forall|k: int| 0 <= k < j ==> (#[trigger] items_model(items@)[k]).id != id@,
        decreases n - j,
    {
        if items[j].id == *id {
            return Some(j);
        }
        j += 1;
    }
    None
}

/// Linear scan for the option carrying `id`, as the model's `option_index`.
fn find_option_index(options: &Vec<SwapOption>, id: &String) -> (r: Option<usize>)
    ensures
        match r {
            Some(i) => i < options@.len() && options_model(options@)[i as int].id == id@,
            None => !has_option(options_model(options@), id@),
        },
{
    let n = options.len();
    let mut j: usize = 0;
    while j < n
        invariant
            n == options@.len(),
            j <= n,
            forall|k: int| 0 <= k < j ==> (#[trigger] options_model(options@)[k]).id != id@,
        decreases n - j,
    {
        if options[j].id == *id {
            return Some(j);
        }
        j += 1;
    }
    None
}

/// Full rescan of an item collection for completion, as the specification
/// asks: no incremental counter is kept.
fn all_items_deposited(items: &Vec<SwapItem>) -> (r: bool)
    ensures
        r == all_deposited(items_model(items@)),
{
    let n = items.len();
    let mut j: usize = 0;
    while j < n
        invariant
            n == items@.len(),
            j <= n,
            forall|k: int|
                0 <= k < j ==> (#[trigger] items_model(items@)[k]).status
                    == SwapItemStatus::Deposited,
        decreases n - j,
    {
        if !(items[j].status == SwapItemStatus::Deposited) {
            assert(items_model(items@)[j as int].status != SwapItemStatus::Deposited);
            return false;
        }
        j += 1;
    }
    true
}

/// One transition call: the caller's identity and the proposal it targets.
#[derive(Clone, Debug, PartialEq)]
pub struct TransferAssetsToVaultContext {
    /// Identity of the caller, the depositor of every item this call moves.
    pub signer: String,
    pub swap_proposal: SwapProposal,
}

impl TransferAssetsToVaultContext {
    /// Applies an offering-side deposit: moves the targeted offered item to
    /// `Deposited`, attributes it to the caller, and advances the proposal to
    /// `Deposited` exactly when every offered item is now in custody. To be
    /// called only after the vault transfer gateway moved the item's amount;
    /// a rejection leaves the proposal unchanged.
    pub fn deposit(&mut self, params: &TransferAssetsToVaultParams) -> (r: Result<
        TransitionReceipt,
        SwapError,
    >)
        requires
            old(self).swap_proposal@.wf(),
        ensures
            final(self).signer == old(self).signer,
            match r {
                Ok(receipt) => {
                    &&& deposit_step(
                        old(self).swap_proposal@,
                        params@.swap_item_id,
                        old(self).signer@,
                    ) == Ok::<SwapProposalModel, SwapError>(final(self).swap_proposal@)
                    &&& receipt.item_status == SwapItemStatus::Deposited
                    &&& receipt.proposal_status == final(self).swap_proposal@.status
                    &&& deposit_events_ok(
                        receipt.events@,
                        final(self).swap_proposal@,
                        params@.swap_item_id,
                        old(self).signer@,
                    )
                },
                Err(e) => {
                    &&& deposit_step(
                        old(self).swap_proposal@,
                        params@.swap_item_id,
                        old(self).signer@,
                    ) == Err::<SwapProposalModel, SwapError>(e)
                    &&& *final(self) == *old(self)
                },
            },
    {
        if !self.swap_proposal.is_open_for_depositing() {
            return Err(SwapError::DepositIsNotAvailable);
        }
        let i = match find_item_index(&self.swap_proposal.offered_items, &params.swap_item_id) {
            Some(i) => i,
            None => {
                return Err(SwapError::ItemNotFound);
            },
        };
        proof {
            lemma_item_index_of(
                items_model(self.swap_proposal.offered_items@),
                params.swap_item_id@,
                i as int,
            );
        }
        if !(self.swap_proposal.offered_items[i].status == SwapItemStatus::Created) {
            return Err(SwapError::DepositIsNotAvailable);
        }
        // The transition is permitted: move the item into custody.
        let item_id = self.swap_proposal.offered_items[i].id.clone();
        let amount = self.swap_proposal.offered_items[i].amount;
        let new_item = SwapItem {
            id: item_id,
            amount,
            status: SwapItemStatus::Deposited,
            owner: Some(self.signer.clone()),
        };
        proof {
            lemma_items_model_update(self.swap_proposal.offered_items@, i as int, new_item);
        }
        self.swap_proposal.offered_items.set(i, new_item);
        let mut events: Vec<SwapEvent> = Vec::new();
        events.push(
            SwapEvent::ItemDeposited {
                id: self.swap_proposal.offered_items[i].id.clone(),
                status: SwapItemStatus::Deposited,
                proposal_id: self.swap_proposal.id.clone(),
                actor: self.signer.clone(),
            },
        );
        // Re-evaluate the offering side over the whole collection.
        if all_items_deposited(&self.swap_proposal.offered_items) {
            self.swap_proposal.status = SwapProposalStatus::Deposited;
            events.push(
                SwapEvent::ProposalDeposited {
                    id: self.swap_proposal.id.clone(),
                    status: SwapProposalStatus::Deposited,
                    actor: self.signer.clone(),
                },
            );
        }
        proof {
            assert(self.swap_proposal@ =~= deposit_apply(
                old(self).swap_proposal@,
                params@.swap_item_id,
                old(self).signer@,
            ));
        }
        Ok(
            TransitionReceipt {
                item_status: SwapItemStatus::Deposited,
                proposal_status: self.swap_proposal.status,
                events,
            },
        )
    }

    /// Applies a fulfilling deposit: reserves the proposal for the caller and
    /// the chosen option (idempotently on repeated calls by the same caller),
    /// moves the targeted asking item to `Deposited`, and advances the
    /// proposal to `Fulfilled` exactly when every asking item of the reserved
    /// option is now in custody. To be called only after the vault transfer
    /// gateway moved the item's amount; a rejection leaves the proposal
    /// unchanged.
    pub fn fulfill(&mut self, params: &TransferAssetsToVaultParams) -> (r: Result<
        TransitionReceipt,
        SwapError,
    >)
        requires
            old(self).swap_proposal@.wf(),
        ensures
            final(self).signer == old(self).signer,
            match r {
                Ok(receipt) => {
                    &&& fulfill_step(
                        old(self).swap_proposal@,
                        params@.option_id,
                        params@.swap_item_id,
                        old(self).signer@,
                    ) == Ok::<SwapProposalModel, SwapError>(final(self).swap_proposal@)
                    &&& receipt.item_status == SwapItemStatus::Deposited
                    &&& receipt.proposal_status == final(self).swap_proposal@.status
                    &&& fulfill_events_ok(
                        receipt.events@,
                        final(self).swap_proposal@,
                        params@.swap_item_id,
                        old(self).signer@,
                    )
                },
                Err(e) => {
                    &&& fulfill_step(
                        old(self).swap_proposal@,
                        params@.option_id,
                        params@.swap_item_id,
                        old(self).signer@,
                    ) == Err::<SwapProposalModel, SwapError>(e)
                    &&& *final(self) == *old(self)
                },
            },
    {
        if !self.swap_proposal.is_open_for_fulfilling(&params.option_id, &self.signer) {
            return Err(SwapError::FulfillingIsNotAvailable);
        }
        let oi = match find_option_index(&self.swap_proposal.swap_options, &params.option_id) {
            Some(oi) => oi,
            None => {
                return Err(SwapError::OptionNotFound);
            },
        };
        proof {
            lemma_option_index_of(
                options_model(self.swap_proposal.swap_options@),
                params.option_id@,
                oi as int,
            );
        }
        let ii = match find_item_index(
            &self.swap_proposal.swap_options[oi].asking_items,
            &params.swap_item_id,
        ) {
            Some(ii) => ii,
            None => {
                return Err(SwapError::ItemNotFound);
            },
        };
        proof {
            lemma_item_index_of(
                items_model(self.swap_proposal.swap_options@[oi as int].asking_items@),
                params.swap_item_id@,
                ii as int,
            );
        }
        if !(self.swap_proposal.swap_options[oi].asking_items[ii].status
            == SwapItemStatus::Created) {
            return Err(SwapError::FulfillingIsNotAvailable);
        }
        // The transition is permitted: reserve the proposal for this caller
        // and this option, then move the item into custody.
        self.swap_proposal.fulfilled_with_option_id = Some(params.option_id.clone());
        self.swap_proposal.fulfilled_by = Some(self.signer.clone());
        let item_id = self.swap_proposal.swap_options[oi].asking_items[ii].id.clone();
        let amount = self.swap_proposal.swap_options[oi].asking_items[ii].amount;
        let new_item = SwapItem {
            id: item_id,
            amount,
            status: SwapItemStatus::Deposited,
            owner: Some(self.signer.clone()),
        };
        proof {
            lemma_items_model_update(
                self.swap_proposal.swap_options@[oi as int].asking_items@,
                ii as int,
                new_item,
            );
        }
        let chosen_option = &mut self.swap_proposal.swap_options[oi];
        chosen_option.asking_items.set(ii, new_item);
        proof {
            lemma_options_model_update(
                old(self).swap_proposal.swap_options@,
                oi as int,
                self.swap_proposal.swap_options@[oi as int],
            );
        }
        let mut events: Vec<SwapEvent> = Vec::new();
        events.push(
            SwapEvent::ItemDeposited {
                id: self.swap_proposal.swap_options[oi].asking_items[ii].id.clone(),
                status: SwapItemStatus::Deposited,
                proposal_id: self.swap_proposal.id.clone(),
                actor: self.signer.clone(),
            },
        );
        // Re-evaluate completion over the reserved option's asking items only.
        if all_items_deposited(&self.swap_proposal.swap_options[oi].asking_items) {
            self.swap_proposal.status = SwapProposalStatus::Fulfilled;
            events.push(
                SwapEvent::ProposalFulfilled {
                    id: self.swap_proposal.id.clone(),
                    status: SwapProposalStatus::Fulfilled,
                    actor: self.signer.clone(),
                },
            );
        }
        proof {
            assert(self.swap_proposal@ =~~= fulfill_apply(
                old(self).swap_proposal@,
                params@.option_id,
                params@.swap_item_id,
                old(self).signer@,
            ));
        }
        Ok(
            TransitionReceipt {
                item_status: SwapItemStatus::Deposited,
                proposal_status: self.swap_proposal.status,
                events,
            },
        )
    }

    /// Routes a transition request to the matching handler. The action kind is
    /// a closed enum, so no unrecognized discriminant can reach this point;
    /// the host rejects one with [`SwapError::InvalidValue`] while decoding
    /// (see [`ActionType::from_code`]).
    pub fn execute(&mut self, params: &TransferAssetsToVaultParams) -> (r: Result<
        TransitionReceipt,
        SwapError,
    >)
        requires
            old(self).swap_proposal@.wf(),
        ensures
            final(self).signer == old(self).signer,
            match r {
                Ok(receipt) => {
                    &&& execute_step(old(self).swap_proposal@, params@, old(self).signer@)
                        == Ok::<SwapProposalModel, SwapError>(final(self).swap_proposal@)
                    &&& receipt.item_status == SwapItemStatus::Deposited
                    &&& receipt.proposal_status == final(self).swap_proposal@.status
                    &&& params@.action_type == ActionType::Depositing ==> deposit_events_ok(
                        receipt.events@,
                        final(self).swap_proposal@,
                        params@.swap_item_id,
                        old(self).signer@,
                    )
                    &&& params@.action_type == ActionType::Fulfilling ==> fulfill_events_ok(
                        receipt.events@,
                        final(self).swap_proposal@,
                        params@.swap_item_id,
                        old(self).signer@,
                    )
                },
                Err(e) => {
                    &&& execute_step(old(self).swap_proposal@, params@, old(self).signer@)
                        == Err::<SwapProposalModel, SwapError>(e)
                    &&& *final(self) == *old(self)
                },
            },
    {
        match params.action_type {
            ActionType::Depositing => self.deposit(params),
            ActionType::Fulfilling => self.fulfill(params),
        }
    }

    /// Validates a transition request without touching any state and names
    /// the transfer the vault transfer gateway must perform for it: the
    /// caller's identity and the targeted item's amount. The host performs
    /// that transfer and calls [`Self::execute`] only if the gateway reported
    /// success; a request rejected here is rejected identically by
    /// [`Self::execute`], so a failed transfer aborts the transition with the
    /// proposal unchanged.
    pub fn transfer_request(&self, params: &TransferAssetsToVaultParams) -> (r: Result<
        TransferRequest,
        SwapError,
    >)
        requires
            self.swap_proposal@.wf(),
        ensures
            match r {
                Ok(req) => execute_plan(self.swap_proposal@, params@, self.signer@) == Ok::<
                    u64,
                    SwapError,
                >(req.amount) && req.from@ == self.signer@,
                Err(e) => execute_plan(self.swap_proposal@, params@, self.signer@) == Err::<
                    u64,
                    SwapError,
                >(e),
            },
    {
        match params.action_type {
            ActionType::Depositing => {
                if !self.swap_proposal.is_open_for_depositing() {
                    return Err(SwapError::DepositIsNotAvailable);
                }
                let i = match find_item_index(
                    &self.swap_proposal.offered_items,
                    &params.swap_item_id,
                ) {
                    Some(i) => i,
                    None => {
                        return Err(SwapError::ItemNotFound);
                    },
                };
                proof {
                    lemma_item_index_of(
                        items_model(self.swap_proposal.offered_items@),
                        params.swap_item_id@,
                        i as int,
                    );
                }
                if !(self.swap_proposal.offered_items[i].status == SwapItemStatus::Created) {
                    return Err(SwapError::DepositIsNotAvailable);
                }
                Ok(
                    TransferRequest {
                        from: self.signer.clone(),
                        amount: self.swap_proposal.offered_items[i].amount,
                    },
                )
            },
            ActionType::Fulfilling => {
                if !self.swap_proposal.is_open_for_fulfilling(&params.option_id, &self.signer) {
                    return Err(SwapError::FulfillingIsNotAvailable);
                }
                let oi = match find_option_index(
                    &self.swap_proposal.swap_options,
                    &params.option_id,
                ) {
                    Some(oi) => oi,
                    None => {
                        return Err(SwapError::OptionNotFound);
                    },
                };
                proof {
                    lemma_option_index_of(
                        options_model(self.swap_proposal.swap_options@),
                        params.option_id@,
                        oi as int,
                    );
                }
                let ii = match find_item_index(
                    &self.swap_proposal.swap_options[oi].asking_items,
                    &params.swap_item_id,
                ) {
                    Some(ii) => ii,
                    None => {
                        return Err(SwapError::ItemNotFound);
                    },
                };
                proof {
                    lemma_item_index_of(
                        items_model(self.swap_proposal.swap_options@[oi as int].asking_items@),
                        params.swap_item_id@,
                        ii as int,
                    );
                }
                if !(self.swap_proposal.swap_options[oi].asking_items[ii].status
                    == SwapItemStatus::Created) {
                    return Err(SwapError::FulfillingIsNotAvailable);
                }
                Ok(
                    TransferRequest {
                        from: self.signer.clone(),
                        amount: self.swap_proposal.swap_options[oi].asking_items[ii].amount,
                    },
                )
            },
        }
    }
}

} // verus!

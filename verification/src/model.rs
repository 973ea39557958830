//! Data model of the escrow: items, options, proposals, events and errors,
//! together with their ghost models and well-formedness.

use vstd::prelude::*;

verus! {

/// Lifecycle of a single swap item: it is created together with its proposal
/// and is deposited into the vault at most once.
#[derive(Clone, Copy, Debug, PartialEq, Eq, Structural)]
pub enum SwapItemStatus {
    Created,
    Deposited,
}

/// Macro-status of a proposal. `Deposited` and `Fulfilled` are reached on
/// independent tracks: `Deposited` once every offered item is in custody,
/// `Fulfilled` once every asking item of the reserved option is in custody.
#[derive(Clone, Copy, Debug, PartialEq, Eq, Structural)]
pub enum SwapProposalStatus {
    Open,
    Deposited,
    Fulfilled,
}

/// Why a transition was rejected. A rejected transition leaves the proposal
/// unchanged.
#[derive(Clone, Copy, Debug, PartialEq, Eq, Structural)]
pub enum SwapError {
    /// The proposal is not open, or the targeted offered item was already
    /// deposited.
    DepositIsNotAvailable,
    /// The proposal is not open for this caller/option combination, or the
    /// targeted asking item was already deposited.
    FulfillingIsNotAvailable,
    /// An action discriminant that names no known action.
    InvalidValue,
    /// No item with the requested id exists in the targeted collection.
    ItemNotFound,
    /// No option with the requested id exists on the proposal.
    OptionNotFound,
}

/// Smallest unit of exchange: an asset quantity that one party moves into the
/// vault.
#[derive(Clone, Debug, PartialEq)]
pub struct SwapItem {
    /// Unique within the containing collection.
    pub id: String,
    /// Asset quantity the vault transfer gateway must move.
    pub amount: u64,
    pub status: SwapItemStatus,
    /// Identity of the depositor; set exactly when the item is deposited.
    pub owner: Option<String>,
}

/// One alternative asking basket a counterparty may fulfill.
#[derive(Clone, Debug, PartialEq)]
pub struct SwapOption {
    /// Unique within the proposal's option collection.
    pub id: String,
    pub asking_items: Vec<SwapItem>,
}

/// The aggregate root: offered items, alternative options, overall status and
/// the reservation made by the first fulfiller.
#[derive(Clone, Debug, PartialEq)]
pub struct SwapProposal {
    pub id: String,
    pub status: SwapProposalStatus,
    pub offered_items: Vec<SwapItem>,
    pub swap_options: Vec<SwapOption>,
    /// Set on the first successful fulfillment and immutable afterwards.
    pub fulfilled_with_option_id: Option<String>,
    /// Identity of the reserving fulfiller, set together with the option id.
    pub fulfilled_by: Option<String>,
}

/// Domain event published after the corresponding mutation.
#[derive(Clone, Debug, PartialEq)]
#[allow(inconsistent_fields)]
pub enum SwapEvent {
    ItemDeposited { id: String, status: SwapItemStatus, proposal_id: String, actor: String },
    ProposalDeposited { id: String, status: SwapProposalStatus, actor: String },
    ProposalFulfilled { id: String, status: SwapProposalStatus, actor: String },
}

/// Mathematical model of a [`SwapItem`].
#[verifier::ext_equal]
pub ghost struct SwapItemModel {
    pub id: Seq<char>,
    pub amount: u64,
    pub status: SwapItemStatus,
    pub owner: Option<Seq<char>>,
}

/// Mathematical model of a [`SwapOption`].
#[verifier::ext_equal]
pub ghost struct SwapOptionModel {
    pub id: Seq<char>,
    pub asking_items: Seq<SwapItemModel>,
}

/// Mathematical model of a [`SwapProposal`].
#[verifier::ext_equal]
pub ghost struct SwapProposalModel {
    pub id: Seq<char>,
    pub status: SwapProposalStatus,
    pub offered_items: Seq<SwapItemModel>,
    pub swap_options: Seq<SwapOptionModel>,
    pub fulfilled_with_option_id: Option<Seq<char>>,
    pub fulfilled_by: Option<Seq<char>>,
}

impl View for SwapItem {
    type V = SwapItemModel;

    open spec fn view(&self) -> SwapItemModel {
        SwapItemModel {
            id: self.id@,
            amount: self.amount,
            status: self.status,
            owner: match self.owner {
                Some(o) => Some(o@),
                None => None,
            },
        }
    }
}

/// Model of an item collection: the items element-wise.
pub open spec fn items_model(items: Seq<SwapItem>) -> Seq<SwapItemModel> {
    items.map_values(|it: SwapItem| it@)
}

impl View for SwapOption {
    type V = SwapOptionModel;

    open spec fn view(&self) -> SwapOptionModel {
        SwapOptionModel { id: self.id@, asking_items: items_model(self.asking_items@) }
    }
}

/// Model of an option collection: the options element-wise.
pub open spec fn options_model(options: Seq<SwapOption>) -> Seq<SwapOptionModel> {
    options.map_values(|o: SwapOption| o@)
}

impl View for SwapProposal {
    type V = SwapProposalModel;

    open spec fn view(&self) -> SwapProposalModel {
        SwapProposalModel {
            id: self.id@,
            status: self.status,
            offered_items: items_model(self.offered_items@),
            swap_options: options_model(self.swap_options@),
            fulfilled_with_option_id: match self.fulfilled_with_option_id {
                Some(o) => Some(o@),
                None => None,
            },
            fulfilled_by: match self.fulfilled_by {
                Some(o) => Some(o@),
                None => None,
            },
        }
    }
}

/// No two items of the collection share an id.
pub open spec fn unique_item_ids(items: Seq<SwapItemModel>) -> bool {
    forall|i: int, j: int|
        0 <= i < items.len() && 0 <= j < items.len() && i != j ==> items[i].id != items[j].id
}

/// No two options of the collection share an id.
pub open spec fn unique_option_ids(options: Seq<SwapOptionModel>) -> bool {
    forall|i: int, j: int|
        0 <= i < options.len() && 0 <= j < options.len() && i != j
            ==> options[i].id != options[j].id
}

/// An item names its depositor exactly when it has been deposited.
pub open spec fn owner_consistent(items: Seq<SwapItemModel>) -> bool {
    forall|i: int|
        0 <= i < items.len()
            ==> ((#[trigger] items[i].status) == SwapItemStatus::Deposited <==> items[i].owner
                is Some)
}

impl SwapProposalModel {
    /// Well-formedness: ids are unique in every collection, depositors are
    /// recorded exactly on deposited items, and the reserved option id and the
    /// fulfiller identity are recorded together.
    pub open spec fn wf(self) -> bool {
        &&& unique_item_ids(self.offered_items)
        &&& unique_option_ids(self.swap_options)
        &&& owner_consistent(self.offered_items)
        &&& forall|k: int|
            0 <= k < self.swap_options.len() ==> unique_item_ids(
                (#[trigger] self.swap_options[k]).asking_items,
            )
        &&& forall|k: int|
            0 <= k < self.swap_options.len() ==> owner_consistent(
                (#[trigger] self.swap_options[k]).asking_items,
            )
        &&& (self.fulfilled_with_option_id is Some <==> self.fulfilled_by is Some)
    }

    /// The proposal accepts offering-side deposits.
    pub open spec fn open_for_depositing(self) -> bool {
        self.status == SwapProposalStatus::Open
    }

    /// The proposal accepts a fulfilling deposit against `option_id` by
    /// `fulfiller`: it is open and either no reservation exists yet or the
    /// reservation names exactly this option and this fulfiller.
    pub open spec fn open_for_fulfilling(self, option_id: Seq<char>, fulfiller: Seq<char>) -> bool {
        &&& self.status == SwapProposalStatus::Open
        &&& (self.fulfilled_with_option_id is None || (self.fulfilled_with_option_id == Some(
            option_id,
        ) && self.fulfilled_by == Some(fulfiller)))
    }
}

/// Runtime check of [`unique_item_ids`] and [`owner_consistent`] for one item
/// collection.
fn items_well_formed(items: &Vec<SwapItem>) -> (r: bool)
    ensures
        r == (unique_item_ids(items_model(items@)) && owner_consistent(items_model(items@))),
{
    let n = items.len();
    let mut i: usize = 0;
    while i < n
        invariant
            n == items@.len(),
            i <= n,
            forall|k: int|
                0 <= k < i ==> ((#[trigger] items_model(items@)[k]).status
                    == SwapItemStatus::Deposited <==> items_model(items@)[k].owner is Some),
            forall|k1: int, k2: int|
                0 <= k1 < i && k1 < k2 < n ==> (#[trigger] items_model(items@)[k1]).id != (
                #[trigger] items_model(items@)[k2]).id,
        decreases n - i,
    {
        let deposited = items[i].status == SwapItemStatus::Deposited;
        if deposited != items[i].owner.is_some() {
            assert(!owner_consistent(items_model(items@))) by {
                assert(items_model(items@)[i as int].status == items@[i as int].status);
            }
            return false;
        }
        let mut j: usize = i + 1;
        while j < n
            invariant
                n == items@.len(),
                i < n,
                i < j <= n,
                forall|k: int|
                    i < k < j ==> (#[trigger] items_model(items@)[k]).id != items_model(
                        items@,
                    )[i as int].id,
            decreases n - j,
        {
            if items[i].id == items[j].id {
                assert(!unique_item_ids(items_model(items@))) by {
                    assert(items_model(items@)[i as int].id == items_model(items@)[j as int].id);
                }
                return false;
            }
            j += 1;
        }
        i += 1;
    }
    true
}

impl SwapProposal {
    /// Runtime check of the proposal's well-formedness invariant, for hosts
    /// that receive a proposal from outside and must establish it before
    /// applying transitions.
    pub fn is_well_formed(&self) -> (r: bool)
        ensures
            r == self@.wf(),
    {
        if !items_well_formed(&self.offered_items) {
            return false;
        }
        match (&self.fulfilled_with_option_id, &self.fulfilled_by) {
            (Some(_), None) => {
                return false;
            },
            (None, Some(_)) => {
                return false;
            },
            _ => {},
        }
        let n = self.swap_options.len();
        let mut i: usize = 0;
        while i < n
            invariant
                n == self.swap_options@.len(),
                i <= n,
                unique_item_ids(items_model(self.offered_items@)),
                owner_consistent(items_model(self.offered_items@)),
                self@.fulfilled_with_option_id is Some <==> self@.fulfilled_by is Some,
                forall|k: int|
                    0 <= k < i ==> unique_item_ids(
                        (#[trigger] options_model(self.swap_options@)[k]).asking_items,
                    ),
                forall|k: int|
                    0 <= k < i ==> owner_consistent(
                        (#[trigger] options_model(self.swap_options@)[k]).asking_items,
                    ),
                forall|k1: int, k2: int|
                    0 <= k1 < i && k1 < k2 < n ==> (#[trigger] options_model(
                        self.swap_options@,
                    )[k1]).id != (#[trigger] options_model(self.swap_options@)[k2]).id,
            decreases n - i,
        {
            if !items_well_formed(&self.swap_options[i].asking_items) {
                assert(options_model(self.swap_options@)[i as int].asking_items == items_model(
                    self.swap_options@[i as int].asking_items@,
                ));
                return false;
            }
            let mut j: usize = i + 1;
            while j < n
                invariant
                    n == self.swap_options@.len(),
                    i < n,
                    i < j <= n,
                    forall|k: int|
                        i < k < j ==> (#[trigger] options_model(self.swap_options@)[k]).id
                            != options_model(self.swap_options@)[i as int].id,
                decreases n - j,
            {
                if self.swap_options[i].id == self.swap_options[j].id {
                    assert(!unique_option_ids(options_model(self.swap_options@))) by {
                        assert(options_model(self.swap_options@)[i as int].id == options_model(
                            self.swap_options@,
                        )[j as int].id);
                    }
                    return false;
                }
                j += 1;
            }
            i += 1;
        }
        true
    }

    /// Eligibility predicate for the offering side.
    pub fn is_open_for_depositing(&self) -> (r: bool)
        ensures
            r == self@.open_for_depositing(),
    {
        self.status == SwapProposalStatus::Open
    }

    /// Eligibility predicate for the fulfilling side: open, and not reserved
    /// by another fulfiller or for another option.
    pub fn is_open_for_fulfilling(&self, option_id: &String, fulfiller: &String) -> (r: bool)
        ensures
            r == self@.open_for_fulfilling(option_id@, fulfiller@),
    {
        if !(self.status == SwapProposalStatus::Open) {
            return false;
        }
        match &self.fulfilled_with_option_id {
            None => true,
            Some(reserved_option) => {
                if !(*reserved_option == *option_id) {
                    return false;
                }
                match &self.fulfilled_by {
                    Some(reserver) => *reserver == *fulfiller,
                    None => false,
                }
            },
        }
    }
}

} // verus!

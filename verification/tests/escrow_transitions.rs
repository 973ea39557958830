use hamsterswap::model::SwapError;
use hamsterswap::model::SwapEvent;
use hamsterswap::model::SwapItem;
use hamsterswap::model::SwapItemStatus;
use hamsterswap::model::SwapOption;
use hamsterswap::model::SwapProposal;
use hamsterswap::model::SwapProposalStatus;
use hamsterswap::transfer_assets_to_vault::ActionType;
use hamsterswap::transfer_assets_to_vault::TransferAssetsToVaultContext;
use hamsterswap::transfer_assets_to_vault::TransferAssetsToVaultParams;

fn item(id: &str, amount: u64) -> SwapItem {
    SwapItem { id: id.to_string(), amount, status: SwapItemStatus::Created, owner: None }
}

fn two_sided_proposal() -> SwapProposal {
    SwapProposal {
        id: "prop-1".to_string(),
        status: SwapProposalStatus::Open,
        offered_items: vec![item("offer-1", 10), item("offer-2", 5)],
        swap_options: vec![
            SwapOption {
                id: "opt-1".to_string(),
                asking_items: vec![item("ask-1", 7), item("ask-2", 3)],
            },
            SwapOption { id: "opt-2".to_string(), asking_items: vec![item("ask-3", 9)] },
        ],
        fulfilled_with_option_id: None,
        fulfilled_by: None,
    }
}

fn ctx(signer: &str) -> TransferAssetsToVaultContext {
    TransferAssetsToVaultContext { signer: signer.to_string(), swap_proposal: two_sided_proposal() }
}

fn deposit_params(item_id: &str) -> TransferAssetsToVaultParams {
    TransferAssetsToVaultParams {
        swap_token_vault_bump: 0,
        proposal_id: "prop-1".to_string(),
        action_type: ActionType::Depositing,
        option_id: String::new(),
        swap_item_id: item_id.to_string(),
    }
}

fn fulfill_params(option_id: &str, item_id: &str) -> TransferAssetsToVaultParams {
    TransferAssetsToVaultParams {
        swap_token_vault_bump: 0,
        proposal_id: "prop-1".to_string(),
        action_type: ActionType::Fulfilling,
        option_id: option_id.to_string(),
        swap_item_id: item_id.to_string(),
    }
}

#[test]
fn deposit_marks_item_and_stays_open() {
    let mut c = ctx("alice");
    let receipt = c.execute(&deposit_params("offer-1")).unwrap();
    assert_eq!(receipt.item_status, SwapItemStatus::Deposited);
    assert_eq!(receipt.proposal_status, SwapProposalStatus::Open);
    assert_eq!(
        receipt.events,
        vec![SwapEvent::ItemDeposited {
            id: "offer-1".to_string(),
            status: SwapItemStatus::Deposited,
            proposal_id: "prop-1".to_string(),
            actor: "alice".to_string(),
        }]
    );
    assert_eq!(c.swap_proposal.status, SwapProposalStatus::Open);
    assert_eq!(c.swap_proposal.offered_items[0].status, SwapItemStatus::Deposited);
    assert_eq!(c.swap_proposal.offered_items[0].owner, Some("alice".to_string()));
    assert_eq!(c.swap_proposal.offered_items[1].status, SwapItemStatus::Created);
    assert_eq!(c.swap_proposal.offered_items[1].owner, None);
}

#[test]
fn last_offered_deposit_completes_the_offering_side() {
    let mut c = ctx("alice");
    c.execute(&deposit_params("offer-1")).unwrap();
    let receipt = c.execute(&deposit_params("offer-2")).unwrap();
    assert_eq!(receipt.proposal_status, SwapProposalStatus::Deposited);
    assert_eq!(
        receipt.events,
        vec![
            SwapEvent::ItemDeposited {
                id: "offer-2".to_string(),
                status: SwapItemStatus::Deposited,
                proposal_id: "prop-1".to_string(),
                actor: "alice".to_string(),
            },
            SwapEvent::ProposalDeposited {
                id: "prop-1".to_string(),
                status: SwapProposalStatus::Deposited,
                actor: "alice".to_string(),
            },
        ]
    );
    assert_eq!(c.swap_proposal.status, SwapProposalStatus::Deposited);
}

#[test]
fn second_deposit_of_same_item_is_rejected_without_a_transfer() {
    let mut c = ctx("alice");
    c.execute(&deposit_params("offer-1")).unwrap();
    let before = c.swap_proposal.clone();
    // The validation rejects, so the gateway is never asked for a transfer.
    assert_eq!(
        c.transfer_request(&deposit_params("offer-1")),
        Err(SwapError::DepositIsNotAvailable)
    );
    assert_eq!(c.execute(&deposit_params("offer-1")), Err(SwapError::DepositIsNotAvailable));
    assert_eq!(c.swap_proposal, before);
}

#[test]
fn deposit_is_rejected_when_proposal_is_not_open() {
    let mut c = ctx("alice");
    c.swap_proposal.status = SwapProposalStatus::Deposited;
    let before = c.swap_proposal.clone();
    assert_eq!(c.execute(&deposit_params("offer-1")), Err(SwapError::DepositIsNotAvailable));
    assert_eq!(c.swap_proposal, before);
}

#[test]
fn deposit_of_unknown_item_is_rejected() {
    let mut c = ctx("alice");
    let before = c.swap_proposal.clone();
    assert_eq!(c.execute(&deposit_params("no-such-item")), Err(SwapError::ItemNotFound));
    assert_eq!(c.swap_proposal, before);
}

#[test]
fn fulfill_reserves_option_and_fulfiller() {
    let mut c = ctx("bob");
    let receipt = c.execute(&fulfill_params("opt-1", "ask-1")).unwrap();
    assert_eq!(receipt.proposal_status, SwapProposalStatus::Open);
    assert_eq!(
        receipt.events,
        vec![SwapEvent::ItemDeposited {
            id: "ask-1".to_string(),
            status: SwapItemStatus::Deposited,
            proposal_id: "prop-1".to_string(),
            actor: "bob".to_string(),
        }]
    );
    assert_eq!(c.swap_proposal.fulfilled_with_option_id, Some("opt-1".to_string()));
    assert_eq!(c.swap_proposal.fulfilled_by, Some("bob".to_string()));
    assert_eq!(c.swap_proposal.swap_options[0].asking_items[0].status, SwapItemStatus::Deposited);
    assert_eq!(
        c.swap_proposal.swap_options[0].asking_items[0].owner,
        Some("bob".to_string())
    );
    // The other option's items never transition.
    assert_eq!(c.swap_proposal.swap_options[1].asking_items[0].status, SwapItemStatus::Created);
}

#[test]
fn fulfillment_completes_without_requiring_deposited() {
    // The two macro-stages are independent tracks: fulfill every asking item
    // of one option before all offered items are deposited, and the proposal
    // is Fulfilled while the offering side is still incomplete.
    let mut c = ctx("bob");
    c.execute(&fulfill_params("opt-1", "ask-1")).unwrap();
    let receipt = c.execute(&fulfill_params("opt-1", "ask-2")).unwrap();
    assert_eq!(receipt.proposal_status, SwapProposalStatus::Fulfilled);
    assert_eq!(
        receipt.events,
        vec![
            SwapEvent::ItemDeposited {
                id: "ask-2".to_string(),
                status: SwapItemStatus::Deposited,
                proposal_id: "prop-1".to_string(),
                actor: "bob".to_string(),
            },
            SwapEvent::ProposalFulfilled {
                id: "prop-1".to_string(),
                status: SwapProposalStatus::Fulfilled,
                actor: "bob".to_string(),
            },
        ]
    );
    assert_eq!(c.swap_proposal.status, SwapProposalStatus::Fulfilled);
    assert_eq!(c.swap_proposal.offered_items[0].status, SwapItemStatus::Created);
    assert_eq!(c.swap_proposal.offered_items[1].status, SwapItemStatus::Created);
}

#[test]
fn second_fulfiller_is_rejected_after_reservation() {
    let mut c = ctx("bob");
    c.execute(&fulfill_params("opt-1", "ask-1")).unwrap();
    let reserved = c.swap_proposal.clone();
    // Another fulfiller, any option.
    let mut c2 = TransferAssetsToVaultContext {
        signer: "carol".to_string(),
        swap_proposal: reserved.clone(),
    };
    assert_eq!(
        c2.execute(&fulfill_params("opt-1", "ask-2")),
        Err(SwapError::FulfillingIsNotAvailable)
    );
    assert_eq!(
        c2.execute(&fulfill_params("opt-2", "ask-3")),
        Err(SwapError::FulfillingIsNotAvailable)
    );
    assert_eq!(c2.swap_proposal, reserved);
    // The reserving fulfiller against another option.
    assert_eq!(
        c.execute(&fulfill_params("opt-2", "ask-3")),
        Err(SwapError::FulfillingIsNotAvailable)
    );
    assert_eq!(c.swap_proposal, reserved);
}

#[test]
fn repeated_fulfillment_by_reserver_keeps_reservation() {
    let mut c = ctx("bob");
    c.execute(&fulfill_params("opt-1", "ask-1")).unwrap();
    let receipt = c.execute(&fulfill_params("opt-1", "ask-2")).unwrap();
    assert_eq!(receipt.item_status, SwapItemStatus::Deposited);
    assert_eq!(c.swap_proposal.fulfilled_with_option_id, Some("opt-1".to_string()));
    assert_eq!(c.swap_proposal.fulfilled_by, Some("bob".to_string()));
}

#[test]
fn second_fulfillment_of_same_item_is_rejected() {
    let mut c = ctx("bob");
    c.execute(&fulfill_params("opt-1", "ask-1")).unwrap();
    let before = c.swap_proposal.clone();
    assert_eq!(
        c.transfer_request(&fulfill_params("opt-1", "ask-1")),
        Err(SwapError::FulfillingIsNotAvailable)
    );
    assert_eq!(
        c.execute(&fulfill_params("opt-1", "ask-1")),
        Err(SwapError::FulfillingIsNotAvailable)
    );
    assert_eq!(c.swap_proposal, before);
}

#[test]
fn fulfill_of_unknown_option_or_item_is_rejected() {
    let mut c = ctx("bob");
    let before = c.swap_proposal.clone();
    assert_eq!(c.execute(&fulfill_params("no-such-option", "ask-1")), Err(SwapError::OptionNotFound));
    assert_eq!(c.execute(&fulfill_params("opt-1", "no-such-item")), Err(SwapError::ItemNotFound));
    assert_eq!(c.swap_proposal, before);
}

#[test]
fn fulfill_is_rejected_when_proposal_is_fulfilled() {
    let mut c = ctx("bob");
    c.execute(&fulfill_params("opt-2", "ask-3")).unwrap();
    assert_eq!(c.swap_proposal.status, SwapProposalStatus::Fulfilled);
    let before = c.swap_proposal.clone();
    assert_eq!(
        c.execute(&fulfill_params("opt-2", "ask-3")),
        Err(SwapError::FulfillingIsNotAvailable)
    );
    assert_eq!(c.swap_proposal, before);
}

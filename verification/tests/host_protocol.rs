use hamsterswap::model::SwapError;
use hamsterswap::model::SwapItem;
use hamsterswap::model::SwapItemStatus;
use hamsterswap::model::SwapOption;
use hamsterswap::model::SwapProposal;
use hamsterswap::model::SwapProposalStatus;
use hamsterswap::transfer_assets_to_vault::ActionType;
use hamsterswap::transfer_assets_to_vault::TransferAssetsToVaultContext;
use hamsterswap::transfer_assets_to_vault::TransferAssetsToVaultParams;

fn item(id: &str, amount: u64) -> SwapItem {
    SwapItem { id: id.to_string(), amount, status: SwapItemStatus::Created, owner: None }
}

fn proposal() -> SwapProposal {
    SwapProposal {
        id: "prop-9".to_string(),
        status: SwapProposalStatus::Open,
        offered_items: vec![item("offer-1", 10), item("offer-2", 5)],
        swap_options: vec![SwapOption {
            id: "opt-1".to_string(),
            asking_items: vec![item("ask-1", 7)],
        }],
        fulfilled_with_option_id: None,
        fulfilled_by: None,
    }
}

fn params(action_type: ActionType, option_id: &str, item_id: &str) -> TransferAssetsToVaultParams {
    TransferAssetsToVaultParams {
        swap_token_vault_bump: 255,
        proposal_id: "prop-9".to_string(),
        action_type,
        option_id: option_id.to_string(),
        swap_item_id: item_id.to_string(),
    }
}

#[test]
fn transfer_request_names_the_item_amount_and_the_caller() {
    let c = TransferAssetsToVaultContext {
        signer: "alice".to_string(),
        swap_proposal: proposal(),
    };
    let req = c.transfer_request(&params(ActionType::Depositing, "", "offer-1")).unwrap();
    assert_eq!(req.from, "alice".to_string());
    assert_eq!(req.amount, 10);
    let req = c.transfer_request(&params(ActionType::Depositing, "", "offer-2")).unwrap();
    assert_eq!(req.amount, 5);
    let req = c.transfer_request(&params(ActionType::Fulfilling, "opt-1", "ask-1")).unwrap();
    assert_eq!(req.amount, 7);
}

#[test]
fn gateway_failure_leaves_the_proposal_untouched() {
    // The host protocol on a failed transfer: the request was validated, the
    // gateway reported failure, so the transition is never applied and no
    // event exists.
    let mut c = TransferAssetsToVaultContext {
        signer: "alice".to_string(),
        swap_proposal: proposal(),
    };
    let before = c.swap_proposal.clone();
    let request = c.transfer_request(&params(ActionType::Depositing, "", "offer-1"));
    assert!(request.is_ok());
    let gateway_succeeded = false;
    let mut events_emitted: usize = 0;
    if gateway_succeeded {
        let receipt = c.execute(&params(ActionType::Depositing, "", "offer-1")).unwrap();
        events_emitted += receipt.events.len();
    }
    assert_eq!(c.swap_proposal, before);
    assert_eq!(events_emitted, 0);
}

#[test]
fn rejections_are_deterministic_on_replay() {
    let mut c = TransferAssetsToVaultContext {
        signer: "alice".to_string(),
        swap_proposal: proposal(),
    };
    let bad = params(ActionType::Depositing, "", "no-such-item");
    assert_eq!(c.execute(&bad), Err(SwapError::ItemNotFound));
    assert_eq!(c.execute(&bad), Err(SwapError::ItemNotFound));
    assert_eq!(c.transfer_request(&bad), Err(SwapError::ItemNotFound));
}

#[test]
fn action_codes_decode_to_the_two_actions() {
    assert_eq!(ActionType::from_code(0), Ok(ActionType::Depositing));
    assert_eq!(ActionType::from_code(1), Ok(ActionType::Fulfilling));
    assert_eq!(ActionType::from_code(2), Err(SwapError::InvalidValue));
    assert_eq!(ActionType::from_code(255), Err(SwapError::InvalidValue));
}

#[test]
fn well_formedness_check_accepts_and_rejects() {
    let p = proposal();
    assert!(p.is_well_formed());

    let mut dup_items = proposal();
    dup_items.offered_items.push(item("offer-1", 3));
    assert!(!dup_items.is_well_formed());

    let mut dup_options = proposal();
    dup_options.swap_options.push(SwapOption {
        id: "opt-1".to_string(),
        asking_items: vec![item("ask-9", 1)],
    });
    assert!(!dup_options.is_well_formed());

    let mut dup_asking = proposal();
    dup_asking.swap_options[0].asking_items.push(item("ask-1", 2));
    assert!(!dup_asking.is_well_formed());

    let mut orphan_owner = proposal();
    orphan_owner.offered_items[0].owner = Some("alice".to_string());
    assert!(!orphan_owner.is_well_formed());

    let mut missing_owner = proposal();
    missing_owner.swap_options[0].asking_items[0].status = SwapItemStatus::Deposited;
    assert!(!missing_owner.is_well_formed());

    let mut half_reserved = proposal();
    half_reserved.fulfilled_with_option_id = Some("opt-1".to_string());
    assert!(!half_reserved.is_well_formed());

    let mut half_reserved_other = proposal();
    half_reserved_other.fulfilled_by = Some("bob".to_string());
    assert!(!half_reserved_other.is_well_formed());
}

#[test]
fn eligibility_predicates_follow_the_reservation() {
    let mut p = proposal();
    assert!(p.is_open_for_depositing());
    assert!(p.is_open_for_fulfilling(&"opt-1".to_string(), &"bob".to_string()));
    p.fulfilled_with_option_id = Some("opt-1".to_string());
    p.fulfilled_by = Some("bob".to_string());
    assert!(p.is_open_for_fulfilling(&"opt-1".to_string(), &"bob".to_string()));
    assert!(!p.is_open_for_fulfilling(&"opt-1".to_string(), &"carol".to_string()));
    assert!(!p.is_open_for_fulfilling(&"opt-2".to_string(), &"bob".to_string()));
    p.status = SwapProposalStatus::Fulfilled;
    assert!(!p.is_open_for_depositing());
    assert!(!p.is_open_for_fulfilling(&"opt-1".to_string(), &"bob".to_string()));
}

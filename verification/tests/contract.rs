//! The create-transfer flow, driven through the execute entrypoint.
use restricted_marker_transfer::contract::{
    execute, Action, AssetClass, Coin, ExecuteResponse, TransferInstruction,
};
use restricted_marker_transfer::msg::ExecuteMsg;
use restricted_marker_transfer::state::{Store, Transfer};
use restricted_marker_transfer::ContractError;

const RESTRICTED_DENOM: &str = "restricted_1";
const CONTRACT_ADDR: &str = "cosmos2contract";
const TRANSFER_ID: &str = "56253028-12f5-4d2a-a691-ebdfd2a7b865";

fn no_grants() -> Vec<restricted_marker_transfer::auth::AccessGrant> {
    Vec::new()
}

#[test]
fn create_transfer_success() {
    let mut store = Store::new();
    let amount: u128 = 1;
    let transfer_msg = ExecuteMsg::Transfer {
        id: TRANSFER_ID.into(),
        denom: RESTRICTED_DENOM.into(),
        amount,
        recipient: "transfer_to".into(),
    };
    let sender: String = "sender".into();
    let contract: String = CONTRACT_ADDR.into();
    let funds: Vec<Coin> = Vec::new();

    let transfer_response = execute(
        &mut store,
        &contract,
        &sender,
        &funds,
        transfer_msg,
        AssetClass::Restricted,
        1,
        &no_grants(),
    );

    match transfer_response {
        Ok(response) => {
            let expected = ExecuteResponse {
                action: Action::Transfer,
                id: TRANSFER_ID.into(),
                denom: RESTRICTED_DENOM.into(),
                amount,
                sender: sender.clone(),
                recipient: Some("transfer_to".into()),
                admin: None,
                instruction: TransferInstruction {
                    amount,
                    denom: RESTRICTED_DENOM.into(),
                    from: sender.clone(),
                    to: CONTRACT_ADDR.into(),
                },
            };
            assert_eq!(response, expected);
            assert_eq!(response.action.label(), "create_transfer");
        }
        Err(error) => {
            panic!("failed to create transfer: {:?}", error)
        }
    }

    match store.get(&TRANSFER_ID.to_string()) {
        Some(stored_transfer) => {
            assert_eq!(
                stored_transfer,
                Transfer {
                    id: TRANSFER_ID.into(),
                    sender: sender.clone(),
                    denom: RESTRICTED_DENOM.into(),
                    amount,
                    recipient: "transfer_to".into(),
                }
            )
        }
        _ => {
            panic!("transfer was not found in storage")
        }
    }
}

#[test]
fn create_transfer_with_funds_throws_error() {
    let mut store = Store::new();
    let amount: u128 = 1;
    let transfer_msg = ExecuteMsg::Transfer {
        id: TRANSFER_ID.into(),
        denom: RESTRICTED_DENOM.into(),
        amount,
        recipient: "transfer_to".into(),
    };
    let sender: String = "sender".into();
    let contract: String = CONTRACT_ADDR.into();
    let funds = vec![Coin { denom: RESTRICTED_DENOM.into(), amount }];

    let transfer_response = execute(
        &mut store,
        &contract,
        &sender,
        &funds,
        transfer_msg,
        AssetClass::Restricted,
        1,
        &no_grants(),
    );

    match transfer_response {
        Ok(_) => {
            panic!("expected error, but ok")
        }
        Err(error) => match error {
            ContractError::SentFundsUnsupported => {}
            error => panic!("unexpected error: {:?}", error),
        },
    }
}

#[test]
fn create_transfer_insufficient_funds_throws_error() {
    let mut store = Store::new();
    let amount: u128 = 2;
    let transfer_msg = ExecuteMsg::Transfer {
        id: TRANSFER_ID.into(),
        denom: RESTRICTED_DENOM.into(),
        amount,
        recipient: "transfer_to".into(),
    };
    let sender: String = "sender".into();
    let contract: String = CONTRACT_ADDR.into();
    let funds: Vec<Coin> = Vec::new();

    let transfer_response = execute(
        &mut store,
        &contract,
        &sender,
        &funds,
        transfer_msg,
        AssetClass::Restricted,
        1,
        &no_grants(),
    );

    match transfer_response {
        Ok(_) => {
            panic!("expected error, but ok")
        }
        Err(error) => match error {
            ContractError::InsufficientFunds => {}
            error => panic!("unexpected error: {:?}", error),
        },
    }
}

#[test]
fn create_transfer_invalid_data() {
    let mut store = Store::new();
    let amount: u128 = 1;
    let transfer_msg = ExecuteMsg::Transfer {
        id: "".into(),
        denom: RESTRICTED_DENOM.into(),
        amount,
        recipient: "transfer_to".into(),
    };
    let sender: String = "sender".into();
    let contract: String = CONTRACT_ADDR.into();
    let funds: Vec<Coin> = Vec::new();

    let transfer_response = execute(
        &mut store,
        &contract,
        &sender,
        &funds,
        transfer_msg,
        AssetClass::Restricted,
        1,
        &no_grants(),
    );

    match transfer_response {
        Ok(_) => {
            panic!("expected error, but ok")
        }
        Err(error) => match error {
            ContractError::InvalidFields { fields } => {
                assert!(fields.contains(&"id".into()));
            }
            error => panic!("unexpected error: {:?}", error),
        },
    }
}

#[test]
fn create_transfer_existing_id() {
    let mut store = Store::new();
    let amount: u128 = 1;
    let sender: String = "sender".into();
    let contract: String = CONTRACT_ADDR.into();

    store.put(Transfer {
        id: TRANSFER_ID.into(),
        sender: sender.clone(),
        denom: RESTRICTED_DENOM.into(),
        amount,
        recipient: "transfer_to".into(),
    });

    let transfer_msg = ExecuteMsg::Transfer {
        id: TRANSFER_ID.into(),
        denom: RESTRICTED_DENOM.into(),
        amount,
        recipient: "transfer_to".into(),
    };
    let funds: Vec<Coin> = Vec::new();

    let transfer_response = execute(
        &mut store,
        &contract,
        &sender,
        &funds,
        transfer_msg,
        AssetClass::Restricted,
        1,
        &no_grants(),
    );

    match transfer_response {
        Ok(_) => {
            panic!("expected error, but ok")
        }
        Err(error) => match error {
            ContractError::InvalidFields { fields } => {
                assert!(fields.contains(&"id".into()));
            }
            error => panic!("unexpected error: {:?}", error),
        },
    }
}

#[test]
fn create_transfer_unrestricted_marker_throws_error() {
    let mut store = Store::new();
    let amount: u128 = 1;
    let transfer_msg = ExecuteMsg::Transfer {
        id: TRANSFER_ID.into(),
        denom: "unrestricted-marker".into(),
        amount,
        recipient: "transfer_to".into(),
    };
    let sender: String = "sender".into();
    let contract: String = CONTRACT_ADDR.into();
    let funds: Vec<Coin> = Vec::new();

    let transfer_response = execute(
        &mut store,
        &contract,
        &sender,
        &funds,
        transfer_msg,
        AssetClass::Other,
        amount,
        &no_grants(),
    );

    match transfer_response {
        Ok(_) => {
            panic!("expected error, but ok")
        }
        Err(error) => match error {
            ContractError::UnsupportedMarkerType => {}
            error => panic!("unexpected error: {:?}", error),
        },
    }
}

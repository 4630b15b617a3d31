//! Field-presence validation of the operation payloads.
use restricted_marker_transfer::msg::ExecuteMsg::{
    ApproveTransfer, CancelTransfer, RejectTransfer, Transfer,
};
use restricted_marker_transfer::ContractError;

#[test]
fn validate_transfer() {
    let invalid_transfer_msg = Transfer {
        id: "fake-id".to_string(),
        denom: "".to_string(),
        amount: 0,
        recipient: "".to_string(),
    };

    let validate_response = invalid_transfer_msg.validate();

    match validate_response {
        Ok(..) => panic!("expected error but was ok"),
        Err(error) => match error {
            ContractError::InvalidFields { fields } => {
                assert_eq!(4, fields.len());
                assert!(fields.contains(&"id".into()));
                assert!(fields.contains(&"denom".into()));
                assert!(fields.contains(&"amount".into()));
                assert!(fields.contains(&"recipient".into()));
            }
            error => panic!("unexpected error: {:?}", error),
        },
    }
}

#[test]
fn validate_approve_transfer() {
    let invalid_approve_msg = ApproveTransfer { id: "not-a-real-uuid".to_string() };

    let validate_response = invalid_approve_msg.validate();

    match validate_response {
        Ok(..) => panic!("expected error but was ok"),
        Err(error) => match error {
            ContractError::InvalidFields { fields } => {
                assert_eq!(1, fields.len());
                assert!(fields.contains(&"id".into()));
            }
            error => panic!("unexpected error: {:?}", error),
        },
    }
}

#[test]
fn validate_cancel_transfer() {
    let invalid_cancel_msg = CancelTransfer { id: "not-a-real-uuid".to_string() };

    let validate_response = invalid_cancel_msg.validate();

    match validate_response {
        Ok(..) => panic!("expected error but was ok"),
        Err(error) => match error {
            ContractError::InvalidFields { fields } => {
                assert_eq!(1, fields.len());
                assert!(fields.contains(&"id".into()));
            }
            error => panic!("unexpected error: {:?}", error),
        },
    }
}

#[test]
fn validate_reject_transfer() {
    let invalid_reject_msg = RejectTransfer { id: "not-a-real-uuid".to_string() };

    let validate_response = invalid_reject_msg.validate();

    match validate_response {
        Ok(..) => panic!("expected error but was ok"),
        Err(error) => match error {
            ContractError::InvalidFields { fields } => {
                assert_eq!(1, fields.len());
                assert!(fields.contains(&"id".into()));
            }
            error => panic!("unexpected error: {:?}", error),
        },
    }
}

#[test]
fn validate_accepts_well_formed_payloads() {
    let valid_transfer = Transfer {
        id: "56253028-12f5-4d2a-a691-ebdfd2a7b865".to_string(),
        denom: "restricted_1".to_string(),
        amount: 1,
        recipient: "transfer_to".to_string(),
    };
    assert!(valid_transfer.validate().is_ok());

    let valid_approve =
        ApproveTransfer { id: "56253028-12f5-4d2a-a691-ebdfd2a7b865".to_string() };
    assert!(valid_approve.validate().is_ok());
}

#[test]
fn validate_query_transfer_id() {
    let invalid_query = restricted_marker_transfer::msg::QueryMsg::GetTransfer {
        id: "not-a-real-uuid".to_string(),
    };
    match invalid_query.validate() {
        Ok(..) => panic!("expected error but was ok"),
        Err(ContractError::InvalidFields { fields }) => {
            assert_eq!(fields, vec!["id".to_string()]);
        }
        Err(error) => panic!("unexpected error: {:?}", error),
    }

    let valid_query = restricted_marker_transfer::msg::QueryMsg::GetTransfer {
        id: "56253028-12f5-4d2a-a691-ebdfd2a7b865".to_string(),
    };
    assert!(valid_query.validate().is_ok());
    assert!(restricted_marker_transfer::msg::QueryMsg::GetContractInfo {}.validate().is_ok());
}

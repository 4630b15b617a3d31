//! Instantiation and the migration guard.
use restricted_marker_transfer::contract::Coin;
use restricted_marker_transfer::instantiate::instantiate;
use restricted_marker_transfer::migrate::{migrate, MigrateAction};
use restricted_marker_transfer::msg::InstantiateMsg;
use restricted_marker_transfer::state::State;
use restricted_marker_transfer::ContractError;

const CRATE_NAME: &str = "restricted_marker_transfer";
const PACKAGE_VERSION: &str = "0.3.1";

#[test]
fn proper_initialization() {
    let contract_name = "please transfer me";
    let init_msg = InstantiateMsg { name: contract_name.into() };
    let funds: Vec<Coin> = Vec::new();

    let init_response = instantiate(init_msg.clone(), &funds);

    match init_response {
        Ok(state) => {
            let expected_state = State { name: contract_name.into() };
            assert_eq!(state, expected_state);
        }
        error => panic!("failed to initialize: {:?}", error),
    }
}

#[test]
fn instantiate_rejects_funds() {
    let init_msg = InstantiateMsg { name: "please transfer me".into() };
    let funds = vec![Coin { denom: "restricted_1".into(), amount: 1 }];

    match instantiate(init_msg, &funds) {
        Ok(state) => panic!("expected error, got state: {:?}", state),
        Err(ContractError::Std { msg }) => {
            assert_eq!(msg, "no funds should be sent during instantiate");
        }
        Err(error) => panic!("unexpected error: {:?}", error),
    }
}

#[test]
fn instantiate_rejects_empty_name() {
    let init_msg = InstantiateMsg { name: "".into() };
    let funds: Vec<Coin> = Vec::new();

    match instantiate(init_msg, &funds) {
        Ok(state) => panic!("expected error, got state: {:?}", state),
        Err(ContractError::InvalidFields { fields }) => {
            assert_eq!(fields, vec!["name".to_string()]);
        }
        Err(error) => panic!("unexpected error: {:?}", error),
    }
}

#[test]
fn migrate_test() {
    let migrate_response = migrate(
        &CRATE_NAME.to_string(),
        &"0.3.0".to_string(),
        &CRATE_NAME.to_string(),
        &PACKAGE_VERSION.to_string(),
        true,
    );

    match migrate_response {
        Some(Ok(action)) => {
            assert_eq!(action, MigrateAction { move_legacy_config: false });
        }
        error => panic!("failed to initialize: {:?}", error),
    }
}

#[test]
fn test_migrate_legacy_config() {
    let migrate_response = migrate(
        &CRATE_NAME.to_string(),
        &"0.2.0".to_string(),
        &CRATE_NAME.to_string(),
        &PACKAGE_VERSION.to_string(),
        false,
    );

    match migrate_response {
        Some(Ok(action)) => {
            assert_eq!(action, MigrateAction { move_legacy_config: true });
        }
        error => panic!("failed to initialize: {:?}", error),
    }
}

#[test]
fn test_migrate_invalid_contract_type() {
    let migrate_response = migrate(
        &"other_name".to_string(),
        &"0.3.0".to_string(),
        &CRATE_NAME.to_string(),
        &PACKAGE_VERSION.to_string(),
        true,
    );

    match migrate_response {
        Some(Ok(..)) | None => {
            panic!("migration should fail when the contract type is changing")
        }
        Some(Err(error)) => match error {
            ContractError::InvalidContractType => {}
            error => panic!("unexpected error: {:?}", error),
        },
    }
}

#[test]
fn test_migrate_invalid_version() {
    let current_version: String = "999.0.0".into();
    let new_version: String = String::from(PACKAGE_VERSION);

    let migrate_response = migrate(
        &CRATE_NAME.to_string(),
        &current_version,
        &CRATE_NAME.to_string(),
        &new_version,
        true,
    );

    match migrate_response {
        Some(Ok(..)) | None => {
            panic!("migration should fail when the version is decreasing")
        }
        Some(Err(error)) => match error {
            ContractError::UnsupportedUpgrade { source_version, target_version } => {
                assert_eq!(source_version, current_version);
                assert_eq!(target_version, new_version);
            }
            error => panic!("unexpected error: {:?}", error),
        },
    }
}

#[test]
fn migrate_undecided_on_unparseable_version() {
    let migrate_response = migrate(
        &CRATE_NAME.to_string(),
        &"not-a-version".to_string(),
        &CRATE_NAME.to_string(),
        &PACKAGE_VERSION.to_string(),
        true,
    );
    assert!(migrate_response.is_none());

    let prerelease_response = migrate(
        &CRATE_NAME.to_string(),
        &"0.3.0-rc.1".to_string(),
        &CRATE_NAME.to_string(),
        &PACKAGE_VERSION.to_string(),
        true,
    );
    assert!(prerelease_response.is_none());
}

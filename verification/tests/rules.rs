use looping::error::LoopingError;
use looping::ledger::LoopingContract;
use looping::position::{Address, Position, PositionStatus};
use looping::rules::{check_open_request, close_stored_position, next_position_id};

use proptest::prelude::any;
use proptest::test_runner::{Config, TestRunner};

fn address(strkey: &str) -> Address {
    Address::from_strkey(strkey.to_string())
}

fn record(owner: &str, status: PositionStatus) -> Position {
    Position {
        owner: address(owner),
        collateral_asset: address("CCOLL"),
        collateral_amount: 1_000,
        debt_asset: address("CDEBT"),
        debt_amount: 2_000,
        leverage: 300,
        status,
    }
}

fn open_default(contract: &mut LoopingContract, owner: &str) -> Result<u64, LoopingError> {
    contract.open_position(address(owner), address("CCOLL"), 1_000, address("CDEBT"), 2_000, 200)
}

// Property: `open_position` succeeds exactly when the inputs are valid
// (collateral > 0, debt >= 0, leverage in 100..=500) and is rejected with a
// defined error otherwise.
#[test]
fn test_open_position_input_validation() {
    let mut runner = TestRunner::new(Config::with_cases(1_000));
    let strategy = (any::<i128>(), any::<i128>(), any::<u32>());
    runner
        .run(&strategy, |(collateral, debt, leverage)| {
            let mut contract = LoopingContract::new();
            let result = contract.open_position(
                address("GUSER"),
                address("CCOLL"),
                collateral,
                address("CDEBT"),
                debt,
                leverage,
            );
            let valid = collateral > 0 && debt >= 0 && (100..=500).contains(&leverage);
            assert_eq!(
                result.is_ok(),
                valid,
                "collateral={collateral}, debt={debt}, leverage={leverage}"
            );
            Ok(())
        })
        .unwrap();
}

#[test]
fn error_codes_are_stable() {
    assert_eq!(LoopingError::InvalidCollateral.code(), 1);
    assert_eq!(LoopingError::InvalidDebt.code(), 2);
    assert_eq!(LoopingError::InvalidLeverage.code(), 3);
    assert_eq!(LoopingError::PositionNotFound.code(), 4);
    assert_eq!(LoopingError::PositionAlreadyClosed.code(), 5);
    assert_eq!(LoopingError::NotPositionOwner.code(), 6);
}

#[test]
fn open_request_errors_come_in_order() {
    assert_eq!(check_open_request(0, -1, 0), Err(LoopingError::InvalidCollateral));
    assert_eq!(check_open_request(i128::MIN, 0, 200), Err(LoopingError::InvalidCollateral));
    assert_eq!(check_open_request(1, -1, 0), Err(LoopingError::InvalidDebt));
    assert_eq!(check_open_request(1, i128::MIN, 200), Err(LoopingError::InvalidDebt));
    assert_eq!(check_open_request(1, 0, 99), Err(LoopingError::InvalidLeverage));
    assert_eq!(check_open_request(1, 0, 501), Err(LoopingError::InvalidLeverage));
    assert_eq!(check_open_request(1, 0, u32::MAX), Err(LoopingError::InvalidLeverage));
    assert_eq!(check_open_request(1, 0, 100), Ok(()));
    assert_eq!(check_open_request(i128::MAX, i128::MAX, 500), Ok(()));
}

#[test]
fn next_position_id_counts_from_one() {
    assert_eq!(next_position_id(None), 1);
    assert_eq!(next_position_id(Some(0)), 1);
    assert_eq!(next_position_id(Some(41)), 42);
    assert_eq!(next_position_id(Some(u64::MAX - 1)), u64::MAX);
}

#[test]
fn close_decisions_cover_every_outcome() {
    let owner = address("GOWNER");
    let stranger = address("GSTRANGER");

    assert_eq!(close_stored_position(None, &owner), Err(LoopingError::PositionNotFound));
    assert_eq!(
        close_stored_position(Some(record("GOWNER", PositionStatus::Open)), &stranger),
        Err(LoopingError::NotPositionOwner)
    );
    // Ownership is checked before status.
    assert_eq!(
        close_stored_position(Some(record("GOWNER", PositionStatus::Closed)), &stranger),
        Err(LoopingError::NotPositionOwner)
    );
    assert_eq!(
        close_stored_position(Some(record("GOWNER", PositionStatus::Closed)), &owner),
        Err(LoopingError::PositionAlreadyClosed)
    );
    assert_eq!(
        close_stored_position(Some(record("GOWNER", PositionStatus::Open)), &owner),
        Ok(record("GOWNER", PositionStatus::Closed))
    );
}

#[test]
fn addresses_compare_by_strkey() {
    let a = address("GABC");
    assert!(a.same_as(&address("GABC")));
    assert!(!a.same_as(&address("GABD")));
    assert_eq!(a.strkey(), "GABC");
    assert_eq!(a.clone(), a);
    let p = record("GOWNER", PositionStatus::Open);
    assert_eq!(p.clone(), p);
}

#[test]
fn new_open_position_has_open_status() {
    let p = Position::new_open(address("GOWNER"), address("CCOLL"), 1_000, address("CDEBT"), 2_000, 300);
    assert_eq!(p, record("GOWNER", PositionStatus::Open));
}

#[test]
fn refused_requests_change_nothing() {
    let mut contract = LoopingContract::new();
    assert_eq!(open_default(&mut contract, "GOWNER"), Ok(1));
    let before = contract.get_position(1);

    assert_eq!(
        contract.open_position(address("GOWNER"), address("CCOLL"), 0, address("CDEBT"), 0, 200),
        Err(LoopingError::InvalidCollateral)
    );
    assert_eq!(
        contract.open_position(address("GOWNER"), address("CCOLL"), 5, address("CDEBT"), -5, 200),
        Err(LoopingError::InvalidDebt)
    );
    assert_eq!(
        contract.open_position(address("GOWNER"), address("CCOLL"), 5, address("CDEBT"), 5, 50),
        Err(LoopingError::InvalidLeverage)
    );
    assert_eq!(contract.position_count(), 1);
    assert_eq!(contract.get_position(2), None);

    assert_eq!(
        contract.close_position(address("GSTRANGER"), 1),
        Err(LoopingError::NotPositionOwner)
    );
    assert_eq!(contract.close_position(address("GOWNER"), 0), Err(LoopingError::PositionNotFound));
    assert_eq!(contract.close_position(address("GOWNER"), 2), Err(LoopingError::PositionNotFound));
    assert_eq!(contract.get_position(1), before);
    assert_eq!(contract.position_count(), 1);
}

#[test]
fn ids_are_consecutive_and_never_reused() {
    let mut contract = LoopingContract::new();
    assert_eq!(contract.position_count(), 0);
    assert_eq!(contract.get_position(0), None);
    assert_eq!(contract.get_position(1), None);
    for expected in 1..=5u64 {
        assert_eq!(open_default(&mut contract, "GOWNER"), Ok(expected));
        assert_eq!(contract.position_count(), expected);
    }
    // Closing does not free an id.
    contract.close_position(address("GOWNER"), 5).unwrap();
    assert_eq!(open_default(&mut contract, "GOWNER"), Ok(6));
}

#[test]
fn closing_touches_only_the_status_of_one_position() {
    let mut contract = LoopingContract::new();
    open_default(&mut contract, "GALICE").unwrap();
    open_default(&mut contract, "GBOB").unwrap();
    let first = contract.get_position(1).unwrap();

    let closed = contract.close_position(address("GBOB"), 2).unwrap();
    assert_eq!(closed.status, PositionStatus::Closed);
    assert_eq!(closed.owner, address("GBOB"));
    assert_eq!(closed.collateral_asset, address("CCOLL"));
    assert_eq!(closed.debt_asset, address("CDEBT"));
    assert_eq!(closed.leverage, 200);
    assert_eq!(contract.get_position(2), Some(closed));
    assert_eq!(contract.get_position(1), Some(first));

    // A closed position stays closed.
    assert_eq!(
        contract.close_position(address("GBOB"), 2),
        Err(LoopingError::PositionAlreadyClosed)
    );
    assert_eq!(contract.get_position(2).unwrap().status, PositionStatus::Closed);
}

use vstd::prelude::*;

use crate::error::LoopingError;
use crate::position::{Address, Position, PositionStatus};

verus! {

/// Smallest accepted leverage (1x, scaled x100).
pub const MIN_LEVERAGE: u32 = 100;

/// Largest accepted leverage (5x, scaled x100).
pub const MAX_LEVERAGE: u32 = 500;

/// The inputs with which a position may be opened: positive collateral,
/// non-negative debt, and leverage within 1x-5x (100..=500).
pub open spec fn valid_open_request(collateral_amount: i128, debt_amount: i128, leverage: u32) -> bool {
    &&& collateral_amount > 0
    &&& debt_amount >= 0
    &&& MIN_LEVERAGE <= leverage <= MAX_LEVERAGE
}

/// The error with which an open request is refused, if any. The checks are
/// made in order: collateral first, then debt, then leverage.
pub open spec fn open_request_error(collateral_amount: i128, debt_amount: i128, leverage: u32) -> Option<
    LoopingError,
> {
    if collateral_amount <= 0 {
        Some(LoopingError::InvalidCollateral)
    } else if debt_amount < 0 {
        Some(LoopingError::InvalidDebt)
    } else if !(MIN_LEVERAGE <= leverage <= MAX_LEVERAGE) {
        Some(LoopingError::InvalidLeverage)
    } else {
        None
    }
}

/// Checks the amounts and leverage of an open request.
///
/// Returns the first failing check's error, in the order collateral, debt,
/// leverage; `Ok(())` exactly when the request is valid.
pub fn check_open_request(collateral_amount: i128, debt_amount: i128, leverage: u32) -> (r: Result<
    (),
    LoopingError,
>)
    ensures
        r is Ok <==> (collateral_amount > 0 && debt_amount >= 0 && 100 <= leverage <= 500),
        collateral_amount <= 0 ==> r == Err::<(), LoopingError>(LoopingError::InvalidCollateral),
        collateral_amount > 0 && debt_amount < 0 ==> r == Err::<(), LoopingError>(
            LoopingError::InvalidDebt,
        ),
        collateral_amount > 0 && debt_amount >= 0 && !(100 <= leverage <= 500) ==> r == Err::<
            (),
            LoopingError,
        >(LoopingError::InvalidLeverage),
        r is Ok <==> valid_open_request(collateral_amount, debt_amount, leverage),
        match r {
            Ok(()) => open_request_error(collateral_amount, debt_amount, leverage) is None,
            Err(e) => open_request_error(collateral_amount, debt_amount, leverage) == Some(e),
        },
{
    if collateral_amount <= 0 {
        return Err(LoopingError::InvalidCollateral);
    }
    if debt_amount < 0 {
        return Err(LoopingError::InvalidDebt);
    }
    if !(MIN_LEVERAGE <= leverage && leverage <= MAX_LEVERAGE) {
        return Err(LoopingError::InvalidLeverage);
    }
    Ok(())
}

/// The position counter as stored: a missing counter counts as zero.
pub open spec fn stored_count(stored: Option<u64>) -> u64 {
    match stored {
        Some(c) => c,
        None => 0,
    }
}

/// The id of the next position, given the stored position counter (absent
/// before the first position is opened). The new id is also the new value of
/// the counter.
pub fn next_position_id(stored: Option<u64>) -> (id: u64)
    requires
        stored matches Some(c) ==> c < u64::MAX,
    ensures
        stored is None ==> id == 1,
        stored matches Some(c) ==> id == c + 1,
        id == stored_count(stored) + 1,
{
    let count = match stored {
        Some(c) => c,
        None => 0,
    };
    count + 1
}

/// The record of a freshly opened position.
pub open spec fn opened_position(
    owner: Address,
    collateral_asset: Address,
    collateral_amount: i128,
    debt_asset: Address,
    debt_amount: i128,
    leverage: u32,
) -> Position {
    Position {
        owner,
        collateral_asset,
        collateral_amount,
        debt_asset,
        debt_amount,
        leverage,
        status: PositionStatus::Open,
    }
}

impl Position {
    /// The record of a freshly opened position: the given fields, status `Open`.
    pub fn new_open(
        owner: Address,
        collateral_asset: Address,
        collateral_amount: i128,
        debt_asset: Address,
        debt_amount: i128,
        leverage: u32,
    ) -> (p: Position)
        ensures
            p.owner == owner,
            p.collateral_asset == collateral_asset,
            p.collateral_amount == collateral_amount,
            p.debt_asset == debt_asset,
            p.debt_amount == debt_amount,
            p.leverage == leverage,
            p.status == PositionStatus::Open,
            p == opened_position(
                owner,
                collateral_asset,
                collateral_amount,
                debt_asset,
                debt_amount,
                leverage,
            ),
    {
        Position {
            owner,
            collateral_asset,
            collateral_amount,
            debt_asset,
            debt_amount,
            leverage,
            status: PositionStatus::Open,
        }
    }
}

/// What a close request by `user` is answered, given the stored record of the
/// position (`None` when no position has that id): the closed record, or the
/// error. The checks are made in order: existence, ownership, status.
pub open spec fn close_outcome(stored: Option<Position>, user: Address) -> Result<Position, LoopingError> {
    match stored {
        None => Err(LoopingError::PositionNotFound),
        Some(p) => if p.owner@ != user@ {
            Err(LoopingError::NotPositionOwner)
        } else if p.status == PositionStatus::Closed {
            Err(LoopingError::PositionAlreadyClosed)
        } else {
            Ok(p.closed())
        },
    }
}

/// Decides a close request by `user` on the stored record of a position.
///
/// A missing position is `PositionNotFound`; a position owned by another
/// address is `NotPositionOwner`; a closed position is
/// `PositionAlreadyClosed`; otherwise the record is returned with status
/// `Closed` and every other field unchanged.
pub fn close_stored_position(stored: Option<Position>, user: &Address) -> (r: Result<
    Position,
    LoopingError,
>)
    ensures
        stored is None ==> r == Err::<Position, LoopingError>(LoopingError::PositionNotFound),
        stored matches Some(p) && p.owner@ != user@ ==> r == Err::<Position, LoopingError>(
            LoopingError::NotPositionOwner,
        ),
        stored matches Some(p) && p.owner@ == user@ && p.status == PositionStatus::Closed ==> r
            == Err::<Position, LoopingError>(LoopingError::PositionAlreadyClosed),
        ({
            let p = stored->Some_0;
            let q = r->Ok_0;
            stored is Some && p.owner@ == user@ && p.status == PositionStatus::Open ==> {
                &&& r is Ok
                &&& q.owner == p.owner
                &&& q.collateral_asset == p.collateral_asset
                &&& q.collateral_amount == p.collateral_amount
                &&& q.debt_asset == p.debt_asset
                &&& q.debt_amount == p.debt_amount
                &&& q.leverage == p.leverage
                &&& q.status == PositionStatus::Closed
            }
        }),
        r == close_outcome(stored, *user),
{
    match stored {
        None => Err(LoopingError::PositionNotFound),
        Some(p) => {
            if !p.owner.same_as(user) {
                Err(LoopingError::NotPositionOwner)
            } else if p.status == PositionStatus::Closed {
                Err(LoopingError::PositionAlreadyClosed)
            } else {
                Ok(Position { status: PositionStatus::Closed, ..p })
            }
        },
    }
}

} // verus!

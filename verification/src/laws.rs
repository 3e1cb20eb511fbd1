//! Laws of the position ledger, stated over the responses and ledger updates
//! that the contract's entry points are specified by.

use vstd::prelude::*;

use crate::error::LoopingError;
use crate::ledger::{close_response, ledger_after_close, ledger_after_open, open_response, record_of};
use crate::position::{Address, Position, PositionStatus};
use crate::rules::{
    close_outcome, open_request_error, opened_position, stored_count, valid_open_request,
};

verus! {

/// An open request succeeds exactly when its collateral is positive, its debt
/// non-negative and its leverage within 100..=500, whatever the ledger holds.
pub proof fn law_open_succeeds_iff_valid(
    ledger: Seq<Position>,
    collateral_amount: i128,
    debt_amount: i128,
    leverage: u32,
)
    ensures
        open_response(ledger, collateral_amount, debt_amount, leverage) is Ok <==> (collateral_amount
            > 0 && debt_amount >= 0 && 100 <= leverage <= 500),
        valid_open_request(collateral_amount, debt_amount, leverage) <==> (collateral_amount > 0
            && debt_amount >= 0 && 100 <= leverage <= 500),
        open_request_error(collateral_amount, debt_amount, leverage) is None <==> (collateral_amount
            > 0 && debt_amount >= 0 && 100 <= leverage <= 500),
{
}

/// A refused open request names the first check it fails, in the order
/// collateral (must be positive), debt (must not be negative), leverage (must
/// lie within 100..=500).
pub proof fn law_open_refusals_come_in_order(
    ledger: Seq<Position>,
    collateral_amount: i128,
    debt_amount: i128,
    leverage: u32,
)
    ensures
        collateral_amount <= 0 ==> open_response(ledger, collateral_amount, debt_amount, leverage)
            == Err::<u64, LoopingError>(LoopingError::InvalidCollateral),
        collateral_amount > 0 && debt_amount < 0 ==> open_response(
            ledger,
            collateral_amount,
            debt_amount,
            leverage,
        ) == Err::<u64, LoopingError>(LoopingError::InvalidDebt),
        collateral_amount > 0 && debt_amount >= 0 && !(100 <= leverage <= 500) ==> open_response(
            ledger,
            collateral_amount,
            debt_amount,
            leverage,
        ) == Err::<u64, LoopingError>(LoopingError::InvalidLeverage),
{
}

/// The id handed out by a successful open is one more than the number of
/// positions opened before it; a missing stored counter counts as zero.
pub proof fn law_next_id_is_counter_plus_one(
    ledger: Seq<Position>,
    collateral_amount: i128,
    debt_amount: i128,
    leverage: u32,
    counter: u64,
)
    ensures
        stored_count(None) == 0,
        stored_count(Some(counter)) == counter,
        (collateral_amount > 0 && debt_amount >= 0 && 100 <= leverage <= 500) ==> open_response(
            ledger,
            collateral_amount,
            debt_amount,
            leverage,
        ) == Ok::<u64, LoopingError>((ledger.len() + 1) as u64),
{
}

/// A refused request, open or close, leaves every stored position as it was.
pub proof fn law_refusal_changes_nothing(
    ledger: Seq<Position>,
    user: Address,
    collateral_asset: Address,
    collateral_amount: i128,
    debt_asset: Address,
    debt_amount: i128,
    leverage: u32,
    position_id: u64,
)
    ensures
        open_response(ledger, collateral_amount, debt_amount, leverage) is Err ==> ledger_after_open(
            ledger,
            user,
            collateral_asset,
            collateral_amount,
            debt_asset,
            debt_amount,
            leverage,
        ) == ledger,
        close_response(ledger, user, position_id) is Err ==> ledger_after_close(
            ledger,
            user,
            position_id,
        ) == ledger,
{
}

/// The first position opened on an empty ledger gets id 1, and each
/// successful open returns the id after the latest one: ids increase by one
/// from open to open and never repeat.
pub proof fn law_ids_are_consecutive(
    ledger: Seq<Position>,
    user: Address,
    collateral_asset: Address,
    collateral_amount: i128,
    debt_asset: Address,
    debt_amount: i128,
    leverage: u32,
    next_collateral_amount: i128,
    next_debt_amount: i128,
    next_leverage: u32,
)
    requires
        ledger.len() + 2 <= u64::MAX,
        valid_open_request(collateral_amount, debt_amount, leverage),
        valid_open_request(next_collateral_amount, next_debt_amount, next_leverage),
    ensures
        ledger.len() == 0 ==> open_response(ledger, collateral_amount, debt_amount, leverage) == Ok::<
            u64,
            LoopingError,
        >(1),
        ({
            let after = ledger_after_open(
                ledger,
                user,
                collateral_asset,
                collateral_amount,
                debt_asset,
                debt_amount,
                leverage,
            );
            &&& open_response(ledger, collateral_amount, debt_amount, leverage) matches Ok(first)
            &&& open_response(after, next_collateral_amount, next_debt_amount, next_leverage) matches Ok(
                second,
            )
            &&& second == first + 1
            &&& record_of(ledger, first) is None
            &&& record_of(after, second) is None
        }),
{
}

/// After a successful open, reading the returned id gives back the full record
/// (owner, assets, amounts, leverage) with status `Open`, and every other id
/// reads as before.
pub proof fn law_open_then_get(
    ledger: Seq<Position>,
    user: Address,
    collateral_asset: Address,
    collateral_amount: i128,
    debt_asset: Address,
    debt_amount: i128,
    leverage: u32,
    other_id: u64,
)
    requires
        ledger.len() < u64::MAX,
        open_response(ledger, collateral_amount, debt_amount, leverage) is Ok,
    ensures
        ({
            let id = open_response(ledger, collateral_amount, debt_amount, leverage)->Ok_0;
            let after = ledger_after_open(
                ledger,
                user,
                collateral_asset,
                collateral_amount,
                debt_asset,
                debt_amount,
                leverage,
            );
            let p = record_of(after, id)->Some_0;
            &&& id == ledger.len() + 1
            &&& after.len() == ledger.len() + 1
            &&& record_of(after, id) is Some
            &&& p.owner == user
            &&& p.collateral_asset == collateral_asset
            &&& p.collateral_amount == collateral_amount
            &&& p.debt_asset == debt_asset
            &&& p.debt_amount == debt_amount
            &&& p.leverage == leverage
            &&& p.status == PositionStatus::Open
            &&& other_id != id ==> record_of(after, other_id) == record_of(ledger, other_id)
        }),
{
}

/// Closing an open position by its owner returns the record with status
/// `Closed` and every other field unchanged, stores that closed record under
/// the same id, and leaves every other id as before.
pub proof fn law_owner_closes_open_position(
    ledger: Seq<Position>,
    user: Address,
    position_id: u64,
    other_id: u64,
)
    requires
        record_of(ledger, position_id) matches Some(p) && p.owner@ == user@ && p.status
            == PositionStatus::Open,
    ensures
        ({
            let p = record_of(ledger, position_id)->Some_0;
            let after = ledger_after_close(ledger, user, position_id);
            &&& close_response(ledger, user, position_id) == Ok::<Position, LoopingError>(p.closed())
            &&& record_of(after, position_id) == Some(p.closed())
            &&& p.closed().owner == p.owner
            &&& p.closed().collateral_asset == p.collateral_asset
            &&& p.closed().collateral_amount == p.collateral_amount
            &&& p.closed().debt_asset == p.debt_asset
            &&& p.closed().debt_amount == p.debt_amount
            &&& p.closed().leverage == p.leverage
            &&& p.closed().status == PositionStatus::Closed
            &&& after.len() == ledger.len()
            &&& other_id != position_id ==> record_of(after, other_id) == record_of(ledger, other_id)
        }),
{
}

/// A position opened and then closed by its owner reads back closed, with the
/// owner, assets, amounts and leverage it was opened with.
pub proof fn law_open_close_round_trip(
    ledger: Seq<Position>,
    user: Address,
    collateral_asset: Address,
    collateral_amount: i128,
    debt_asset: Address,
    debt_amount: i128,
    leverage: u32,
)
    requires
        ledger.len() < u64::MAX,
        collateral_amount > 0,
        debt_amount >= 0,
        100 <= leverage <= 500,
    ensures
        ({
            let id = open_response(ledger, collateral_amount, debt_amount, leverage)->Ok_0;
            let opened = ledger_after_open(
                ledger,
                user,
                collateral_asset,
                collateral_amount,
                debt_asset,
                debt_amount,
                leverage,
            );
            let q = close_response(opened, user, id)->Ok_0;
            &&& id == ledger.len() + 1
            &&& close_response(opened, user, id) is Ok
            &&& q.owner == user
            &&& q.collateral_asset == collateral_asset
            &&& q.collateral_amount == collateral_amount
            &&& q.debt_asset == debt_asset
            &&& q.debt_amount == debt_amount
            &&& q.leverage == leverage
            &&& q.status == PositionStatus::Closed
            &&& record_of(ledger_after_close(opened, user, id), id) == Some(q)
        }),
{
    law_open_then_get(
        ledger,
        user,
        collateral_asset,
        collateral_amount,
        debt_asset,
        debt_amount,
        leverage,
        0,
    );
    let id = open_response(ledger, collateral_amount, debt_amount, leverage)->Ok_0;
    let opened = ledger_after_open(
        ledger,
        user,
        collateral_asset,
        collateral_amount,
        debt_asset,
        debt_amount,
        leverage,
    );
    law_owner_closes_open_position(opened, user, id, 0);
}

/// How a close request by `user` is answered, given what is stored under the
/// id: nothing is `PositionNotFound`; another owner's position is
/// `NotPositionOwner`; the owner's closed position is `PositionAlreadyClosed`;
/// the owner's open position comes back with status `Closed` and every other
/// field as stored.
pub proof fn law_close_answers(stored: Option<Position>, user: Address)
    ensures
        stored is None ==> close_outcome(stored, user) == Err::<Position, LoopingError>(
            LoopingError::PositionNotFound,
        ),
        ({
            let p = stored->Some_0;
            let q = close_outcome(stored, user)->Ok_0;
            stored is Some ==> {
                &&& p.owner@ != user@ ==> close_outcome(stored, user) == Err::<Position, LoopingError>(
                    LoopingError::NotPositionOwner,
                )
                &&& p.owner@ == user@ && p.status == PositionStatus::Closed ==> close_outcome(
                    stored,
                    user,
                ) == Err::<Position, LoopingError>(LoopingError::PositionAlreadyClosed)
                &&& p.owner@ == user@ && p.status == PositionStatus::Open ==> {
                    &&& close_outcome(stored, user) is Ok
                    &&& q.owner == p.owner
                    &&& q.collateral_asset == p.collateral_asset
                    &&& q.collateral_amount == p.collateral_amount
                    &&& q.debt_asset == p.debt_asset
                    &&& q.debt_amount == p.debt_amount
                    &&& q.leverage == p.leverage
                    &&& q.status == PositionStatus::Closed
                }
            }
        }),
{
}

/// The record of a freshly opened position holds each argument as given, with
/// status `Open`.
pub proof fn law_opened_record_holds_its_arguments(
    owner: Address,
    collateral_asset: Address,
    collateral_amount: i128,
    debt_asset: Address,
    debt_amount: i128,
    leverage: u32,
)
    ensures
        ({
            let p = opened_position(
                owner,
                collateral_asset,
                collateral_amount,
                debt_asset,
                debt_amount,
                leverage,
            );
            &&& p.owner == owner
            &&& p.collateral_asset == collateral_asset
            &&& p.collateral_amount == collateral_amount
            &&& p.debt_asset == debt_asset
            &&& p.debt_amount == debt_amount
            &&& p.leverage == leverage
            &&& p.status == PositionStatus::Open
        }),
{
}

/// Closing is idempotent in outcome: once a close has succeeded, closing the
/// same position again is refused with `PositionAlreadyClosed` (for its owner)
/// and changes nothing.
pub proof fn law_double_close_is_refused(ledger: Seq<Position>, user: Address, position_id: u64)
    requires
        close_response(ledger, user, position_id) is Ok,
    ensures
        ({
            let after = ledger_after_close(ledger, user, position_id);
            &&& close_response(after, user, position_id) == Err::<Position, LoopingError>(
                LoopingError::PositionAlreadyClosed,
            )
            &&& ledger_after_close(after, user, position_id) == after
        }),
{
}

/// A close request by anyone but the owner of an existing position is refused
/// with `NotPositionOwner` and leaves the position as it was.
pub proof fn law_non_owner_cannot_close(ledger: Seq<Position>, user: Address, position_id: u64)
    requires
        record_of(ledger, position_id) matches Some(p) && p.owner@ != user@,
    ensures
        close_response(ledger, user, position_id) == Err::<Position, LoopingError>(
            LoopingError::NotPositionOwner,
        ),
        ledger_after_close(ledger, user, position_id) == ledger,
{
}

/// A close request for an id under which no position was ever opened is
/// refused with `PositionNotFound`; reading such an id gives `None`.
pub proof fn law_missing_position(ledger: Seq<Position>, user: Address, position_id: u64)
    requires
        position_id == 0 || position_id > ledger.len(),
    ensures
        record_of(ledger, position_id) is None,
        close_response(ledger, user, position_id) == Err::<Position, LoopingError>(
            LoopingError::PositionNotFound,
        ),
{
}

/// No operation removes a position or changes anything in a stored record but
/// its status, and that only from `Open` to `Closed`: a closed position stays
/// closed and unchanged for good, and the position count never decreases.
pub proof fn law_records_only_move_from_open_to_closed(
    ledger: Seq<Position>,
    user: Address,
    collateral_asset: Address,
    collateral_amount: i128,
    debt_asset: Address,
    debt_amount: i128,
    leverage: u32,
    close_id: u64,
    id: u64,
)
    requires
        record_of(ledger, id) is Some,
    ensures
        ({
            let before = record_of(ledger, id)->Some_0;
            let after_open = ledger_after_open(
                ledger,
                user,
                collateral_asset,
                collateral_amount,
                debt_asset,
                debt_amount,
                leverage,
            );
            let after_close = ledger_after_close(ledger, user, close_id);
            &&& after_open.len() >= ledger.len()
            &&& after_close.len() == ledger.len()
            &&& record_of(after_open, id) == Some(before)
            &&& record_of(after_close, id) == Some(before) || record_of(after_close, id) == Some(
                before.closed(),
            ) && before.status == PositionStatus::Open
        }),
{
}

} // verus!

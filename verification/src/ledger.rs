use vstd::prelude::*;

use crate::error::LoopingError;
use crate::position::{Address, Position, PositionStatus};
use crate::rules::{
    check_open_request, close_outcome, close_stored_position, next_position_id,
    open_request_error, opened_position, valid_open_request,
};

verus! {

/// The stored record of position `id` in a ledger that lists the positions in
/// id order (the first position has id 1), or `None` if no position has that id.
pub open spec fn record_of(ledger: Seq<Position>, id: u64) -> Option<Position> {
    if 1 <= id <= ledger.len() {
        Some(ledger[id - 1])
    } else {
        None
    }
}

/// What an open request is answered: the new position's id (one more than the
/// number of positions so far), or the error that refuses it.
pub open spec fn open_response(
    ledger: Seq<Position>,
    collateral_amount: i128,
    debt_amount: i128,
    leverage: u32,
) -> Result<u64, LoopingError> {
    match open_request_error(collateral_amount, debt_amount, leverage) {
        Some(e) => Err(e),
        None => Ok((ledger.len() + 1) as u64),
    }
}

/// The ledger after an open request: the new record appended when the request
/// is valid, the ledger unchanged otherwise.
pub open spec fn ledger_after_open(
    ledger: Seq<Position>,
    owner: Address,
    collateral_asset: Address,
    collateral_amount: i128,
    debt_asset: Address,
    debt_amount: i128,
    leverage: u32,
) -> Seq<Position> {
    if valid_open_request(collateral_amount, debt_amount, leverage) {
        ledger.push(
            opened_position(
                owner,
                collateral_asset,
                collateral_amount,
                debt_asset,
                debt_amount,
                leverage,
            ),
        )
    } else {
        ledger
    }
}

/// What a close request by `user` on position `id` is answered.
pub open spec fn close_response(ledger: Seq<Position>, user: Address, id: u64) -> Result<
    Position,
    LoopingError,
> {
    close_outcome(record_of(ledger, id), user)
}

/// The ledger after a close request: the closed record stored in place when
/// the request succeeds, the ledger unchanged otherwise.
pub open spec fn ledger_after_close(ledger: Seq<Position>, user: Address, id: u64) -> Seq<Position> {
    match close_response(ledger, user, id) {
        Ok(p) => ledger.update(id - 1, p),
        Err(_) => ledger,
    }
}

/// Quantara looping contract: the positions it stores, in id order.
///
/// Position ids are handed out by a counter that starts at zero and is
/// incremented on each open, so the stored positions are exactly those with
/// ids `1..=count`; the ledger keeps them as a sequence whose `i`-th entry is
/// position `i + 1`.
pub struct LoopingContract {
    positions: Vec<Position>,
}

impl View for LoopingContract {
    type V = Seq<Position>;

    closed spec fn view(&self) -> Seq<Position> {
        self.positions@
    }
}

impl LoopingContract {
    /// A contract with no positions (its counter not yet set).
    pub fn new() -> (c: LoopingContract)
        ensures
            c@ == Seq::<Position>::empty(),
    {
        LoopingContract { positions: Vec::new() }
    }

    /// The value of the position counter: the number of positions opened so
    /// far, which is also the id of the latest one.
    pub fn position_count(&self) -> (n: u64)
        ensures
            n == self@.len(),
    {
        self.positions.len() as u64
    }

    /// Open a leveraged position for `user`.
    ///
    /// Records the full position (owner, collateral asset/amount, debt
    /// asset/amount, leverage, status `Open`) under the next position id and
    /// returns that id. Refuses non-positive collateral (`InvalidCollateral`),
    /// negative debt (`InvalidDebt`) and leverage outside 100..=500
    /// (`InvalidLeverage`), in that order, leaving the ledger unchanged.
    pub fn open_position(
        &mut self,
        user: Address,
        collateral_asset: Address,
        collateral_amount: i128,
        debt_asset: Address,
        debt_amount: i128,
        leverage: u32,
    ) -> (r: Result<u64, LoopingError>)
        requires
            old(self)@.len() < u64::MAX,
        ensures
            r is Ok <==> (collateral_amount > 0 && debt_amount >= 0 && 100 <= leverage <= 500),
            collateral_amount <= 0 ==> r == Err::<u64, LoopingError>(LoopingError::InvalidCollateral),
            collateral_amount > 0 && debt_amount < 0 ==> r == Err::<u64, LoopingError>(
                LoopingError::InvalidDebt,
            ),
            collateral_amount > 0 && debt_amount >= 0 && !(100 <= leverage <= 500) ==> r == Err::<
                u64,
                LoopingError,
            >(LoopingError::InvalidLeverage),
            r is Err ==> final(self)@ == old(self)@,
            ({
                let id = r->Ok_0;
                let p = final(self)@[id - 1];
                r is Ok ==> {
                    &&& id == old(self)@.len() + 1
                    &&& final(self)@.len() == id
                    &&& forall|i: int| 0 <= i < old(self)@.len() ==> final(self)@[i] == old(self)@[i]
                    &&& p.owner == user
                    &&& p.collateral_asset == collateral_asset
                    &&& p.collateral_amount == collateral_amount
                    &&& p.debt_asset == debt_asset
                    &&& p.debt_amount == debt_amount
                    &&& p.leverage == leverage
                    &&& p.status == PositionStatus::Open
                }
            }),
            r == open_response(old(self)@, collateral_amount, debt_amount, leverage),
            final(self)@ == ledger_after_open(
                old(self)@,
                user,
                collateral_asset,
                collateral_amount,
                debt_asset,
                debt_amount,
                leverage,
            ),
    {
        match check_open_request(collateral_amount, debt_amount, leverage) {
            Ok(()) => {},
            Err(e) => return Err(e),
        }
        let position_id = next_position_id(Some(self.position_count()));
        let position = Position::new_open(
            user,
            collateral_asset,
            collateral_amount,
            debt_asset,
            debt_amount,
            leverage,
        );
        self.positions.push(position);
        Ok(position_id)
    }

    /// Close an existing leveraged position on behalf of `user`.
    ///
    /// The position must exist (`PositionNotFound`), be owned by `user`
    /// (`NotPositionOwner`) and be open (`PositionAlreadyClosed`); these are
    /// checked in that order and a refusal leaves the ledger unchanged. On
    /// success the stored record's status becomes `Closed`, every other field
    /// is kept, and the closed record is returned.
    pub fn close_position(&mut self, user: Address, position_id: u64) -> (r: Result<
        Position,
        LoopingError,
    >)
        ensures
            position_id == 0 || position_id > old(self)@.len() ==> r == Err::<Position, LoopingError>(
                LoopingError::PositionNotFound,
            ),
            ({
                let p = old(self)@[position_id - 1];
                let q = r->Ok_0;
                1 <= position_id <= old(self)@.len() ==> {
                    &&& p.owner@ != user@ ==> r == Err::<Position, LoopingError>(
                        LoopingError::NotPositionOwner,
                    )
                    &&& p.owner@ == user@ && p.status == PositionStatus::Closed ==> r == Err::<
                        Position,
                        LoopingError,
                    >(LoopingError::PositionAlreadyClosed)
                    &&& p.owner@ == user@ && p.status == PositionStatus::Open ==> {
                        &&& r is Ok
                        &&& q.owner == p.owner
                        &&& q.collateral_asset == p.collateral_asset
                        &&& q.collateral_amount == p.collateral_amount
                        &&& q.debt_asset == p.debt_asset
                        &&& q.debt_amount == p.debt_amount
                        &&& q.leverage == p.leverage
                        &&& q.status == PositionStatus::Closed
                        &&& final(self)@.len() == old(self)@.len()
                        &&& final(self)@[position_id - 1] == q
                        &&& forall|i: int|
                            0 <= i < old(self)@.len() && i != position_id - 1 ==> final(self)@[i]
                                == old(self)@[i]
                    }
                }
            }),
            r is Err ==> final(self)@ == old(self)@,
            r == close_response(old(self)@, user, position_id),
            final(self)@ == ledger_after_close(old(self)@, user, position_id),
    {
        let position = match self.load_position(position_id) {
            Ok(p) => p,
            Err(e) => return Err(e),
        };
        let closed = match close_stored_position(Some(position), &user) {
            Ok(p) => p,
            Err(e) => return Err(e),
        };
        let stored_count = self.positions.len();
        assert(1 <= position_id <= stored_count);
        let index = (position_id - 1) as usize;
        self.positions.set(index, closed.clone());
        Ok(closed)
    }

    /// The stored record of a position, or `None` if it does not exist.
    pub fn get_position(&self, position_id: u64) -> (r: Option<Position>)
        ensures
            1 <= position_id <= self@.len() ==> r == Some(self@[position_id - 1]),
            !(1 <= position_id <= self@.len()) ==> r is None,
            r == record_of(self@, position_id),
    {
        let len = self.positions.len();
        if 1 <= position_id && position_id <= len as u64 {
            let index = (position_id - 1) as usize;
            Some(self.positions[index].clone())
        } else {
            None
        }
    }

    /// The stored record of a position, or `PositionNotFound`.
    fn load_position(&self, position_id: u64) -> (r: Result<Position, LoopingError>)
        ensures
            r == match record_of(self@, position_id) {
                Some(p) => Ok(p),
                None => Err(LoopingError::PositionNotFound),
            },
    {
        match self.get_position(position_id) {
            Some(p) => Ok(p),
            None => Err(LoopingError::PositionNotFound),
        }
    }
}

} // verus!

use vstd::prelude::*;

verus! {

/// An account or contract address, held by its strkey text form
/// (`G...` for an account, `C...` for a contract).
///
/// Two addresses are the same address exactly when their strkeys agree.
#[derive(Debug, PartialEq, Eq)]
pub struct Address {
    strkey: String,
}

impl View for Address {
    type V = Seq<char>;

    open spec fn view(&self) -> Seq<char> {
        self.spec_strkey()
    }
}

impl Address {
    /// The strkey of this address.
    pub closed spec fn spec_strkey(&self) -> Seq<char> {
        self.strkey@
    }

    /// The address whose strkey is `strkey`.
    pub fn from_strkey(strkey: String) -> (a: Address)
        ensures
            a@ == strkey@,
    {
        Address { strkey }
    }

    /// The strkey of this address.
    pub fn strkey(&self) -> (s: &String)
        ensures
            s@ == self@,
    {
        &self.strkey
    }

    /// Whether `self` and `other` are the same address.
    pub fn same_as(&self, other: &Address) -> (b: bool)
        ensures
            b == (self@ == other@),
    {
        self.strkey == other.strkey
    }
}

impl Clone for Address {
    fn clone(&self) -> (a: Self)
        ensures
            a == *self,
    {
        Address { strkey: self.strkey.clone() }
    }
}

/// On-chain lifecycle status of a looping position.
///
/// A position is created `Open` and transitions to `Closed` exactly once.
#[derive(Copy, Clone, Debug, PartialEq, Eq, Structural)]
pub enum PositionStatus {
    /// Position is open and can be closed by its owner.
    Open,
    /// Position has been closed; further closes are rejected.
    Closed,
}

/// On-chain record of a single leveraged position.
#[derive(Debug, PartialEq, Eq)]
pub struct Position {
    /// The wallet address that owns the position.
    pub owner: Address,
    /// Collateral token (Stellar Asset Contract id) backing the position.
    pub collateral_asset: Address,
    /// Collateral amount deposited (in base units).
    pub collateral_amount: i128,
    /// Debt token (Stellar Asset Contract id) borrowed for the position.
    pub debt_asset: Address,
    /// Debt amount borrowed (in base units).
    pub debt_amount: i128,
    /// Leverage multiplier (1x-5x, scaled x100).
    pub leverage: u32,
    /// Current lifecycle status of the position.
    pub status: PositionStatus,
}

impl Position {
    /// The same record with its status set to `Closed`.
    pub open spec fn closed(self) -> Position {
        Position { status: PositionStatus::Closed, ..self }
    }
}

impl Clone for Position {
    fn clone(&self) -> (p: Self)
        ensures
            p == *self,
    {
        Position {
            owner: self.owner.clone(),
            collateral_asset: self.collateral_asset.clone(),
            collateral_amount: self.collateral_amount,
            debt_asset: self.debt_asset.clone(),
            debt_amount: self.debt_amount,
            leverage: self.leverage,
            status: self.status,
        }
    }
}

} // verus!

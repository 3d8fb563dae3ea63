use crate::decimal::Decimal;
use vstd::prelude::*;
use vstd::string::*;

verus! {

/// Where market data comes from and where orders go.
#[derive(Clone, Copy, Debug, PartialEq, Eq, Hash, Structural)]
pub enum DataSource {
    /// The Bybit exchange.
    Bybit,
    /// A stand-in that fills every order and reports the given balance.
    Dummy(u64),
}

/// Which of the venue's networks to talk to.
#[derive(Clone, Copy, Debug, PartialEq, Eq, Hash, Structural)]
pub enum NetVersion {
    Testnet,
    Mainnet,
}

/// What the venue reports of the account: the balance that is free to be
/// put into new positions.
#[derive(Clone, Copy, Debug, PartialEq, Eq, Structural)]
pub struct Wallet {
    pub total_available_balance: Decimal,
}

impl DataSource {
    /// The name under which the source is shown and stored.
    pub open spec fn spec_label(self) -> Seq<char> {
        match self {
            DataSource::Bybit => "Bybit"@,
            DataSource::Dummy(_) => "Dummy"@,
        }
    }

    pub fn label(&self) -> (s: String)
        ensures
            s@ == self.spec_label(),
    {
        match self {
            DataSource::Bybit => String::from_str("Bybit"),
            DataSource::Dummy(_) => String::from_str("Dummy"),
        }
    }
}

} // verus!

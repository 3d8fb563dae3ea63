use crate::decimal::Decimal;
use uuid::Uuid;
use vstd::prelude::*;

verus! {

/// `uuid::Uuid`, carried through as an opaque value.
#[verifier::external_type_specification]
#[verifier::external_body]
pub struct ExUuid(uuid::Uuid);

/// The stored form of one trade: written when the position is entered,
/// completed once when it is exited.
///
/// Timestamps are milliseconds since the Unix epoch.
#[derive(Debug, PartialEq, Eq)]
pub struct DBTrade {
    pub id: Uuid,
    pub symbol: String,
    pub interval: String,
    pub orientation: String,
    pub trading_strategy: String,
    pub resolution_strategy: String,
    pub data_source: String,
    pub entered_at: i64,
    pub exited_at: Option<i64>,
    pub bars_in_trade: Option<i64>,
    pub entry_price: Decimal,
    pub exit_price: Option<Decimal>,
    pub quantity: Decimal,
    pub dollar_value: Decimal,
    pub entry_fee: Decimal,
    pub exit_fee: Option<Decimal>,
    pub comments: Option<String>,
}

pub struct DBTradeView {
    pub id: Uuid,
    pub symbol: Seq<char>,
    pub interval: Seq<char>,
    pub orientation: Seq<char>,
    pub trading_strategy: Seq<char>,
    pub resolution_strategy: Seq<char>,
    pub data_source: Seq<char>,
    pub entered_at: i64,
    pub exited_at: Option<i64>,
    pub bars_in_trade: Option<i64>,
    pub entry_price: Decimal,
    pub exit_price: Option<Decimal>,
    pub quantity: Decimal,
    pub dollar_value: Decimal,
    pub entry_fee: Decimal,
    pub exit_fee: Option<Decimal>,
    pub comments: Option<Seq<char>>,
}

impl View for DBTrade {
    type V = DBTradeView;

    open spec fn view(&self) -> DBTradeView {
        DBTradeView {
            id: self.id,
            symbol: self.symbol@,
            interval: self.interval@,
            orientation: self.orientation@,
            trading_strategy: self.trading_strategy@,
            resolution_strategy: self.resolution_strategy@,
            data_source: self.data_source@,
            entered_at: self.entered_at,
            exited_at: self.exited_at,
            bars_in_trade: self.bars_in_trade,
            entry_price: self.entry_price,
            exit_price: self.exit_price,
            quantity: self.quantity,
            dollar_value: self.dollar_value,
            entry_fee: self.entry_fee,
            exit_fee: self.exit_fee,
            comments: match self.comments {
                Some(c) => Some(c@),
                None => None,
            },
        }
    }
}

/// Asks the store to insert the record of a trade that was entered.
#[derive(Debug, PartialEq, Eq)]
pub struct CreateDBTradePayload {
    pub db_trade: DBTrade,
}

/// Asks the store to complete the record of the trade `id` with what is
/// known at its exit.
#[derive(Clone, Copy, Debug, PartialEq, Eq)]
pub struct FinishDBTradePayload {
    pub id: Uuid,
    pub exited_at: i64,
    pub bars_in_trade: i64,
    pub exit_price: Decimal,
}

} // verus!

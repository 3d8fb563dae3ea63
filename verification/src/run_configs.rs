pub mod manual_candles;
pub mod multiple_strategies;

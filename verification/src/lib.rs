//! The decision-making core of a trading engine.
//!
//! A market-data feed turns a stream of candle updates into closed candles
//! (`bybit_ws_api`). A time series stores them, keeps indicators up to date
//! and tells its subscribers of every append (`timeseries`). A setup finder
//! asks a strategy for entry signals and decides when a trade is started
//! (`setup_finder`). A trade watches its exit policy and ends itself
//! (`trade`).
//!
//! Nothing here waits, sends or stores. Every component takes in what has
//! happened as plain values and hands back what is to be done; whoever runs
//! the components performs it and reports back.

pub mod addresses;
pub mod bybit_ws_api;
pub mod calculators;
pub mod candle;
pub mod data_source;
pub mod database;
pub mod decimal;
pub mod indicators;
pub mod interval;
pub mod payloads;
pub mod resolution;
pub mod run_configs;
pub mod setup;
pub mod setup_finder;
pub mod setup_finder_builder;
pub mod strategy;
pub mod timeseries;
pub mod timeseries_builder;
pub mod trade;
pub mod trade_builder;

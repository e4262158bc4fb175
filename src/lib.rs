//! Accounting core of a binary-outcome prediction market: market records with
//! two liquidity pools, trade volume, and a one-way, authority-gated resolution.
pub mod key;
pub mod laws;
pub mod market;

pub use key::Key;
pub use market::{
    initialize_market, place_trade, resolve_market, CustomError, InitializeMarket, MarketResolvedEvent,
    MarketState, PlaceTrade, ResolveMarket, Side, TradeEvent,
};

use vstd::prelude::*;

use crate::key::Key;

verus! {

/// Bytes reserved for the question in a stored market record.
pub const QUESTION_SPACE: usize = 200;

/// Longest question, in UTF-8 bytes, that fits its reserved slot: four bytes
/// of the slot hold the length prefix, and one more is kept for the outcome
/// tag that resolution adds to the record.
pub const MAX_QUESTION_BYTES: usize = 195;

/// The outcome a trade backs, or that a market resolves to.
#[derive(Clone, Copy, Debug, PartialEq, Eq, Structural)]
pub enum Side {
    Yes,
    No,
}

/// Why an operation on a market was refused. A refused operation changes
/// nothing.
#[derive(Clone, Copy, Debug, PartialEq, Eq, Structural)]
pub enum CustomError {
    /// The caller of a resolution is not the market's authority.
    Unauthorized,
    /// The market was resolved before.
    MarketAlreadyResolved,
    /// A pool or the volume would exceed `u64::MAX`.
    Overflow,
    /// The question does not fit the space reserved for it.
    QuestionTooLong,
}

/// One prediction market.
#[derive(Clone, Debug, PartialEq, Eq)]
pub struct MarketState {
    /// The only identity that may resolve the market.
    pub authority: Key,
    pub question: String,
    pub liquidity_yes: u64,
    pub liquidity_no: u64,
    /// Sum of all trade amounts, both sides combined.
    pub volume: u64,
    /// Advisory end of trading; no operation enforces it.
    pub end_timestamp: i64,
    pub resolved: bool,
    pub winning_outcome: Option<Side>,
}

/// Notice of a trade applied to a market.
#[derive(Clone, Copy, Debug, PartialEq, Eq)]
pub struct TradeEvent {
    pub market_id: Key,
    pub user: Key,
    pub side: Side,
    pub amount: u64,
    pub timestamp: i64,
}

/// Notice of a market's resolution.
#[derive(Clone, Copy, Debug, PartialEq, Eq)]
pub struct MarketResolvedEvent {
    pub market_id: Key,
    pub winner: Side,
    pub timestamp: i64,
}

/// Who opens a market.
#[derive(Clone, Copy, Debug)]
pub struct InitializeMarket {
    /// The signer that opens the market and becomes its authority.
    pub authority: Key,
}

/// Who trades on which market, and when.
#[derive(Clone, Copy, Debug)]
pub struct PlaceTrade {
    /// Where the market record is stored.
    pub market_id: Key,
    /// The signer placing the trade.
    pub user: Key,
    /// Current time, from the host's clock.
    pub timestamp: i64,
}

/// Who asks to resolve which market, and when.
#[derive(Clone, Copy, Debug)]
pub struct ResolveMarket {
    /// Where the market record is stored.
    pub market_id: Key,
    /// The signer asking for resolution.
    pub authority: Key,
    /// Current time, from the host's clock.
    pub timestamp: i64,
}

impl MarketState {
    /// A winning outcome is recorded exactly when the market is resolved.
    pub open spec fn outcome_consistent(self) -> bool {
        self.resolved <==> self.winning_outcome is Some
    }
}

/// The UTF-8 length of a question, in bytes, as `str::len` gives it.
pub open spec fn question_bytes(question: Seq<char>) -> usize {
    vstd::utf8::encode_utf8(question).len() as usize
}

/// The record that `initialize_market` creates.
pub open spec fn opened(
    authority: Key,
    question: String,
    amount_yes: u64,
    amount_no: u64,
    end_timestamp: i64,
) -> MarketState {
    MarketState {
        authority,
        question,
        liquidity_yes: amount_yes,
        liquidity_no: amount_no,
        volume: 0,
        end_timestamp,
        resolved: false,
        winning_outcome: None,
    }
}

/// The pool that `side` credits, before a trade.
pub open spec fn pool(market: MarketState, side: Side) -> u64 {
    match side {
        Side::Yes => market.liquidity_yes,
        Side::No => market.liquidity_no,
    }
}

/// Whether a trade of `amount` on `side` keeps its pool and the volume within
/// `u64`.
pub open spec fn trade_fits(market: MarketState, side: Side, amount: u64) -> bool {
    pool(market, side) + amount <= u64::MAX && market.volume + amount <= u64::MAX
}

/// The record after a trade of `amount` on `side`: that side's pool and the
/// volume grow by `amount`, and nothing else changes.
pub open spec fn traded(market: MarketState, side: Side, amount: u64) -> MarketState {
    MarketState {
        liquidity_yes: if side == Side::Yes {
            (market.liquidity_yes + amount) as u64
        } else {
            market.liquidity_yes
        },
        liquidity_no: if side == Side::No {
            (market.liquidity_no + amount) as u64
        } else {
            market.liquidity_no
        },
        volume: (market.volume + amount) as u64,
        ..market
    }
}

/// The refusal that a resolution asked by `caller` meets, checked in order:
/// the caller must be the authority, and the market must be unresolved.
pub open spec fn resolution_refusal(market: MarketState, caller: Seq<u8>) -> Option<CustomError> {
    if caller != market.authority@ {
        Some(CustomError::Unauthorized)
    } else if market.resolved {
        Some(CustomError::MarketAlreadyResolved)
    } else {
        None
    }
}

/// The record after resolution with `winner`.
pub open spec fn resolved_with(market: MarketState, winner: Side) -> MarketState {
    MarketState { resolved: true, winning_outcome: Some(winner), ..market }
}

/// Whether `after` is `before` changed by one successful operation, or left
/// as it was by a refused one.
pub open spec fn market_step(before: MarketState, after: MarketState) -> bool {
    after == before || (exists|side: Side, amount: u64|
        trade_fits(before, side, amount) && after == #[trigger] traded(before, side, amount)) || (
    !before.resolved && exists|winner: Side| after == #[trigger] resolved_with(before, winner))
}

/// Opens a market: `ctx.authority` becomes its authority, the pools start at
/// `amount_yes` and `amount_no`, the volume at zero, and the market is
/// unresolved. Fails with `QuestionTooLong` exactly when the question exceeds
/// `MAX_QUESTION_BYTES` UTF-8 bytes.
pub fn initialize_market(
    ctx: &InitializeMarket,
    question: String,
    amount_yes: u64,
    amount_no: u64,
    end_timestamp: i64,
) -> (r: Result<MarketState, CustomError>)
    ensures
        question_bytes(question@) <= MAX_QUESTION_BYTES ==> r == Ok::<MarketState, CustomError>(
            opened(ctx.authority, question, amount_yes, amount_no, end_timestamp),
        ),
        question_bytes(question@) > MAX_QUESTION_BYTES ==> r == Err::<MarketState, CustomError>(
            CustomError::QuestionTooLong,
        ),
        r matches Ok(m) ==> m.outcome_consistent(),
{
    if question.as_str().len() > MAX_QUESTION_BYTES {
        return Err(CustomError::QuestionTooLong);
    }
    Ok(
        MarketState {
            authority: ctx.authority,
            question,
            liquidity_yes: amount_yes,
            liquidity_no: amount_no,
            volume: 0,
            end_timestamp,
            resolved: false,
            winning_outcome: None,
        },
    )
}

/// Applies a trade of `amount` on `side`: that side's pool and the volume grow
/// by `amount`, and the trade is reported. Neither resolution nor the end
/// timestamp stops a trade. Fails with `Overflow`, changing nothing, exactly
/// when the pool or the volume would exceed `u64::MAX`.
pub fn place_trade(market: &mut MarketState, ctx: &PlaceTrade, side: Side, amount: u64) -> (r:
    Result<TradeEvent, CustomError>)
    ensures
        trade_fits(*old(market), side, amount) ==> *final(market) == traded(
            *old(market),
            side,
            amount,
        ) && r == Ok::<TradeEvent, CustomError>(
            TradeEvent {
                market_id: ctx.market_id,
                user: ctx.user,
                side,
                amount,
                timestamp: ctx.timestamp,
            },
        ),
        !trade_fits(*old(market), side, amount) ==> *final(market) == *old(market) && r == Err::<
            TradeEvent,
            CustomError,
        >(CustomError::Overflow),
        market_step(*old(market), *final(market)),
        old(market).outcome_consistent() ==> final(market).outcome_consistent(),
{
    let pool_now = match side {
        Side::Yes => market.liquidity_yes,
        Side::No => market.liquidity_no,
    };
    let new_pool = match pool_now.checked_add(amount) {
        Some(v) => v,
        None => return Err(CustomError::Overflow),
    };
    let new_volume = match market.volume.checked_add(amount) {
        Some(v) => v,
        None => return Err(CustomError::Overflow),
    };
    match side {
        Side::Yes => market.liquidity_yes = new_pool,
        Side::No => market.liquidity_no = new_pool,
    }
    market.volume = new_volume;
    assert(*market == traded(*old(market), side, amount));
    Ok(TradeEvent { market_id: ctx.market_id, user: ctx.user, side, amount, timestamp: ctx.timestamp })
}

/// Resolves the market with `winner`. Fails with `Unauthorized` when
/// `ctx.authority` is not the market's authority, else with
/// `MarketAlreadyResolved` when it was resolved before; a refusal changes
/// nothing. On success the market is resolved with `winner`, all else kept.
pub fn resolve_market(market: &mut MarketState, ctx: &ResolveMarket, winner: Side) -> (r: Result<
    MarketResolvedEvent,
    CustomError,
>)
    ensures
        resolution_refusal(*old(market), ctx.authority@) matches Some(e) ==> *final(market)
            == *old(market) && r == Err::<MarketResolvedEvent, CustomError>(e),
        resolution_refusal(*old(market), ctx.authority@) is None ==> *final(market) == resolved_with(
            *old(market),
            winner,
        ) && r == Ok::<MarketResolvedEvent, CustomError>(
            MarketResolvedEvent { market_id: ctx.market_id, winner, timestamp: ctx.timestamp },
        ),
        market_step(*old(market), *final(market)),
        old(market).outcome_consistent() ==> final(market).outcome_consistent(),
{
    if !market.authority.same_as(&ctx.authority) {
        return Err(CustomError::Unauthorized);
    }
    if market.resolved {
        return Err(CustomError::MarketAlreadyResolved);
    }
    market.resolved = true;
    market.winning_outcome = Some(winner);
    assert(*market == resolved_with(*old(market), winner));
    Ok(MarketResolvedEvent { market_id: ctx.market_id, winner, timestamp: ctx.timestamp })
}

} // verus!

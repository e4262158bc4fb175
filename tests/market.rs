use nexus::{
    initialize_market, place_trade, resolve_market, CustomError, InitializeMarket, Key,
    MarketResolvedEvent, MarketState, PlaceTrade, ResolveMarket, Side, TradeEvent,
};

fn key(b: u8) -> Key {
    Key::new([b; 32])
}

fn open(amount_yes: u64, amount_no: u64) -> MarketState {
    let ctx = InitializeMarket { authority: key(1) };
    initialize_market(&ctx, String::from("Will it rain tomorrow?"), amount_yes, amount_no, 1_700_000_000)
        .unwrap()
}

fn trade_ctx() -> PlaceTrade {
    PlaceTrade { market_id: key(9), user: key(2), timestamp: 1_600_000_000 }
}

fn resolve_ctx(by: u8) -> ResolveMarket {
    ResolveMarket { market_id: key(9), authority: key(by), timestamp: 1_800_000_000 }
}

#[test]
fn init_sets_every_field() {
    let m = open(100, 40);
    assert_eq!(m.authority, key(1));
    assert_eq!(m.question, "Will it rain tomorrow?");
    assert_eq!(m.liquidity_yes, 100);
    assert_eq!(m.liquidity_no, 40);
    assert_eq!(m.volume, 0);
    assert_eq!(m.end_timestamp, 1_700_000_000);
    assert!(!m.resolved);
    assert_eq!(m.winning_outcome, None);
}

#[test]
fn init_accepts_zero_amounts_and_past_deadline() {
    let ctx = InitializeMarket { authority: key(3) };
    let m = initialize_market(&ctx, String::new(), 0, 0, -5).unwrap();
    assert_eq!((m.liquidity_yes, m.liquidity_no, m.volume), (0, 0, 0));
    assert_eq!(m.end_timestamp, -5);
}

#[test]
fn init_question_capacity_edge() {
    let ctx = InitializeMarket { authority: key(1) };
    let longest = "q".repeat(195);
    assert!(initialize_market(&ctx, longest, 1, 1, 0).is_ok());
    let too_long = "q".repeat(196);
    assert_eq!(initialize_market(&ctx, too_long, 1, 1, 0), Err(CustomError::QuestionTooLong));
    // Capacity counts UTF-8 bytes: 98 two-byte characters take 196 bytes.
    let wide = "é".repeat(98);
    assert_eq!(initialize_market(&ctx, wide, 1, 1, 0), Err(CustomError::QuestionTooLong));
}

#[test]
fn example_scenario() {
    let mut m = open(100, 100);
    let e = place_trade(&mut m, &trade_ctx(), Side::Yes, 50).unwrap();
    assert_eq!(
        e,
        TradeEvent { market_id: key(9), user: key(2), side: Side::Yes, amount: 50, timestamp: 1_600_000_000 }
    );
    assert_eq!((m.liquidity_yes, m.liquidity_no, m.volume), (150, 100, 50));
    place_trade(&mut m, &trade_ctx(), Side::No, 30).unwrap();
    assert_eq!((m.liquidity_yes, m.liquidity_no, m.volume), (150, 130, 80));
    let r = resolve_market(&mut m, &resolve_ctx(1), Side::Yes).unwrap();
    assert_eq!(r, MarketResolvedEvent { market_id: key(9), winner: Side::Yes, timestamp: 1_800_000_000 });
    assert!(m.resolved);
    assert_eq!(m.winning_outcome, Some(Side::Yes));
    let before = m.clone();
    assert_eq!(resolve_market(&mut m, &resolve_ctx(1), Side::No), Err(CustomError::MarketAlreadyResolved));
    assert_eq!(m, before);
}

#[test]
fn volume_is_sum_of_amounts_whatever_the_side() {
    let mut m = open(7, 9);
    let trades = [(Side::Yes, 5u64), (Side::No, 11), (Side::No, 0), (Side::Yes, 3), (Side::No, 21)];
    for (side, amount) in trades {
        place_trade(&mut m, &trade_ctx(), side, amount).unwrap();
    }
    assert_eq!(m.volume, 40);
    assert_eq!(m.liquidity_yes, 15);
    assert_eq!(m.liquidity_no, 41);
}

#[test]
fn pools_never_decrease() {
    let mut m = open(10, 10);
    let mut last = (m.liquidity_yes, m.liquidity_no, m.volume);
    let steps = [(Side::No, 4u64), (Side::Yes, 0), (Side::Yes, u64::MAX), (Side::Yes, 6)];
    for (side, amount) in steps {
        let _ = place_trade(&mut m, &trade_ctx(), side, amount);
        let now = (m.liquidity_yes, m.liquidity_no, m.volume);
        assert!(now.0 >= last.0 && now.1 >= last.1 && now.2 >= last.2);
        last = now;
    }
    let _ = resolve_market(&mut m, &resolve_ctx(1), Side::No);
    assert_eq!((m.liquidity_yes, m.liquidity_no, m.volume), last);
    assert_eq!(last, (16, 14, 10));
}

#[test]
fn zero_trade_is_reported_and_changes_nothing() {
    let mut m = open(1, 2);
    let e = place_trade(&mut m, &trade_ctx(), Side::No, 0).unwrap();
    assert_eq!(e.amount, 0);
    assert_eq!(e.side, Side::No);
    assert_eq!((m.liquidity_yes, m.liquidity_no, m.volume), (1, 2, 0));
}

#[test]
fn trade_overflow_is_refused_unchanged() {
    let mut m = open(u64::MAX - 1, 0);
    let before = m.clone();
    assert_eq!(place_trade(&mut m, &trade_ctx(), Side::Yes, 2), Err(CustomError::Overflow));
    assert_eq!(m, before);
    place_trade(&mut m, &trade_ctx(), Side::Yes, 1).unwrap();
    assert_eq!(m.liquidity_yes, u64::MAX);
    assert_eq!(m.volume, 1);
}

#[test]
fn volume_overflow_is_refused_unchanged() {
    let mut m = open(0, 0);
    place_trade(&mut m, &trade_ctx(), Side::Yes, u64::MAX).unwrap();
    let before = m.clone();
    assert_eq!(place_trade(&mut m, &trade_ctx(), Side::No, 1), Err(CustomError::Overflow));
    assert_eq!(m, before);
}

#[test]
fn trades_still_accepted_after_resolution() {
    let mut m = open(5, 5);
    resolve_market(&mut m, &resolve_ctx(1), Side::No).unwrap();
    place_trade(&mut m, &trade_ctx(), Side::Yes, 4).unwrap();
    assert_eq!((m.liquidity_yes, m.volume), (9, 4));
    assert_eq!(m.winning_outcome, Some(Side::No));
}

#[test]
fn stranger_cannot_resolve() {
    let mut m = open(3, 4);
    place_trade(&mut m, &trade_ctx(), Side::No, 6).unwrap();
    let before = m.clone();
    assert_eq!(resolve_market(&mut m, &resolve_ctx(2), Side::Yes), Err(CustomError::Unauthorized));
    assert_eq!(m, before);
    assert!(!m.resolved);
    assert_eq!(m.winning_outcome, None);
}

#[test]
fn key_differing_in_last_byte_is_another_identity() {
    let mut bytes = [1u8; 32];
    bytes[31] = 0;
    let mut m = open(0, 0);
    let ctx = ResolveMarket { market_id: key(9), authority: Key::new(bytes), timestamp: 0 };
    assert_eq!(resolve_market(&mut m, &ctx, Side::Yes), Err(CustomError::Unauthorized));
    assert!(key(1).same_as(&key(1)));
    assert!(!key(1).same_as(&Key::new(bytes)));
    assert_eq!(Key::new(bytes).to_bytes(), bytes);
}

#[test]
fn resolution_is_final_for_every_caller() {
    let mut m = open(1, 1);
    resolve_market(&mut m, &resolve_ctx(1), Side::No).unwrap();
    for (by, winner) in [(1u8, Side::Yes), (1, Side::No), (2, Side::Yes)] {
        assert!(resolve_market(&mut m, &resolve_ctx(by), winner).is_err());
        assert!(m.resolved);
        assert_eq!(m.winning_outcome, Some(Side::No));
    }
    assert_eq!(resolve_market(&mut m, &resolve_ctx(2), Side::Yes), Err(CustomError::Unauthorized));
}

#[test]
fn outcome_recorded_exactly_when_resolved() {
    let mut m = open(2, 2);
    assert_eq!(m.resolved, m.winning_outcome.is_some());
    place_trade(&mut m, &trade_ctx(), Side::Yes, 1).unwrap();
    assert_eq!(m.resolved, m.winning_outcome.is_some());
    let _ = resolve_market(&mut m, &resolve_ctx(2), Side::Yes);
    assert_eq!(m.resolved, m.winning_outcome.is_some());
    resolve_market(&mut m, &resolve_ctx(1), Side::Yes).unwrap();
    assert_eq!(m.resolved, m.winning_outcome.is_some());
    assert!(m.resolved);
}

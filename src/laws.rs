use vstd::prelude::*;

use crate::key::Key;
use crate::market::{
    market_step, resolution_refusal, resolved_with, trade_fits, traded, CustomError, MarketState,
    Side,
};

verus! {

/// The sum of a sequence of trade amounts.
pub open spec fn total(amounts: Seq<u64>) -> int
    decreases amounts.len(),
{
    if amounts.len() == 0 {
        0
    } else {
        total(amounts.drop_last()) + amounts.last()
    }
}

/// `states` is a market taken through successful trades: each state is the
/// one before it with the trade of the same index applied.
pub open spec fn trade_run(states: Seq<MarketState>, sides: Seq<Side>, amounts: Seq<u64>) -> bool {
    &&& states.len() == amounts.len() + 1
    &&& sides.len() == amounts.len()
    &&& forall|i: int|
        0 <= i < amounts.len() ==> trade_fits(states[i], sides[i], amounts[i]) && states[i + 1]
            == #[trigger] traded(states[i], sides[i], amounts[i])
}

/// `states` is a market observed after each of a sequence of operations,
/// successful or refused.
pub open spec fn history(states: Seq<MarketState>) -> bool {
    forall|i: int| 0 <= i < states.len() - 1 ==> #[trigger] market_step(states[i], states[i + 1])
}

/// Over successful trades the volume grows by exactly the sum of their
/// amounts, whichever side each one takes; from a freshly opened market it is
/// that sum.
pub proof fn lemma_volume_conservation(
    states: Seq<MarketState>,
    sides: Seq<Side>,
    amounts: Seq<u64>,
)
    requires
        trade_run(states, sides, amounts),
    ensures
        states.last().volume == states[0].volume + total(amounts),
    decreases amounts.len(),
{
    if amounts.len() > 0 {
        let n = amounts.len() - 1;
        let (s, d, a) = (states.drop_last(), sides.drop_last(), amounts.drop_last());
        assert forall|i: int| 0 <= i < a.len() implies trade_fits(s[i], d[i], a[i]) && s[i + 1]
            == #[trigger] traded(s[i], d[i], a[i]) by {
            assert(traded(states[i], sides[i], amounts[i]) == states[i + 1]);
        }
        lemma_volume_conservation(s, d, a);
        assert(traded(states[n], sides[n], amounts[n]) == states[n + 1]);
    }
}

/// One operation never shrinks a pool or the volume, never changes the
/// authority, never undoes a resolution or changes its outcome, and keeps a
/// consistent record consistent.
pub proof fn lemma_step(before: MarketState, after: MarketState)
    requires
        market_step(before, after),
    ensures
        before.liquidity_yes <= after.liquidity_yes,
        before.liquidity_no <= after.liquidity_no,
        before.volume <= after.volume,
        before.authority == after.authority,
        before.resolved ==> after.resolved && after.winning_outcome == before.winning_outcome,
        before.outcome_consistent() ==> after.outcome_consistent(),
{
    if after != before {
        if exists|side: Side, amount: u64|
            trade_fits(before, side, amount) && after == #[trigger] traded(before, side, amount) {
            let (side, amount) = choose|side: Side, amount: u64|
                trade_fits(before, side, amount) && after == #[trigger] traded(
                    before,
                    side,
                    amount,
                );
            assert(after == traded(before, side, amount));
        } else {
            let winner = choose|winner: Side| after == #[trigger] resolved_with(before, winner);
            assert(after == resolved_with(before, winner));
        }
    }
}

/// Across any sequence of operations the pools and the volume never
/// decrease, the authority stays the same, and once resolved a market stays
/// resolved with the same outcome.
pub proof fn lemma_history_monotone(states: Seq<MarketState>)
    requires
        history(states),
    ensures
        forall|i: int, j: int|
            #![trigger states[i], states[j]]
            0 <= i <= j < states.len() ==> {
                &&& states[i].liquidity_yes <= states[j].liquidity_yes
                &&& states[i].liquidity_no <= states[j].liquidity_no
                &&& states[i].volume <= states[j].volume
                &&& states[i].authority == states[j].authority
                &&& states[i].resolved ==> states[j].resolved && states[j].winning_outcome
                    == states[i].winning_outcome
            },
    decreases states.len(),
{
    if states.len() > 1 {
        let n = states.len() - 1;
        let s = states.drop_last();
        assert forall|i: int| 0 <= i < s.len() - 1 implies #[trigger] market_step(s[i], s[i + 1]) by {
            assert(market_step(states[i], states[i + 1]));
        }
        lemma_history_monotone(s);
        let k = n - 1;
        assert(market_step(states[k], states[k + 1]));
        lemma_step(states[k], states[n]);
        assert forall|i: int, j: int| 0 <= i <= j < states.len() implies {
            &&& states[i].liquidity_yes <= states[j].liquidity_yes
            &&& states[i].liquidity_no <= states[j].liquidity_no
            &&& states[i].volume <= states[j].volume
            &&& states[i].authority == states[j].authority
            &&& states[i].resolved ==> states[j].resolved && states[j].winning_outcome
                == states[i].winning_outcome
        } by {
            if j == n && i < n {
                assert(s[i] == states[i] && s[n - 1] == states[n - 1]);
            } else if j < n {
                assert(s[i] == states[i] && s[j] == states[j]);
            }
        }
    }
}

/// From a consistent record, every record that a sequence of operations
/// yields is consistent: a winning outcome is recorded exactly when the market
/// is resolved.
pub proof fn lemma_outcome_consistency(states: Seq<MarketState>)
    requires
        history(states),
        states.len() > 0,
        states[0].outcome_consistent(),
    ensures
        forall|i: int| 0 <= i < states.len() ==> #[trigger] states[i].outcome_consistent(),
    decreases states.len(),
{
    if states.len() > 1 {
        let n = states.len() - 1;
        let s = states.drop_last();
        assert forall|i: int| 0 <= i < s.len() - 1 implies #[trigger] market_step(s[i], s[i + 1]) by {
            assert(market_step(states[i], states[i + 1]));
        }
        lemma_outcome_consistency(s);
        let k = n - 1;
        assert(s[k] == states[k] && s[k].outcome_consistent());
        assert(market_step(states[k], states[k + 1]));
        lemma_step(states[k], states[n]);
        assert forall|i: int| 0 <= i < states.len() implies #[trigger] states[i].outcome_consistent() by {
            if i < n {
                assert(s[i] == states[i] && s[i].outcome_consistent());
            }
        }
    }
}

/// After a successful resolution with `winner`, every later resolution is
/// refused and, being refused, leaves the outcome at `winner`. The authority
/// is refused with `MarketAlreadyResolved`; any other caller is refused
/// earlier, with `Unauthorized`.
pub proof fn lemma_resolution_final(before: MarketState, first: Key, winner: Side, later: Key)
    requires
        resolution_refusal(before, first@) is None,
    ensures
        resolution_refusal(resolved_with(before, winner), later@) is Some,
        later@ == before.authority@ ==> resolution_refusal(resolved_with(before, winner), later@)
            == Some(CustomError::MarketAlreadyResolved),
        later@ != before.authority@ ==> resolution_refusal(resolved_with(before, winner), later@)
            == Some(CustomError::Unauthorized),
        resolved_with(before, winner).winning_outcome == Some(winner),
{
}

} // verus!

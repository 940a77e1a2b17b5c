//! The scripted bot policies: each bot slot has a fixed decision table run
//! once per tick, choosing between donating part of its gold and buying
//! upgrades. Two of the tables flip coins; the draws are made through a
//! trusted wrapper around the `rand` crate and handed to a deterministic,
//! fully specified policy function.
use vstd::prelude::*;

verus! {

use crate::game_state::{spec_is_end_of_round, MainState};
use crate::miner::Miner;
use crate::MAX_LEVEL;

/// Smallest donation share (in percent) the fallback policy may draw.
pub const FALLBACK_SHARE_MIN: u64 = 10;

/// Exclusive upper bound on the fallback policy's donation share draw.
pub const FALLBACK_SHARE_MAX: u64 = 40;

/// Relies on rand's `Rng::gen_range` over a half-open integer range: the
/// sample is uniform in `[lo, hi)`. The call asserts that the range is
/// non-empty, which the precondition guarantees.
#[verifier::external_body]
fn random_in_range(lo: u64, hi: u64) -> (r: u64)
    requires
        lo < hi,
    ensures
        lo <= r < hi,
{
    rand::Rng::gen_range(&mut rand::thread_rng(), lo..hi)
}

/// The upgrade half of every policy, keyed by slot. Slot 0 raises whichever
/// track lags (ties and equal levels favour the pickaxe, with the mine as
/// fallback); slot 1 flips `coin` for a track and falls back to the other;
/// slot 2 raises the lagging track, flipping `coin` with no fallback when
/// the tracks are level; any other slot flips `coin` for a single attempt.
/// Unaffordable or maxed attempts do nothing.
pub open spec fn spec_upgrade_step(m: Miner, slot: usize, coin: u64) -> Miner {
    let pickaxe_ok = m.pickaxe_level < MAX_LEVEL && m.gold >= Miner::spec_pickaxe_upgrade_cost(
        m.pickaxe_level,
    );
    let mine_ok = m.mine_level < MAX_LEVEL && m.gold >= Miner::spec_mine_upgrade_cost(
        m.mine_level,
    );
    if slot == 0 {
        if m.pickaxe_level < m.mine_level && pickaxe_ok {
            m.spec_upgrade_pickaxe()
        } else if m.mine_level < m.pickaxe_level && mine_ok {
            m.spec_upgrade_mine()
        } else if pickaxe_ok {
            m.spec_upgrade_pickaxe()
        } else if mine_ok {
            m.spec_upgrade_mine()
        } else {
            m
        }
    } else if slot == 1 {
        if coin == 0 {
            if pickaxe_ok {
                m.spec_upgrade_pickaxe()
            } else if mine_ok {
                m.spec_upgrade_mine()
            } else {
                m
            }
        } else {
            if mine_ok {
                m.spec_upgrade_mine()
            } else if pickaxe_ok {
                m.spec_upgrade_pickaxe()
            } else {
                m
            }
        }
    } else if slot == 2 {
        if m.pickaxe_level < m.mine_level && pickaxe_ok {
            m.spec_upgrade_pickaxe()
        } else if m.mine_level < m.pickaxe_level && mine_ok {
            m.spec_upgrade_mine()
        } else if coin == 0 && pickaxe_ok {
            m.spec_upgrade_pickaxe()
        } else if coin == 1 && mine_ok {
            m.spec_upgrade_mine()
        } else {
            m
        }
    } else {
        if coin == 0 && pickaxe_ok {
            m.spec_upgrade_pickaxe()
        } else if coin == 1 && mine_ok {
            m.spec_upgrade_mine()
        } else {
            m
        }
    }
}

/// One full policy decision for the bot in `slot`, given the round number,
/// whether the round is in its final stretch, and the two random draws
/// (`pct`: the fallback donation share; `coin`: the upgrade coin flip).
/// Dead bots do nothing; a bot that already donated only considers
/// upgrades. Slot 0 donates everything when nearly dead and a tenth at the
/// end of a round; slot 1 forces a first pickaxe in the opening rounds and
/// donates a health-tiered share at the end; slot 2 forces a first pickaxe
/// in round one and donates 90% or 30% at the end; other slots donate the
/// drawn share at the end. Outside the final stretch all slots buy
/// upgrades instead.
pub open spec fn spec_policy_step(
    m: Miner,
    slot: usize,
    round: usize,
    end_of_round: bool,
    pct: u64,
    coin: u64,
) -> Miner {
    if !m.alive {
        m
    } else if m.has_donated_this_round {
        spec_upgrade_step(m, slot, coin)
    } else if slot == 0 {
        let m1 = if m.health < 3 {
            m.spec_contribute(m.gold)
        } else {
            m
        };
        if end_of_round {
            m1.spec_contribute((m1.gold / 10) as u64)
        } else {
            spec_upgrade_step(m1, slot, coin)
        }
    } else if slot == 1 {
        if round <= 2 && m.pickaxe_level == 0 && m.mine_level == 0 && m.gold
            >= Miner::spec_pickaxe_upgrade_cost(0) {
            m.spec_upgrade_pickaxe()
        } else if end_of_round {
            let share: u64 = if m.health < 3 {
                90
            } else if m.health < 5 {
                50
            } else {
                70
            };
            m.spec_contribute(((m.gold * share) / 100) as u64)
        } else {
            spec_upgrade_step(m, slot, coin)
        }
    } else if slot == 2 {
        if round == 1 && m.pickaxe_level == 0 && m.mine_level == 0 && m.gold
            >= Miner::spec_pickaxe_upgrade_cost(0) {
            m.spec_upgrade_pickaxe()
        } else if end_of_round {
            let share: u64 = if m.health < 3 {
                90
            } else {
                30
            };
            m.spec_contribute(((m.gold * share) / 100) as u64)
        } else {
            spec_upgrade_step(m, slot, coin)
        }
    } else {
        if end_of_round {
            m.spec_contribute(((m.gold * pct) / 100) as u64)
        } else {
            spec_upgrade_step(m, slot, coin)
        }
    }
}

/// `post_bot` is a possible outcome of running `slot`'s policy on
/// `pre_bot`: there are draws from the documented ranges (a fallback
/// donation share in `[FALLBACK_SHARE_MIN, FALLBACK_SHARE_MAX)` and a coin
/// flip) under which the policy maps one to the other.
pub open spec fn bot_decided(
    pre_bot: Miner,
    slot: usize,
    round: usize,
    elapsed_ms: u64,
    post_bot: Miner,
) -> bool {
    exists|pct: u64, coin: u64|
        FALLBACK_SHARE_MIN <= pct < FALLBACK_SHARE_MAX && coin < 2 && post_bot
            == #[trigger] spec_policy_step(
            pre_bot,
            slot,
            round,
            spec_is_end_of_round(elapsed_ms),
            pct,
            coin,
        )
}

/// `share` percent of `gold`, rounded down.
fn share_of(gold: u64, share: u64) -> (c: u64)
    requires
        share <= 100,
    ensures
        c == (gold * share) / 100,
{
    proof {
        assert((gold as u128) * (share as u128) <= (u64::MAX as u128) * 100) by (nonlinear_arith)
            requires
                gold as u128 <= u64::MAX as u128,
                share as u128 <= 100,
        ;
    }
    let wide: u128 = (gold as u128) * (share as u128);
    proof {
        assert(wide / 100 <= gold as u128) by (nonlinear_arith)
            requires
                wide == (gold as u128) * (share as u128),
                share as u128 <= 100,
        ;
    }
    (wide / 100) as u64
}

impl MainState {
    /// The upgrade half of the policy for the bot in `bot_index`'s slot,
    /// with the coin flip passed in. Nothing but that bot changes.
    fn bot_consider_upgrades(&mut self, bot_index: usize, coin: u64)
        requires
            old(self).wf(),
            bot_index < old(self).bots@.len(),
        ensures
            final(self).wf(),
            *final(self) == (MainState { bots: final(self).bots, ..*old(self) }),
            final(self).bots@ == old(self).bots@.update(
                bot_index as int,
                if old(self).bots@[bot_index as int].alive {
                    spec_upgrade_step(old(self).bots@[bot_index as int], bot_index, coin)
                } else {
                    old(self).bots@[bot_index as int]
                },
            ),
    {
        let mut bot = self.bots[bot_index];
        if !bot.alive {
            proof {
                assert(self.bots@.update(bot_index as int, self.bots@[bot_index as int])
                    =~= self.bots@);
            }
            return ;
        }
        let pickaxe_ok = bot.pickaxe_level < MAX_LEVEL && bot.gold >= bot.pickaxe_upgrade_cost();
        let mine_ok = bot.mine_level < MAX_LEVEL && bot.gold >= bot.mine_upgrade_cost();
        if bot_index == 0 {
            if bot.pickaxe_level < bot.mine_level && pickaxe_ok {
                bot.upgrade_pickaxe();
            } else if bot.mine_level < bot.pickaxe_level && mine_ok {
                bot.upgrade_mine();
            } else if pickaxe_ok {
                bot.upgrade_pickaxe();
            } else if mine_ok {
                bot.upgrade_mine();
            }
        } else if bot_index == 1 {
            if coin == 0 {
                if pickaxe_ok {
                    bot.upgrade_pickaxe();
                } else if mine_ok {
                    bot.upgrade_mine();
                }
            } else {
                if mine_ok {
                    bot.upgrade_mine();
                } else if pickaxe_ok {
                    bot.upgrade_pickaxe();
                }
            }
        } else if bot_index == 2 {
            if bot.pickaxe_level < bot.mine_level && pickaxe_ok {
                bot.upgrade_pickaxe();
            } else if bot.mine_level < bot.pickaxe_level && mine_ok {
                bot.upgrade_mine();
            } else if coin == 0 && pickaxe_ok {
                bot.upgrade_pickaxe();
            } else if coin == 1 && mine_ok {
                bot.upgrade_mine();
            }
        } else {
            if coin == 0 && pickaxe_ok {
                bot.upgrade_pickaxe();
            } else if coin == 1 && mine_ok {
                bot.upgrade_mine();
            }
        }
        self.bots.set(bot_index, bot);
    }

    /// Apply the decision policy of `bot_index`'s slot to its bot, with this
    /// tick's random draws passed in explicitly: `pct` is the donation share
    /// the fallback policy would use, `coin` the upgrade coin flip. Fully
    /// deterministic; nothing but that bot changes.
    pub fn bot_apply_policy(&mut self, bot_index: usize, pct: u64, coin: u64)
        requires
            old(self).wf(),
            bot_index < old(self).bots@.len(),
            FALLBACK_SHARE_MIN <= pct < FALLBACK_SHARE_MAX,
            coin < 2,
        ensures
            final(self).wf(),
            *final(self) == (MainState { bots: final(self).bots, ..*old(self) }),
            final(self).bots@ == old(self).bots@.update(
                bot_index as int,
                spec_policy_step(
                    old(self).bots@[bot_index as int],
                    bot_index,
                    old(self).current_round,
                    spec_is_end_of_round(old(self).elapsed_in_round_ms),
                    pct,
                    coin,
                ),
            ),
    {
        let bot0 = self.bots[bot_index];
        if !bot0.alive {
            proof {
                assert(self.bots@.update(bot_index as int, self.bots@[bot_index as int])
                    =~= self.bots@);
            }
            return ;
        }
        let end_of_round = self.is_end_of_round();
        if bot0.has_donated_this_round {
            self.bot_consider_upgrades(bot_index, coin);
            return ;
        }
        if bot_index == 0 {
            let mut bot = self.bots[bot_index];
            if bot.health < 3 {
                let g = bot.gold;
                bot.contribute_gold(g);
            }
            if end_of_round {
                let c = bot.gold / 10;
                bot.contribute_gold(c);
                self.bots.set(bot_index, bot);
            } else {
                self.bots.set(bot_index, bot);
                let ghost mid = self.bots@;
                self.bot_consider_upgrades(bot_index, coin);
                proof {
                    assert(self.bots@ =~= old(self).bots@.update(
                        bot_index as int,
                        spec_upgrade_step(mid[bot_index as int], bot_index, coin),
                    ));
                }
            }
        } else if bot_index == 1 {
            let mut bot = self.bots[bot_index];
            let first_upgrade_due = self.current_round <= 2 && bot.pickaxe_level == 0
                && bot.mine_level == 0;
            if first_upgrade_due && bot.gold >= bot.pickaxe_upgrade_cost() {
                bot.upgrade_pickaxe();
                self.bots.set(bot_index, bot);
                return ;
            }
            if end_of_round {
                let share: u64 = if bot.health < 3 {
                    90
                } else if bot.health < 5 {
                    50
                } else {
                    70
                };
                let c = share_of(bot.gold, share);
                bot.contribute_gold(c);
                self.bots.set(bot_index, bot);
            } else {
                self.bot_consider_upgrades(bot_index, coin);
            }
        } else if bot_index == 2 {
            let mut bot = self.bots[bot_index];
            let first_upgrade_due = self.current_round == 1 && bot.pickaxe_level == 0
                && bot.mine_level == 0;
            if first_upgrade_due && bot.gold >= bot.pickaxe_upgrade_cost() {
                bot.upgrade_pickaxe();
                self.bots.set(bot_index, bot);
                return ;
            }
            if end_of_round {
                let share: u64 = if bot.health < 3 {
                    90
                } else {
                    30
                };
                let c = share_of(bot.gold, share);
                bot.contribute_gold(c);
                self.bots.set(bot_index, bot);
            } else {
                self.bot_consider_upgrades(bot_index, coin);
            }
        } else {
            let mut bot = self.bots[bot_index];
            if end_of_round {
                let c = share_of(bot.gold, pct);
                bot.contribute_gold(c);
                self.bots.set(bot_index, bot);
            } else {
                self.bot_consider_upgrades(bot_index, coin);
            }
        }
    }

    /// Run the scripted decision of `bot_index`'s slot for this tick,
    /// drawing the donation share and the upgrade coin flip from the
    /// process-wide random generator. Whatever is drawn, the bot's new state
    /// is its policy applied to draws from the documented ranges, and
    /// nothing but that bot changes.
    pub fn bot_make_decision(&mut self, bot_index: usize)
        requires
            old(self).wf(),
            bot_index < old(self).bots@.len(),
        ensures
            final(self).wf(),
            *final(self) == (MainState { bots: final(self).bots, ..*old(self) }),
            final(self).bots@.len() == old(self).bots@.len(),
            forall|j: int|
                #![trigger final(self).bots@[j]]
                0 <= j < old(self).bots@.len() && j != bot_index ==> final(self).bots@[j] == old(
                    self,
                ).bots@[j],
            bot_decided(
                old(self).bots@[bot_index as int],
                bot_index,
                old(self).current_round,
                old(self).elapsed_in_round_ms,
                final(self).bots@[bot_index as int],
            ),
    {
        let pct = random_in_range(FALLBACK_SHARE_MIN, FALLBACK_SHARE_MAX);
        let coin = random_in_range(0, 2);
        let ghost pre = *self;
        self.bot_apply_policy(bot_index, pct, coin);
        proof {
            assert(self.bots@[bot_index as int] == spec_policy_step(
                pre.bots@[bot_index as int],
                bot_index,
                pre.current_round,
                spec_is_end_of_round(pre.elapsed_in_round_ms),
                pct,
                coin,
            ));
        }
    }
}

} // verus!


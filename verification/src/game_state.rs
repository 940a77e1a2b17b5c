//! The round lifecycle: a player and three bots play fixed-length rounds;
//! when a round's clock runs out the donations are ranked, damage equal to
//! the rank index is dealt, the outcome is recorded, and the machine moves
//! to the round-end screen or to game over.
use vstd::prelude::*;

verus! {

use crate::miner::{Miner, MinerType};
use crate::policy::bot_decided;
use crate::ranking::{distinct_ids, is_ranking, rank_descending, sorted_desc};
use crate::ranking::{lemma_ranking_complete, lemma_ranking_distinct_ids, lemma_ranking_members};
use crate::CHEAT_GOLD_AMOUNT;
use crate::CHEAT_TIME_SKIP_MS;
use crate::END_OF_ROUND_THRESHOLD_MS;
use crate::MAX_ROUNDS;
use crate::ROUND_DURATION_MS;

/// The final stretch of a round: its last fifth, during which the bot
/// policies prioritise donations over upgrades.
pub open spec fn spec_is_end_of_round(elapsed_ms: u64) -> bool {
    elapsed_ms >= END_OF_ROUND_THRESHOLD_MS
}

/// Phase of the game's state machine.
#[derive(Clone, Copy, PartialEq, Eq, Structural, Debug)]
pub enum GameState {
    Playing,
    RoundEnd,
    GameOver,
}

/// The whole simulation state: the player, the three bot slots, the round
/// clock, and the scoring records. All time is simulation time in
/// milliseconds, advanced explicitly by `tick`.
#[derive(Clone, Debug)]
pub struct MainState {
    pub player: Miner,
    pub bots: Vec<Miner>,
    /// 1-indexed, never above `MAX_ROUNDS`.
    pub current_round: usize,
    /// Milliseconds elapsed in the current round.
    pub elapsed_in_round_ms: u64,
    pub game_state: GameState,
    /// Ranked (miner identity, donated gold) pairs of the last scored round;
    /// identity 0 is the player, identity `i + 1` is bot slot `i`. Populated
    /// by scoring, cleared when the next round starts.
    pub round_results: Option<Vec<(usize, u64)>>,
    /// One entry per completed round: true when the player ranked first.
    pub past_results: Vec<bool>,
}

/// Number of bot slots a game is played with.
pub const BOT_COUNT: usize = 3;

/// True when some bot in `bots` is still alive.
pub open spec fn any_bot_alive(bots: Seq<Miner>) -> bool {
    exists|i: int| 0 <= i < bots.len() && (#[trigger] bots[i]).alive
}

/// Count of the living bots among the first `upto` slots.
pub open spec fn count_alive(bots: Seq<Miner>, upto: int) -> int
    decreases upto,
{
    if upto <= 0 {
        0
    } else {
        count_alive(bots, upto - 1) + if bots[upto - 1].alive {
            1int
        } else {
            0int
        }
    }
}

/// Scoring entries contributed by the first `upto` bot slots: one
/// `(slot + 1, donated gold)` pair per living bot, in slot order.
pub open spec fn bot_entries(bots: Seq<Miner>, upto: int) -> Seq<(usize, u64)>
    decreases upto,
{
    if upto <= 0 {
        Seq::empty()
    } else {
        let own = if bots[upto - 1].alive {
            seq![(upto as usize, bots[upto - 1].donated_gold)]
        } else {
            Seq::empty()
        };
        bot_entries(bots, upto - 1) + own
    }
}

/// Facts about `bot_entries`: one entry per living bot, identities are slot
/// numbers (shifted by one) in increasing order, values are the bots' own
/// donations, and every living bot is represented.
proof fn lemma_bot_entries(bots: Seq<Miner>, upto: int)
    requires
        0 <= upto <= bots.len(),
        bots.len() <= usize::MAX,
    ensures
        0 <= count_alive(bots, upto) <= upto,
        bot_entries(bots, upto).len() == count_alive(bots, upto),
        forall|k: int|
            0 <= k < bot_entries(bots, upto).len() ==> 1 <= (#[trigger] bot_entries(bots, upto)[k]).0
                <= upto && bots[bot_entries(bots, upto)[k].0 - 1].alive && bot_entries(
                bots,
                upto,
            )[k].1 == bots[bot_entries(bots, upto)[k].0 - 1].donated_gold,
        forall|k: int, l: int|
            0 <= k < l < bot_entries(bots, upto).len() ==> (#[trigger] bot_entries(bots, upto)[k]).0
                < (#[trigger] bot_entries(bots, upto)[l]).0,
        forall|j: int|
            0 <= j < upto && (#[trigger] bots[j]).alive ==> bot_entries(bots, upto).contains(
                (((j + 1) as usize), bots[j].donated_gold),
            ),
    decreases upto,
{
    if upto > 0 {
        lemma_bot_entries(bots, upto - 1);
        let prev = bot_entries(bots, upto - 1);
        let cur = bot_entries(bots, upto);
        if bots[upto - 1].alive {
            assert(cur.len() == prev.len() + 1);
            assert(cur[prev.len() as int] == ((upto as usize), bots[upto - 1].donated_gold));
            assert forall|k: int|
                0 <= k < cur.len() implies 1 <= (#[trigger] cur[k]).0 <= upto && bots[cur[k].0
                - 1].alive && cur[k].1 == bots[cur[k].0 - 1].donated_gold by {
                if k < prev.len() {
                    assert(cur[k] == prev[k]);
                }
            }
            assert forall|k: int, l: int|
                0 <= k < l < cur.len() implies (#[trigger] cur[k]).0 < (#[trigger] cur[l]).0 by {
                assert(cur[k] == prev[k]);
                if l < prev.len() {
                    assert(cur[l] == prev[l]);
                } else {
                    assert(cur[l].0 == upto);
                    assert(prev[k].0 <= upto - 1);
                }
            }
        } else {
            assert(cur =~= prev);
        }
        assert forall|j: int| 0 <= j < upto && (#[trigger] bots[j]).alive implies cur.contains(
            (((j + 1) as usize), bots[j].donated_gold),
        ) by {
            if j < upto - 1 {
                let d = bots[j].donated_gold;
                let idx = choose|idx: int|
                    0 <= idx < prev.len() && prev[idx] == (((j + 1) as usize), d);
                assert(cur[idx] == prev[idx]);
            } else {
                assert(cur[prev.len() as int] == ((upto as usize), bots[upto - 1].donated_gold));
            }
        }
    }
}

/// Facts about the full participant list: the player's entry leads, every
/// other entry belongs to a living bot and carries that bot's donation,
/// identities are pairwise distinct, and every living bot is represented.
proof fn lemma_participants(s: MainState)
    requires
        s.wf(),
    ensures
        s.spec_participants().len() == 1 + count_alive(s.bots@, s.bots@.len() as int),
        1 <= s.spec_participants().len() <= 1 + s.bots@.len(),
        s.spec_participants()[0] == (0usize, s.player.donated_gold),
        forall|k: int|
            0 <= k < s.spec_participants().len() ==> ((#[trigger] s.spec_participants()[k]).0 == 0
                <==> k == 0),
        forall|k: int|
            1 <= k < s.spec_participants().len() ==> 1 <= (#[trigger] s.spec_participants()[k]).0
                <= s.bots@.len() && s.bots@[s.spec_participants()[k].0 - 1].alive
                && s.spec_participants()[k].1 == s.bots@[s.spec_participants()[k].0
                - 1].donated_gold,
        distinct_ids(s.spec_participants()),
        forall|j: int|
            0 <= j < s.bots@.len() && (#[trigger] s.bots@[j]).alive ==> s.spec_participants(
            ).contains((((j + 1) as usize), s.bots@[j].donated_gold)),
{
    let n = s.bots@.len() as int;
    lemma_bot_entries(s.bots@, n);
    let entries = bot_entries(s.bots@, n);
    let parts = s.spec_participants();
    assert(parts.len() == 1 + entries.len());
    assert forall|j: int| 0 <= j < n && (#[trigger] s.bots@[j]).alive implies parts.contains(
        (((j + 1) as usize), s.bots@[j].donated_gold),
    ) by {
        let d = s.bots@[j].donated_gold;
        let idx = choose|idx: int|
            0 <= idx < entries.len() && entries[idx] == (((j + 1) as usize), d);
        assert(parts[idx + 1] == entries[idx]);
    }
    assert forall|k: int, l: int| 0 <= k < l < parts.len() implies (#[trigger] parts[k]).0 != (
    #[trigger] parts[l]).0 by {
        if k > 0 {
            assert(parts[k] == entries[k - 1]);
            assert(parts[l] == entries[l - 1]);
            assert(entries[k - 1].0 < entries[l - 1].0);
        }
    }
}

/// A miner's donation score after scoring wiped it for the next round.
pub open spec fn spec_reset_donation(m: Miner) -> Miner {
    Miner { donated_gold: 0, ..m }
}

/// A ranked miner's state after one scoring pass: damage equal to its rank
/// index, then its round donation cleared.
pub open spec fn spec_scored(m: Miner, rank: int) -> Miner {
    spec_reset_donation(m.spec_take_damage(rank as u32))
}

/// How one end-of-round scoring pass relates the state before (`pre`) to
/// the state after (`post`): the stored result ranks the player's and every
/// living bot's donation, highest first with ties in original order; the
/// history gains one entry that is true exactly when the player ranked
/// first; every ranked miner takes damage equal to its rank index; every
/// miner's donation resets; and the machine moves to `RoundEnd`, or to
/// `GameOver` when the player died, the bots all died, or the round limit
/// was reached.
pub open spec fn scoring_rel(pre: MainState, post: MainState) -> bool {
    let parts = pre.spec_participants();
    &&& post.round_results is Some
    &&& {
        let r = post.round_results.unwrap()@;
        &&& r.len() == parts.len()
        &&& r.len() == 1 + count_alive(pre.bots@, pre.bots@.len() as int)
        &&& sorted_desc(r)
        &&& is_ranking(parts, r)
        &&& post.past_results@ == pre.past_results@.push(r[0].0 == 0)
        &&& exists|k: int|
            0 <= k < r.len() && (#[trigger] r[k]).0 == 0 && post.player == spec_scored(
                pre.player,
                k,
            )
        &&& post.bots@.len() == pre.bots@.len()
        &&& forall|i: int|
            #![trigger post.bots@[i]]
            0 <= i < pre.bots@.len() ==> if pre.bots@[i].alive {
                exists|k: int|
                    0 <= k < r.len() && #[trigger] r[k] == (((i + 1) as usize), pre.bots@[i].donated_gold)
                        && post.bots@[i] == spec_scored(pre.bots@[i], k)
            } else {
                post.bots@[i] == spec_reset_donation(pre.bots@[i])
            }
    }
    &&& post.current_round == pre.current_round
    &&& post.elapsed_in_round_ms == pre.elapsed_in_round_ms
    &&& post.game_state == (if !post.player.alive {
        GameState::GameOver
    } else if !any_bot_alive(post.bots@) {
        GameState::GameOver
    } else if pre.current_round >= MAX_ROUNDS {
        GameState::GameOver
    } else {
        GameState::RoundEnd
    })
}

/// `a + b` clamped to the `u64` range.
pub open spec fn spec_saturating_add(a: u64, b: u64) -> u64 {
    if a + b <= u64::MAX {
        (a + b) as u64
    } else {
        u64::MAX
    }
}

/// How the play half of one `tick` relates the state at entry (`pre`, in
/// play) to the state after the clock advanced, every miner accrued its
/// income, and every bot's policy ran (`mid`), before any expiry check: the
/// clock gains `dt_ms` (saturating), the player accrues, and each bot is
/// its slot's policy applied to its accrued self under some draws from the
/// documented ranges.
pub open spec fn decisions_rel(pre: MainState, mid: MainState, dt_ms: u64) -> bool {
    &&& mid.elapsed_in_round_ms == spec_saturating_add(pre.elapsed_in_round_ms, dt_ms)
    &&& mid.player == pre.player.spec_accrue(dt_ms)
    &&& mid.bots@.len() == pre.bots@.len()
    &&& forall|i: int|
        #![trigger mid.bots@[i]]
        0 <= i < pre.bots@.len() ==> bot_decided(
            pre.bots@[i].spec_accrue(dt_ms),
            i as usize,
            pre.current_round,
            mid.elapsed_in_round_ms,
            mid.bots@[i],
        )
    &&& mid.current_round == pre.current_round
    &&& mid.game_state == pre.game_state
    &&& mid.round_results == pre.round_results
    &&& mid.past_results == pre.past_results
}

impl MainState {
    /// Well-formedness: every miner is well-formed and of the right kind,
    /// there are exactly three bot slots, the round counter stays in range,
    /// the round-end screen only shows while more rounds remain, and ranked
    /// results exist exactly outside of play.
    pub open spec fn wf(self) -> bool {
        &&& self.player.wf()
        &&& self.player.kind == MinerType::Player
        &&& self.bots@.len() == BOT_COUNT
        &&& forall|i: int|
            0 <= i < self.bots@.len() ==> (#[trigger] self.bots@[i]).wf() && self.bots@[i].kind
                == MinerType::Bot
        &&& 1 <= self.current_round <= MAX_ROUNDS
        &&& self.game_state is RoundEnd ==> self.current_round < MAX_ROUNDS
        &&& self.game_state is Playing <==> self.round_results is None
    }

    /// The entries end-of-round scoring ranks: the player first (always
    /// included), then one entry per living bot in slot order.
    pub open spec fn spec_participants(self) -> Seq<(usize, u64)> {
        seq![(0usize, self.player.donated_gold)] + bot_entries(
            self.bots@,
            self.bots@.len() as int,
        )
    }

    /// A fresh game: default player and three default bots, round 1, clock
    /// at zero, playing, with no stored or past results.
    pub open spec fn is_initial(self) -> bool {
        &&& self.player == Miner::spec_new(MinerType::Player)
        &&& self.bots@.len() == BOT_COUNT
        &&& forall|i: int|
            0 <= i < self.bots@.len() ==> #[trigger] self.bots@[i] == Miner::spec_new(
                MinerType::Bot,
            )
        &&& self.current_round == 1
        &&& self.elapsed_in_round_ms == 0
        &&& self.game_state is Playing
        &&& self.round_results is None
        &&& self.past_results@ == Seq::<bool>::empty()
    }

    pub fn new() -> (s: MainState)
        ensures
            s.wf(),
            s.is_initial(),
    {
        let player = Miner::new(MinerType::Player);
        let mut bots: Vec<Miner> = Vec::new();
        let mut i: usize = 0;
        while i < BOT_COUNT
            invariant
                i <= BOT_COUNT,
                bots@.len() == i,
                forall|j: int|
                    0 <= j < i ==> #[trigger] bots@[j] == Miner::spec_new(MinerType::Bot),
            decreases BOT_COUNT - i,
        {
            bots.push(Miner::new(MinerType::Bot));
            i = i + 1;
        }
        MainState {
            player,
            bots,
            current_round: 1,
            elapsed_in_round_ms: 0,
            game_state: GameState::Playing,
            round_results: None,
            past_results: Vec::new(),
        }
    }

    /// Victory query: the player outlived every bot. Meaningful at any time,
    /// not only at game over.
    pub fn player_has_won(&self) -> (won: bool)
        ensures
            won == (self.player.alive && !any_bot_alive(self.bots@)),
    {
        let mut i: usize = 0;
        let mut bots_alive = false;
        while i < self.bots.len()
            invariant
                i <= self.bots@.len(),
                bots_alive == exists|j: int| 0 <= j < i && (#[trigger] self.bots@[j]).alive,
            decreases self.bots@.len() - i,
        {
            if self.bots[i].alive {
                bots_alive = true;
            }
            i = i + 1;
        }
        self.player.alive && !bots_alive
    }

    /// True when some bot is still alive.
    fn any_bot_alive_exec(&self) -> (b: bool)
        ensures
            b == any_bot_alive(self.bots@),
    {
        let mut i: usize = 0;
        let mut found = false;
        while i < self.bots.len()
            invariant
                i <= self.bots@.len(),
                found == exists|j: int| 0 <= j < i && (#[trigger] self.bots@[j]).alive,
            decreases self.bots@.len() - i,
        {
            if self.bots[i].alive {
                found = true;
            }
            i = i + 1;
        }
        found
    }

    /// Score the round that just ended: rank the player's and every living
    /// bot's donations (highest first, ties in original order), record
    /// whether the player ranked first, deal each ranked miner damage equal
    /// to its rank index, reset all donations, store the ranked list for
    /// display, and move to `RoundEnd` — or to `GameOver` when the player
    /// died, every bot died, or this was the final round.
    #[verifier::rlimit(60)]
    pub fn end_round(&mut self)
        requires
            old(self).wf(),
        ensures
            final(self).wf(),
            scoring_rel(*old(self), *final(self)),
    {
        let ghost pre = *self;
        proof {
            lemma_participants(pre);
        }
        // Collect the player's entry, then one entry per living bot.
        let mut results: Vec<(usize, u64)> = Vec::new();
        results.push((0, self.player.donated_gold));
        proof {
            assert(results@ =~= seq![(0usize, pre.player.donated_gold)] + bot_entries(
                pre.bots@,
                0,
            ));
        }
        let mut i: usize = 0;
        while i < self.bots.len()
            invariant
                i <= self.bots@.len(),
                *self == pre,
                results@ == seq![(0usize, pre.player.donated_gold)] + bot_entries(
                    pre.bots@,
                    i as int,
                ),
            decreases self.bots@.len() - i,
        {
            let b = self.bots[i];
            if b.alive {
                results.push((i + 1, b.donated_gold));
            }
            proof {
                assert(results@ =~= seq![(0usize, pre.player.donated_gold)] + bot_entries(
                    pre.bots@,
                    i + 1,
                ));
            }
            i = i + 1;
        }
        proof {
            assert(results@ == pre.spec_participants());
        }
        // Rank the donations, highest first, ties in original order.
        let ranked = rank_descending(&results);
        let ghost r = ranked@;
        proof {
            lemma_ranking_distinct_ids(results@, ranked@);
            lemma_ranking_complete(results@, ranked@);
            lemma_ranking_members(results@, ranked@);
            assert forall|k: int|
                0 <= k < r.len() implies ((#[trigger] r[k]).0 == 0 || (1 <= r[k].0
                <= pre.bots@.len() && pre.bots@[r[k].0 - 1].alive && r[k].1 == pre.bots@[r[k].0
                - 1].donated_gold)) by {
                assert(results@.contains(r[k]));
                let q = choose|q: int| 0 <= q < results@.len() && results@[q] == r[k];
                assert(results@[q] == pre.spec_participants()[q]);
            }
        }
        // Record whether the player took rank 0.
        let first = ranked[0];
        let player_won = first.0 == 0;
        self.past_results.push(player_won);
        let ghost mid1 = *self;
        // Deal each ranked miner damage equal to its rank index.
        let mut p: usize = 0;
        while p < ranked.len()
            invariant
                p <= r.len(),
                ranked@ == r,
                r.len() <= 1 + BOT_COUNT,
                distinct_ids(r),
                forall|k: int|
                    0 <= k < r.len() ==> ((#[trigger] r[k]).0 == 0 || (1 <= r[k].0
                        <= pre.bots@.len() && pre.bots@[r[k].0 - 1].alive)),
                self.bots@.len() == pre.bots@.len(),
                self.player.wf(),
                self.player.kind == pre.player.kind,
                forall|i2: int|
                    0 <= i2 < self.bots@.len() ==> (#[trigger] self.bots@[i2]).wf(),
                (forall|k: int| 0 <= k < p ==> (#[trigger] r[k]).0 != 0) ==> self.player
                    == pre.player,
                forall|k: int|
                    0 <= k < p && (#[trigger] r[k]).0 == 0 ==> self.player
                        == pre.player.spec_take_damage(k as u32),
                forall|i2: int|
                    #![trigger self.bots@[i2]]
                    0 <= i2 < self.bots@.len() && (forall|k: int|
                        0 <= k < p ==> (#[trigger] r[k]).0 != i2 + 1) ==> self.bots@[i2]
                        == pre.bots@[i2],
                forall|i2: int, k: int|
                    0 <= i2 < self.bots@.len() && 0 <= k < p && (#[trigger] r[k]).0 == i2 + 1
                        ==> #[trigger] self.bots@[i2] == pre.bots@[i2].spec_take_damage(k as u32),
                self.current_round == pre.current_round,
                self.elapsed_in_round_ms == pre.elapsed_in_round_ms,
                self.game_state == pre.game_state,
                self.round_results == pre.round_results,
                self.past_results == mid1.past_results,
            decreases r.len() - p,
        {
            let entry = ranked[p];
            proof {
                assert forall|k: int| 0 <= k < p implies (#[trigger] r[k]).0 != entry.0 by {
                    assert(r[k].0 != r[p as int].0);
                }
            }
            let damage = p as u32;
            if entry.0 == 0 {
                self.player.take_damage(damage);
            } else {
                let bi = entry.0 - 1;
                let mut m = self.bots[bi];
                m.take_damage(damage);
                self.bots.set(bi, m);
            }
            p = p + 1;
        }
        let ghost mid2 = *self;
        // Reset every miner's donation for the next round, dead or alive.
        self.player.donated_gold = 0;
        let mut j: usize = 0;
        while j < self.bots.len()
            invariant
                j <= self.bots@.len(),
                self.bots@.len() == mid2.bots@.len(),
                self.player == (Miner { donated_gold: 0, ..mid2.player }),
                forall|i2: int|
                    0 <= i2 < j ==> #[trigger] self.bots@[i2] == (Miner {
                        donated_gold: 0,
                        ..mid2.bots@[i2]
                    }),
                forall|i2: int|
                    j <= i2 < self.bots@.len() ==> #[trigger] self.bots@[i2] == mid2.bots@[i2],
                self.current_round == mid2.current_round,
                self.elapsed_in_round_ms == mid2.elapsed_in_round_ms,
                self.game_state == mid2.game_state,
                self.round_results == mid2.round_results,
                self.past_results == mid2.past_results,
            decreases self.bots@.len() - j,
        {
            let mut m = self.bots[j];
            m.donated_gold = 0;
            self.bots.set(j, m);
            j = j + 1;
        }
        // Store the ranked list and settle the next phase.
        self.round_results = Some(ranked);
        let bots_alive = self.any_bot_alive_exec();
        if !self.player.alive {
            self.game_state = GameState::GameOver;
        } else if !bots_alive {
            self.game_state = GameState::GameOver;
        } else if self.current_round >= MAX_ROUNDS {
            self.game_state = GameState::GameOver;
        } else {
            self.game_state = GameState::RoundEnd;
        }
        proof {
            let parts = pre.spec_participants();
            let post = *self;
            // The player's rank: its entry is parts[0], so it appears in r.
            assert(r.contains(parts[0]));
            let kp = choose|kp: int| 0 <= kp < r.len() && r[kp] == parts[0];
            assert(r[kp].0 == 0);
            assert(mid2.player == pre.player.spec_take_damage(kp as u32));
            assert(post.player == spec_scored(pre.player, kp));
            assert(exists|k: int|
                0 <= k < r.len() && (#[trigger] r[k]).0 == 0 && post.player == spec_scored(
                    pre.player,
                    k,
                ));
            // Each bot either took its rank's damage or was not ranked.
            assert forall|i2: int|
                #![trigger post.bots@[i2]]
                0 <= i2 < pre.bots@.len() implies (if pre.bots@[i2].alive {
                exists|k: int|
                    0 <= k < r.len() && #[trigger] r[k] == (((i2 + 1) as usize), pre.bots@[i2].donated_gold)
                        && post.bots@[i2] == spec_scored(pre.bots@[i2], k)
            } else {
                post.bots@[i2] == spec_reset_donation(pre.bots@[i2])
            }) by {
                if pre.bots@[i2].alive {
                    let e = (((i2 + 1) as usize), pre.bots@[i2].donated_gold);
                    assert(parts.contains(e));
                    let q = choose|q: int| 0 <= q < parts.len() && parts[q] == e;
                    assert(r.contains(parts[q]));
                    let kb = choose|kb: int| 0 <= kb < r.len() && r[kb] == parts[q];
                    assert(r[kb].0 == i2 + 1);
                    assert(mid2.bots@[i2] == pre.bots@[i2].spec_take_damage(kb as u32));
                    assert(post.bots@[i2] == spec_scored(pre.bots@[i2], kb));
                } else {
                    assert forall|k: int| 0 <= k < r.len() implies (#[trigger] r[k]).0 != i2
                        + 1 by {
                        if r[k].0 == i2 + 1 {
                            assert(pre.bots@[i2].alive);
                        }
                    }
                    assert(mid2.bots@[i2] == pre.bots@[i2]);
                }
            }
            assert(scoring_rel(pre, post));
        }
    }

    /// Leave the round-end screen and begin the next round: the round
    /// counter advances, the clock and stored results are cleared, and every
    /// miner may donate again. A silent no-op outside of `RoundEnd`.
    pub fn start_next_round(&mut self)
        requires
            old(self).wf(),
        ensures
            final(self).wf(),
            !(old(self).game_state is RoundEnd) ==> *final(self) == *old(self),
            old(self).game_state is RoundEnd ==> {
                &&& final(self).current_round == old(self).current_round + 1
                &&& final(self).elapsed_in_round_ms == 0
                &&& final(self).game_state is Playing
                &&& final(self).round_results is None
                &&& final(self).player == (Miner {
                    has_donated_this_round: false,
                    ..old(self).player
                })
                &&& final(self).bots@.len() == old(self).bots@.len()
                &&& forall|i: int|
                    0 <= i < old(self).bots@.len() ==> #[trigger] final(self).bots@[i] == (Miner {
                        has_donated_this_round: false,
                        ..old(self).bots@[i]
                    })
                &&& final(self).past_results == old(self).past_results
            },
    {
        match self.game_state {
            GameState::RoundEnd => {},
            _ => {
                return ;
            },
        }
        self.current_round = self.current_round + 1;
        self.elapsed_in_round_ms = 0;
        self.game_state = GameState::Playing;
        self.round_results = None;
        self.player.has_donated_this_round = false;
        let ghost mid = *self;
        let mut i: usize = 0;
        while i < self.bots.len()
            invariant
                i <= self.bots@.len(),
                self.bots@.len() == mid.bots@.len(),
                forall|j: int|
                    0 <= j < i ==> #[trigger] self.bots@[j] == (Miner {
                        has_donated_this_round: false,
                        ..mid.bots@[j]
                    }),
                forall|j: int| i <= j < self.bots@.len() ==> self.bots@[j] == mid.bots@[j],
                *self == (MainState { bots: self.bots, ..mid }),
            decreases self.bots@.len() - i,
        {
            let mut m = self.bots[i];
            m.has_donated_this_round = false;
            self.bots.set(i, m);
            i = i + 1;
        }
    }

    /// Start the game over from the game-over screen: a fresh initial state.
    /// A silent no-op outside of `GameOver`.
    pub fn restart_game(&mut self)
        requires
            old(self).wf(),
        ensures
            final(self).wf(),
            !(old(self).game_state is GameOver) ==> *final(self) == *old(self),
            old(self).game_state is GameOver ==> final(self).is_initial(),
    {
        match self.game_state {
            GameState::GameOver => {},
            _ => {
                return ;
            },
        }
        *self = MainState::new();
    }

    /// One simulation step of `dt_ms` milliseconds, the only way time
    /// passes. Outside of play it does nothing. In play, the round clock
    /// advances, every miner accrues income for the elapsed time, every
    /// living bot runs its scripted policy, and if the clock has reached the
    /// round's duration the round is scored (the same scoring pass as the
    /// debug time skip).
    pub fn tick(&mut self, dt_ms: u64)
        requires
            old(self).wf(),
        ensures
            final(self).wf(),
            !(old(self).game_state is Playing) ==> *final(self) == *old(self),
            old(self).game_state is Playing ==> exists|mid: MainState|
                #[trigger] decisions_rel(*old(self), mid, dt_ms) && (if mid.elapsed_in_round_ms
                    < ROUND_DURATION_MS {
                    *final(self) == mid
                } else {
                    scoring_rel(mid, *final(self))
                }),
    {
        let ghost pre = *self;
        match self.game_state {
            GameState::Playing => {},
            _ => {
                return ;
            },
        }
        // Advance the round clock, saturating rather than wrapping.
        let headroom = u64::MAX - self.elapsed_in_round_ms;
        self.elapsed_in_round_ms = if dt_ms <= headroom {
            self.elapsed_in_round_ms + dt_ms
        } else {
            u64::MAX
        };
        // Every miner accrues income for the elapsed time.
        self.player.accrue(dt_ms);
        let mut i: usize = 0;
        while i < self.bots.len()
            invariant
                i <= self.bots@.len(),
                self.bots@.len() == pre.bots@.len(),
                forall|j: int|
                    0 <= j < i ==> #[trigger] self.bots@[j] == pre.bots@[j].spec_accrue(dt_ms),
                forall|j: int| i <= j < self.bots@.len() ==> self.bots@[j] == pre.bots@[j],
                forall|j: int| 0 <= j < self.bots@.len() ==> (#[trigger] self.bots@[j]).wf(),
                forall|j: int|
                    0 <= j < self.bots@.len() ==> (#[trigger] self.bots@[j]).kind
                        == MinerType::Bot,
                self.current_round == pre.current_round,
                self.game_state == pre.game_state,
                self.round_results == pre.round_results,
                self.past_results == pre.past_results,
                self.player == pre.player.spec_accrue(dt_ms),
                self.elapsed_in_round_ms == spec_saturating_add(pre.elapsed_in_round_ms, dt_ms),
                self.player.wf(),
                self.player.kind == MinerType::Player,
            decreases self.bots@.len() - i,
        {
            let mut m = self.bots[i];
            m.accrue(dt_ms);
            self.bots.set(i, m);
            i = i + 1;
        }
        // Every bot runs its slot's policy once.
        let mut b: usize = 0;
        while b < self.bots.len()
            invariant
                b <= self.bots@.len(),
                self.wf(),
                self.bots@.len() == pre.bots@.len(),
                forall|j: int|
                    #![trigger self.bots@[j]]
                    0 <= j < b ==> bot_decided(
                        pre.bots@[j].spec_accrue(dt_ms),
                        j as usize,
                        pre.current_round,
                        self.elapsed_in_round_ms,
                        self.bots@[j],
                    ),
                forall|j: int|
                    b <= j < self.bots@.len() ==> self.bots@[j] == pre.bots@[j].spec_accrue(
                        dt_ms,
                    ),
                self.current_round == pre.current_round,
                self.game_state == pre.game_state,
                self.round_results == pre.round_results,
                self.past_results == pre.past_results,
                self.player == pre.player.spec_accrue(dt_ms),
                self.elapsed_in_round_ms == spec_saturating_add(pre.elapsed_in_round_ms, dt_ms),
            decreases self.bots@.len() - b,
        {
            self.bot_make_decision(b);
            b = b + 1;
        }
        proof {
            assert(decisions_rel(pre, *self, dt_ms));
        }
        // The same expiry check the debug time skip re-runs.
        if self.elapsed_in_round_ms >= ROUND_DURATION_MS {
            let ghost mid = *self;
            self.end_round();
            proof {
                assert(decisions_rel(pre, mid, dt_ms) && !(mid.elapsed_in_round_ms
                    < ROUND_DURATION_MS) && scoring_rel(mid, *self));
            }
        }
    }

    /// Debug cheat: grant the player a fixed amount of spendable gold. The
    /// lifetime `total_gold_mined` statistic is untouched — granted gold is
    /// not earnings. Only works during play.
    pub fn cheat_grant_gold(&mut self)
        requires
            old(self).wf(),
        ensures
            final(self).wf(),
            !(old(self).game_state is Playing) ==> *final(self) == *old(self),
            old(self).game_state is Playing ==> *final(self) == (MainState {
                player: old(self).player.spec_grant_gold(CHEAT_GOLD_AMOUNT as int),
                ..*old(self)
            }),
            final(self).player.total_gold_mined == old(self).player.total_gold_mined,
    {
        match self.game_state {
            GameState::Playing => {},
            _ => {
                return ;
            },
        }
        self.player.grant_gold(CHEAT_GOLD_AMOUNT);
    }

    /// Debug cheat: advance the round clock by a fixed skip, then re-run
    /// the same expiry check a normal tick uses, scoring the round if the
    /// skip crossed its end. Only works during play.
    pub fn cheat_skip_time(&mut self)
        requires
            old(self).wf(),
        ensures
            final(self).wf(),
            !(old(self).game_state is Playing) ==> *final(self) == *old(self),
            old(self).game_state is Playing ==> ({
                let skipped = MainState {
                    elapsed_in_round_ms: spec_saturating_add(
                        old(self).elapsed_in_round_ms,
                        CHEAT_TIME_SKIP_MS,
                    ),
                    ..*old(self)
                };
                if skipped.elapsed_in_round_ms < ROUND_DURATION_MS {
                    *final(self) == skipped
                } else {
                    scoring_rel(skipped, *final(self))
                }
            }),
    {
        match self.game_state {
            GameState::Playing => {},
            _ => {
                return ;
            },
        }
        let headroom = u64::MAX - self.elapsed_in_round_ms;
        self.elapsed_in_round_ms = if CHEAT_TIME_SKIP_MS <= headroom {
            self.elapsed_in_round_ms + CHEAT_TIME_SKIP_MS
        } else {
            u64::MAX
        };
        if self.elapsed_in_round_ms >= ROUND_DURATION_MS {
            self.end_round();
        }
    }

    /// Whether the current round is in its final stretch.
    pub fn is_end_of_round(&self) -> (b: bool)
        ensures
            b == spec_is_end_of_round(self.elapsed_in_round_ms),
    {
        self.elapsed_in_round_ms >= END_OF_ROUND_THRESHOLD_MS
    }

    /// Milliseconds left before the current round's clock expires.
    pub fn time_remaining_ms(&self) -> (t: u64)
        ensures
            t == if self.elapsed_in_round_ms >= ROUND_DURATION_MS {
                0u64
            } else {
                (ROUND_DURATION_MS - self.elapsed_in_round_ms) as u64
            },
    {
        if self.elapsed_in_round_ms >= ROUND_DURATION_MS {
            0
        } else {
            ROUND_DURATION_MS - self.elapsed_in_round_ms
        }
    }
}

} // verus!

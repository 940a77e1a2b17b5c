//! The miner entity: gold balances, health, upgrade levels, and the
//! mutators through which both the player and the bots act.
use vstd::prelude::*;

verus! {

use crate::MAX_LEVEL;
use crate::STARTING_HEALTH;

/// Whether a miner is driven by the human player or by a scripted policy.
#[derive(Clone, Copy, PartialEq, Eq, Structural, Debug)]
pub enum MinerType {
    Player,
    Bot,
}

/// One economic agent. `gold` is the spendable balance, `donated_gold` the
/// round-scoped score used for ranking, and `total_gold_mined` the lifetime
/// earnings statistic, which never decreases when gold is spent.
#[derive(Clone, Copy, PartialEq, Eq, Structural, Debug)]
pub struct Miner {
    pub kind: MinerType,
    pub gold: u64,
    pub total_gold_mined: u64,
    pub donated_gold: u64,
    pub has_donated_this_round: bool,
    pub health: u32,
    pub alive: bool,
    pub pickaxe_level: u8,
    pub mine_level: u8,
}

impl Miner {
    /// Well-formedness: levels stay in range, health is clamped to the
    /// starting value, liveness mirrors health, and the balance plus the
    /// round donation together fit the machine word (a machine limit: a
    /// donation of the whole balance must always be representable).
    pub open spec fn wf(self) -> bool {
        &&& self.pickaxe_level <= MAX_LEVEL
        &&& self.mine_level <= MAX_LEVEL
        &&& self.health <= STARTING_HEALTH
        &&& self.alive <==> self.health > 0
        &&& self.gold + self.donated_gold <= u64::MAX
    }

    /// Cost of raising the pickaxe from `level` to `level + 1`. The curve
    /// doubles at each step; a maxed pickaxe reports an unpayable cost.
    pub open spec fn spec_pickaxe_upgrade_cost(level: u8) -> u64 {
        if level == 0 {
            50
        } else if level == 1 {
            100
        } else if level == 2 {
            200
        } else if level == 3 {
            400
        } else {
            u64::MAX
        }
    }

    /// Cost of raising the mine from `level` to `level + 1`; same doubling
    /// shape as the pickaxe but half again as expensive.
    pub open spec fn spec_mine_upgrade_cost(level: u8) -> u64 {
        if level == 0 {
            75
        } else if level == 1 {
            150
        } else if level == 2 {
            300
        } else if level == 3 {
            600
        } else {
            u64::MAX
        }
    }

    /// The miner a new game hands out: no gold, full health, level zero on
    /// both upgrade tracks.
    pub open spec fn spec_new(kind: MinerType) -> Miner {
        Miner {
            kind,
            gold: 0,
            total_gold_mined: 0,
            donated_gold: 0,
            has_donated_this_round: false,
            health: STARTING_HEALTH,
            alive: true,
            pickaxe_level: 0,
            mine_level: 0,
        }
    }

    /// A contribution is accepted exactly when it is positive and covered by
    /// the current balance.
    pub open spec fn spec_accepts_contribution(self, amount: u64) -> bool {
        amount > 0 && amount <= self.gold
    }

    /// Effect of `contribute_gold`: an accepted amount moves from `gold` to
    /// `donated_gold` and latches the donation flag; anything else is a no-op.
    pub open spec fn spec_contribute(self, amount: u64) -> Miner {
        if self.spec_accepts_contribution(amount) {
            Miner {
                gold: (self.gold - amount) as u64,
                donated_gold: (self.donated_gold + amount) as u64,
                has_donated_this_round: true,
                ..self
            }
        } else {
            self
        }
    }

    /// Effect of `upgrade_pickaxe`: pay the level's cost and go up one level,
    /// or do nothing when maxed or unaffordable.
    pub open spec fn spec_upgrade_pickaxe(self) -> Miner {
        if self.pickaxe_level < MAX_LEVEL && self.gold >= Self::spec_pickaxe_upgrade_cost(
            self.pickaxe_level,
        ) {
            Miner {
                gold: (self.gold - Self::spec_pickaxe_upgrade_cost(self.pickaxe_level)) as u64,
                pickaxe_level: (self.pickaxe_level + 1) as u8,
                ..self
            }
        } else {
            self
        }
    }

    /// Effect of `upgrade_mine`, mirroring `spec_upgrade_pickaxe`.
    pub open spec fn spec_upgrade_mine(self) -> Miner {
        if self.mine_level < MAX_LEVEL && self.gold >= Self::spec_mine_upgrade_cost(
            self.mine_level,
        ) {
            Miner {
                gold: (self.gold - Self::spec_mine_upgrade_cost(self.mine_level)) as u64,
                mine_level: (self.mine_level + 1) as u8,
                ..self
            }
        } else {
            self
        }
    }

    /// Effect of `take_damage`: health drops by `amount` but is clamped at
    /// zero, and liveness follows the new health.
    pub open spec fn spec_take_damage(self, amount: u32) -> Miner {
        let new_health = if amount >= self.health {
            0u32
        } else {
            (self.health - amount) as u32
        };
        Miner { health: new_health, alive: new_health > 0, ..self }
    }

    /// Mined gold: credit `amount` identically to both the balance and the
    /// lifetime total, saturating so neither side wraps.
    pub open spec fn spec_credit(self, amount: int) -> Miner {
        let balance_headroom = u64::MAX - self.gold - self.donated_gold;
        let mined_headroom = u64::MAX - self.total_gold_mined;
        let cap = if balance_headroom <= mined_headroom {
            balance_headroom
        } else {
            mined_headroom
        };
        let credited = if amount <= cap {
            amount
        } else {
            cap
        };
        Miner {
            gold: (self.gold + credited) as u64,
            total_gold_mined: (self.total_gold_mined + credited) as u64,
            ..self
        }
    }

    /// Gold handed to the miner without being mined (the debug grant): only
    /// the balance grows, saturating; the lifetime total is untouched.
    pub open spec fn spec_grant_gold(self, amount: int) -> Miner {
        let headroom = u64::MAX - self.gold - self.donated_gold;
        let credited = if amount <= headroom {
            amount
        } else {
            headroom
        };
        Miner { gold: (self.gold + credited) as u64, ..self }
    }

    /// Gold mined over `dt_ms` milliseconds: one gold per second at level
    /// zero, plus one more per second for every upgrade level held.
    pub open spec fn spec_accrual_amount(dt_ms: u64, pickaxe_level: u8, mine_level: u8) -> int {
        (dt_ms * (1 + pickaxe_level + mine_level)) / 1000
    }

    /// Effect of `accrue`: a living miner earns the accrual amount for the
    /// elapsed time; a dead one earns nothing.
    pub open spec fn spec_accrue(self, dt_ms: u64) -> Miner {
        if self.alive {
            self.spec_credit(Self::spec_accrual_amount(dt_ms, self.pickaxe_level, self.mine_level))
        } else {
            self
        }
    }

    pub fn new(kind: MinerType) -> (m: Miner)
        ensures
            m == Self::spec_new(kind),
            m.wf(),
    {
        Miner {
            kind,
            gold: 0,
            total_gold_mined: 0,
            donated_gold: 0,
            has_donated_this_round: false,
            health: STARTING_HEALTH,
            alive: true,
            pickaxe_level: 0,
            mine_level: 0,
        }
    }

    /// Donate `amount` gold to this round's score. Rejected amounts (zero, or
    /// more than the current balance) leave the miner untouched.
    pub fn contribute_gold(&mut self, amount: u64)
        requires
            old(self).wf(),
        ensures
            *final(self) == old(self).spec_contribute(amount),
            final(self).wf(),
    {
        if amount > 0 && amount <= self.gold {
            self.gold = self.gold - amount;
            self.donated_gold = self.donated_gold + amount;
            self.has_donated_this_round = true;
        }
    }

    /// Raise the pickaxe one level if affordable and not maxed; otherwise a
    /// silent no-op.
    pub fn upgrade_pickaxe(&mut self)
        requires
            old(self).wf(),
        ensures
            *final(self) == old(self).spec_upgrade_pickaxe(),
            final(self).wf(),
    {
        let cost = self.pickaxe_upgrade_cost();
        if self.pickaxe_level < MAX_LEVEL && self.gold >= cost {
            self.gold = self.gold - cost;
            self.pickaxe_level = self.pickaxe_level + 1;
        }
    }

    /// Raise the mine one level if affordable and not maxed; otherwise a
    /// silent no-op.
    pub fn upgrade_mine(&mut self)
        requires
            old(self).wf(),
        ensures
            *final(self) == old(self).spec_upgrade_mine(),
            final(self).wf(),
    {
        let cost = self.mine_upgrade_cost();
        if self.mine_level < MAX_LEVEL && self.gold >= cost {
            self.gold = self.gold - cost;
            self.mine_level = self.mine_level + 1;
        }
    }

    /// Deal `amount` damage: health is clamped at zero and the miner dies
    /// when it reaches zero.
    pub fn take_damage(&mut self, amount: u32)
        requires
            old(self).wf(),
        ensures
            *final(self) == old(self).spec_take_damage(amount),
            final(self).wf(),
    {
        if amount >= self.health {
            self.health = 0;
            self.alive = false;
        } else {
            self.health = self.health - amount;
            self.alive = true;
        }
    }

    /// Credit `amount` mined gold identically to both the balance and the
    /// lifetime total; the credit saturates instead of wrapping either.
    pub fn credit(&mut self, amount: u64)
        requires
            old(self).wf(),
        ensures
            *final(self) == old(self).spec_credit(amount as int),
            final(self).wf(),
    {
        let balance_headroom: u64 = (u64::MAX - self.gold) - self.donated_gold;
        let mined_headroom: u64 = u64::MAX - self.total_gold_mined;
        let cap: u64 = if balance_headroom <= mined_headroom {
            balance_headroom
        } else {
            mined_headroom
        };
        let credited: u64 = if amount <= cap {
            amount
        } else {
            cap
        };
        self.gold = self.gold + credited;
        self.total_gold_mined = self.total_gold_mined + credited;
    }

    /// Grant `amount` gold to the balance alone, saturating. Unlike mining
    /// income this leaves `total_gold_mined` untouched: granted gold is not
    /// part of the lifetime earnings statistic.
    pub fn grant_gold(&mut self, amount: u64)
        requires
            old(self).wf(),
        ensures
            *final(self) == old(self).spec_grant_gold(amount as int),
            final(self).total_gold_mined == old(self).total_gold_mined,
            final(self).wf(),
    {
        let headroom: u64 = (u64::MAX - self.gold) - self.donated_gold;
        let credited: u64 = if amount <= headroom {
            amount
        } else {
            headroom
        };
        self.gold = self.gold + credited;
    }

    /// Advance this miner's passive income by `dt_ms` milliseconds of mining.
    /// Both `gold` and `total_gold_mined` are credited identically; a dead
    /// miner earns nothing.
    pub fn accrue(&mut self, dt_ms: u64)
        requires
            old(self).wf(),
        ensures
            *final(self) == old(self).spec_accrue(dt_ms),
            final(self).wf(),
    {
        if !self.alive {
            return ;
        }
        let rate: u64 = 1 + (self.pickaxe_level as u64) + (self.mine_level as u64);
        proof {
            assert((dt_ms as u128) * (rate as u128) <= (u64::MAX as u128) * 9) by (nonlinear_arith)
                requires
                    dt_ms as u128 <= u64::MAX as u128,
                    rate as u128 <= 9,
            ;
        }
        let wide: u128 = (dt_ms as u128) * (rate as u128);
        proof {
            assert(wide / 1000 <= dt_ms as u128) by (nonlinear_arith)
                requires
                    wide == (dt_ms as u128) * (rate as u128),
                    rate as u128 <= 1000,
            ;
        }
        let amount: u64 = (wide / 1000) as u64;
        self.credit(amount);
    }

    pub fn pickaxe_upgrade_cost(&self) -> (cost: u64)
        ensures
            cost == Self::spec_pickaxe_upgrade_cost(self.pickaxe_level),
    {
        match self.pickaxe_level {
            0 => 50,
            1 => 100,
            2 => 200,
            3 => 400,
            _ => u64::MAX,
        }
    }

    pub fn mine_upgrade_cost(&self) -> (cost: u64)
        ensures
            cost == Self::spec_mine_upgrade_cost(self.mine_level),
    {
        match self.mine_level {
            0 => 75,
            1 => 150,
            2 => 300,
            3 => 600,
            _ => u64::MAX,
        }
    }
}

/// State of a miner after a whole sequence of `contribute_gold` calls, one
/// per entry of `amounts`, in order.
pub open spec fn apply_contributions(m: Miner, amounts: Seq<u64>) -> Miner
    decreases amounts.len(),
{
    if amounts.len() == 0 {
        m
    } else {
        apply_contributions(m.spec_contribute(amounts[0]), amounts.drop_first())
    }
}

/// Total of the amounts such a sequence actually accepts: each amount counts
/// only if it is positive and covered by the balance at its own call time.
pub open spec fn accepted_contribution_sum(m: Miner, amounts: Seq<u64>) -> int
    decreases amounts.len(),
{
    if amounts.len() == 0 {
        0
    } else {
        (if m.spec_accepts_contribution(amounts[0]) {
            amounts[0] as int
        } else {
            0
        }) + accepted_contribution_sum(m.spec_contribute(amounts[0]), amounts.drop_first())
    }
}

/// Contribution accounting: however many donations are attempted, the gold
/// balance never goes negative (it only ever shrinks, and only by accepted
/// amounts), the donated total grows by exactly the sum of the accepted
/// amounts, and gold plus donation score is conserved.
pub proof fn lemma_contribution_accounting(m: Miner, amounts: Seq<u64>)
    requires
        m.wf(),
    ensures
        apply_contributions(m, amounts).wf(),
        apply_contributions(m, amounts).gold <= m.gold,
        apply_contributions(m, amounts).donated_gold == m.donated_gold
            + accepted_contribution_sum(m, amounts),
        apply_contributions(m, amounts).gold + apply_contributions(m, amounts).donated_gold
            == m.gold + m.donated_gold,
    decreases amounts.len(),
{
    if amounts.len() > 0 {
        lemma_contribution_accounting(m.spec_contribute(amounts[0]), amounts.drop_first());
    }
}

/// Both upgrade tracks have strictly increasing costs over the reachable
/// levels, and non-decreasing costs over the whole level range.
pub proof fn lemma_upgrade_cost_monotonic()
    ensures
        forall|l: u8|
            l < 3 ==> #[trigger] Miner::spec_pickaxe_upgrade_cost(l)
                < Miner::spec_pickaxe_upgrade_cost((l + 1) as u8),
        forall|l: u8|
            l < 3 ==> #[trigger] Miner::spec_mine_upgrade_cost(l) < Miner::spec_mine_upgrade_cost(
                (l + 1) as u8,
            ),
        forall|l1: u8, l2: u8|
            l1 <= l2 ==> #[trigger] Miner::spec_pickaxe_upgrade_cost(l1)
                <= #[trigger] Miner::spec_pickaxe_upgrade_cost(l2),
        forall|l1: u8, l2: u8|
            l1 <= l2 ==> #[trigger] Miner::spec_mine_upgrade_cost(l1)
                <= #[trigger] Miner::spec_mine_upgrade_cost(l2),
{
}

} // verus!

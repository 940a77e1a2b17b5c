use gold_rush::{Miner, MinerType};

fn fresh_player() -> Miner {
    Miner::new(MinerType::Player)
}

fn rich_player(gold: u64) -> Miner {
    let mut m = Miner::new(MinerType::Player);
    m.credit(gold);
    m
}

#[test]
fn new_miner_has_default_stats() {
    let m = fresh_player();
    assert_eq!(m.kind, MinerType::Player);
    assert_eq!(m.gold, 0);
    assert_eq!(m.total_gold_mined, 0);
    assert_eq!(m.donated_gold, 0);
    assert!(!m.has_donated_this_round);
    assert_eq!(m.health, 10);
    assert!(m.alive);
    assert_eq!(m.pickaxe_level, 0);
    assert_eq!(m.mine_level, 0);
}

#[test]
fn upgrade_costs_follow_the_curve() {
    let mut m = rich_player(2000);
    assert_eq!(m.pickaxe_upgrade_cost(), 50);
    assert_eq!(m.mine_upgrade_cost(), 75);
    m.upgrade_pickaxe();
    assert_eq!(m.pickaxe_upgrade_cost(), 100);
    m.upgrade_pickaxe();
    assert_eq!(m.pickaxe_upgrade_cost(), 200);
    m.upgrade_pickaxe();
    assert_eq!(m.pickaxe_upgrade_cost(), 400);
    m.upgrade_mine();
    assert_eq!(m.mine_upgrade_cost(), 150);
    m.upgrade_mine();
    assert_eq!(m.mine_upgrade_cost(), 300);
    m.upgrade_mine();
    assert_eq!(m.mine_upgrade_cost(), 600);
}

#[test]
fn upgrade_deducts_cost_and_raises_level() {
    let mut m = rich_player(100);
    m.upgrade_pickaxe();
    assert_eq!(m.pickaxe_level, 1);
    assert_eq!(m.gold, 50);
    // Lifetime earnings are untouched by spending.
    assert_eq!(m.total_gold_mined, 100);
}

#[test]
fn upgrade_is_a_no_op_when_unaffordable() {
    let mut m = rich_player(49);
    m.upgrade_pickaxe();
    assert_eq!(m.pickaxe_level, 0);
    assert_eq!(m.gold, 49);
}

#[test]
fn upgrade_is_a_no_op_at_max_level() {
    let mut m = rich_player(1_000_000);
    for _ in 0..10 {
        m.upgrade_pickaxe();
    }
    assert_eq!(m.pickaxe_level, 4);
    // 50 + 100 + 200 + 400 spent in all; further attempts change nothing.
    assert_eq!(m.gold, 1_000_000 - 750);
}

#[test]
fn levels_stay_within_bounds_over_many_attempts() {
    let mut m = rich_player(u64::MAX);
    for _ in 0..100 {
        m.upgrade_pickaxe();
        m.upgrade_mine();
        assert!(m.pickaxe_level <= 4);
        assert!(m.mine_level <= 4);
    }
}

#[test]
fn contribute_moves_gold_and_latches_flag() {
    let mut m = rich_player(300);
    m.contribute_gold(100);
    assert_eq!(m.gold, 200);
    assert_eq!(m.donated_gold, 100);
    assert!(m.has_donated_this_round);
    assert_eq!(m.total_gold_mined, 300);
}

#[test]
fn contribute_rejects_zero() {
    let mut m = rich_player(300);
    m.contribute_gold(0);
    assert_eq!(m.gold, 300);
    assert_eq!(m.donated_gold, 0);
    assert!(!m.has_donated_this_round);
}

#[test]
fn contribute_rejects_more_than_balance() {
    let mut m = rich_player(300);
    m.contribute_gold(301);
    assert_eq!(m.gold, 300);
    assert_eq!(m.donated_gold, 0);
    assert!(!m.has_donated_this_round);
}

#[test]
fn contribution_sequence_accounting() {
    // Accepted amounts sum into donated_gold; rejected ones change nothing,
    // and gold never goes negative however many calls are made.
    let mut m = rich_player(100);
    let attempts: Vec<u64> = vec![40, 0, 70, 30, 31, 30];
    let mut expected_donated: u64 = 0;
    let mut expected_gold: u64 = 100;
    for a in attempts {
        if a > 0 && a <= expected_gold {
            expected_gold -= a;
            expected_donated += a;
        }
        m.contribute_gold(a);
        assert_eq!(m.gold, expected_gold);
        assert_eq!(m.donated_gold, expected_donated);
    }
    // 40 and 30 accepted twice, 70 rejected (only 60 left), 0 rejected,
    // 31 rejected (only 30 left at that point).
    assert_eq!(m.donated_gold, 100);
    assert_eq!(m.gold, 0);
}

#[test]
fn take_damage_reduces_health() {
    let mut m = fresh_player();
    m.take_damage(3);
    assert_eq!(m.health, 7);
    assert!(m.alive);
}

#[test]
fn take_damage_clamps_at_zero_and_kills() {
    let mut m = fresh_player();
    m.take_damage(15);
    assert_eq!(m.health, 0);
    assert!(!m.alive);
    // A dead miner stays at zero.
    m.take_damage(1);
    assert_eq!(m.health, 0);
    assert!(!m.alive);
}

#[test]
fn exact_damage_kills() {
    let mut m = fresh_player();
    m.take_damage(10);
    assert_eq!(m.health, 0);
    assert!(!m.alive);
}

#[test]
fn accrue_earns_one_gold_per_second_at_level_zero() {
    let mut m = fresh_player();
    m.accrue(5_000);
    assert_eq!(m.gold, 5);
    assert_eq!(m.total_gold_mined, 5);
}

#[test]
fn accrue_rate_grows_with_upgrade_levels() {
    let mut m = rich_player(125);
    m.upgrade_pickaxe();
    m.upgrade_mine();
    // Rate is 1 + pickaxe level + mine level = 3 gold per second.
    let before = m.gold;
    m.accrue(10_000);
    assert_eq!(m.gold, before + 30);
}

#[test]
fn accrue_rounds_down_partial_amounts() {
    let mut m = fresh_player();
    m.accrue(999);
    assert_eq!(m.gold, 0);
    m.accrue(999);
    // Each call floors independently: two 999 ms ticks earn nothing.
    assert_eq!(m.gold, 0);
    m.accrue(1_500);
    assert_eq!(m.gold, 1);
}

#[test]
fn accrue_does_nothing_for_the_dead() {
    let mut m = fresh_player();
    m.take_damage(10);
    m.accrue(60_000);
    assert_eq!(m.gold, 0);
    assert_eq!(m.total_gold_mined, 0);
}

#[test]
fn credit_saturates_the_lifetime_total() {
    let mut m = fresh_player();
    m.credit(u64::MAX - 5);
    m.credit(10);
    assert_eq!(m.total_gold_mined, u64::MAX);
    assert_eq!(m.gold, u64::MAX);
}

#[test]
fn granted_gold_is_spendable_but_not_earnings() {
    let mut m = fresh_player();
    m.grant_gold(100);
    assert_eq!(m.gold, 100);
    assert_eq!(m.total_gold_mined, 0);
    m.upgrade_pickaxe();
    assert_eq!(m.pickaxe_level, 1);
    assert_eq!(m.gold, 50);
    m.contribute_gold(50);
    assert_eq!(m.donated_gold, 50);
    assert_eq!(m.total_gold_mined, 0);
}

#[test]
fn granted_gold_saturates_the_balance() {
    let mut m = fresh_player();
    m.grant_gold(u64::MAX - 5);
    m.grant_gold(10);
    assert_eq!(m.gold, u64::MAX);
    assert_eq!(m.total_gold_mined, 0);
}

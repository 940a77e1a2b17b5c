use gold_rush::{MainState, Miner, MinerType};

const END_OF_ROUND_MS: u64 = 48_000;

fn bot_with(gold: u64, health: u32) -> Miner {
    let mut m = Miner::new(MinerType::Bot);
    m.credit(gold);
    if health < 10 {
        m.take_damage(10 - health);
    }
    m
}

fn state_with(bots: Vec<Miner>, elapsed_ms: u64, round: usize) -> MainState {
    let mut s = MainState::new();
    assert_eq!(bots.len(), 3);
    s.bots = bots;
    s.elapsed_in_round_ms = elapsed_ms;
    s.current_round = round;
    s
}

fn idle_bot() -> Miner {
    Miner::new(MinerType::Bot)
}

#[test]
fn economy_bot_donates_everything_when_nearly_dead() {
    let mut s = state_with(vec![bot_with(100, 2), idle_bot(), idle_bot()], 0, 3);
    s.bot_apply_policy(0, 10, 0);
    assert_eq!(s.bots[0].donated_gold, 100);
    assert_eq!(s.bots[0].gold, 0);
    assert!(s.bots[0].has_donated_this_round);
}

#[test]
fn economy_bot_donates_a_tenth_at_end_of_round() {
    let mut s = state_with(vec![bot_with(100, 10), idle_bot(), idle_bot()], END_OF_ROUND_MS, 3);
    s.bot_apply_policy(0, 10, 0);
    assert_eq!(s.bots[0].donated_gold, 10);
    assert_eq!(s.bots[0].gold, 90);
}

#[test]
fn economy_bot_upgrades_the_lagging_track_mid_round() {
    let mut b = Miner::new(MinerType::Bot);
    b.credit(1050);
    b.upgrade_pickaxe();
    assert_eq!(b.pickaxe_level, 1);
    let mut s = state_with(vec![b, idle_bot(), idle_bot()], 0, 3);
    s.bot_apply_policy(0, 10, 0);
    // The mine lags behind the pickaxe, so it is upgraded first.
    assert_eq!(s.bots[0].mine_level, 1);
    assert_eq!(s.bots[0].pickaxe_level, 1);
    assert_eq!(s.bots[0].gold, 1000 - 75);
}

#[test]
fn economy_bot_breaks_level_ties_towards_the_pickaxe() {
    let mut s = state_with(vec![bot_with(1000, 10), idle_bot(), idle_bot()], 0, 3);
    s.bot_apply_policy(0, 10, 0);
    assert_eq!(s.bots[0].pickaxe_level, 1);
    assert_eq!(s.bots[0].mine_level, 0);
}

#[test]
fn aggressive_bot_forces_a_first_pickaxe_in_early_rounds() {
    // Even in the donation window, an aggressive bot without upgrades buys
    // its first pickaxe in rounds one and two.
    let mut s = state_with(vec![idle_bot(), bot_with(60, 10), idle_bot()], END_OF_ROUND_MS, 2);
    s.bot_apply_policy(1, 10, 0);
    assert_eq!(s.bots[1].pickaxe_level, 1);
    assert_eq!(s.bots[1].gold, 10);
    assert_eq!(s.bots[1].donated_gold, 0);
}

#[test]
fn aggressive_bot_donates_seventy_percent_at_full_health() {
    let mut s = state_with(vec![idle_bot(), bot_with(100, 10), idle_bot()], END_OF_ROUND_MS, 3);
    s.bot_apply_policy(1, 10, 0);
    assert_eq!(s.bots[1].donated_gold, 70);
    assert_eq!(s.bots[1].gold, 30);
}

#[test]
fn aggressive_bot_donates_half_when_low() {
    let mut s = state_with(vec![idle_bot(), bot_with(100, 4), idle_bot()], END_OF_ROUND_MS, 3);
    s.bot_apply_policy(1, 10, 0);
    assert_eq!(s.bots[1].donated_gold, 50);
}

#[test]
fn aggressive_bot_donates_ninety_percent_when_nearly_dead() {
    let mut s = state_with(vec![idle_bot(), bot_with(100, 2), idle_bot()], END_OF_ROUND_MS, 3);
    s.bot_apply_policy(1, 10, 0);
    assert_eq!(s.bots[1].donated_gold, 90);
}

#[test]
fn aggressive_bot_upgrade_follows_the_coin() {
    let mut s = state_with(vec![idle_bot(), bot_with(1000, 10), idle_bot()], 0, 3);
    s.bot_apply_policy(1, 10, 0);
    assert_eq!(s.bots[1].pickaxe_level, 1);
    assert_eq!(s.bots[1].mine_level, 0);

    let mut s2 = state_with(vec![idle_bot(), bot_with(1000, 10), idle_bot()], 0, 3);
    s2.bot_apply_policy(1, 10, 1);
    assert_eq!(s2.bots[1].pickaxe_level, 0);
    assert_eq!(s2.bots[1].mine_level, 1);
}

#[test]
fn aggressive_bot_falls_back_to_the_other_track() {
    // Pickaxe maxed: a coin flip for the pickaxe falls back to the mine.
    let mut b = Miner::new(MinerType::Bot);
    b.credit(750 + 75);
    for _ in 0..4 {
        b.upgrade_pickaxe();
    }
    assert_eq!(b.pickaxe_level, 4);
    let mut s = state_with(vec![idle_bot(), b, idle_bot()], 0, 3);
    s.bot_apply_policy(1, 10, 0);
    assert_eq!(s.bots[1].mine_level, 1);
}

#[test]
fn balanced_bot_forces_a_first_pickaxe_only_in_round_one() {
    let mut s = state_with(vec![idle_bot(), idle_bot(), bot_with(100, 10)], END_OF_ROUND_MS, 1);
    s.bot_apply_policy(2, 10, 0);
    assert_eq!(s.bots[2].pickaxe_level, 1);
    assert_eq!(s.bots[2].donated_gold, 0);

    // In round two the same bot donates instead.
    let mut s2 = state_with(vec![idle_bot(), idle_bot(), bot_with(100, 10)], END_OF_ROUND_MS, 2);
    s2.bot_apply_policy(2, 10, 0);
    assert_eq!(s2.bots[2].pickaxe_level, 0);
    assert_eq!(s2.bots[2].donated_gold, 30);
}

#[test]
fn balanced_bot_donates_thirty_percent_normally() {
    let mut s = state_with(vec![idle_bot(), idle_bot(), bot_with(200, 10)], END_OF_ROUND_MS, 3);
    s.bot_apply_policy(2, 10, 0);
    assert_eq!(s.bots[2].donated_gold, 60);
    assert_eq!(s.bots[2].gold, 140);
}

#[test]
fn balanced_bot_donates_ninety_percent_when_nearly_dead() {
    let mut s = state_with(vec![idle_bot(), idle_bot(), bot_with(200, 2)], END_OF_ROUND_MS, 3);
    s.bot_apply_policy(2, 10, 0);
    assert_eq!(s.bots[2].donated_gold, 180);
}

#[test]
fn balanced_bot_catches_up_the_lagging_track() {
    let mut b = Miner::new(MinerType::Bot);
    b.credit(1050);
    b.upgrade_pickaxe();
    let mut s = state_with(vec![idle_bot(), idle_bot(), b], 0, 3);
    s.bot_apply_policy(2, 10, 1);
    assert_eq!(s.bots[2].mine_level, 1);
}

#[test]
fn balanced_bot_flips_the_coin_on_a_tie_without_fallback() {
    // Coin says mine, mine unaffordable, pickaxe affordable: the balanced
    // bot attempts only the chosen track and buys nothing.
    let mut s = state_with(vec![idle_bot(), idle_bot(), bot_with(60, 10)], 0, 3);
    s.bot_apply_policy(2, 10, 1);
    assert_eq!(s.bots[2].pickaxe_level, 0);
    assert_eq!(s.bots[2].mine_level, 0);
    // Coin says pickaxe (affordable): it is bought.
    let mut s2 = state_with(vec![idle_bot(), idle_bot(), bot_with(60, 10)], 0, 3);
    s2.bot_apply_policy(2, 10, 0);
    assert_eq!(s2.bots[2].pickaxe_level, 1);
}

#[test]
fn a_bot_that_already_donated_only_considers_upgrades() {
    let mut b = bot_with(100, 10);
    b.contribute_gold(1);
    assert!(b.has_donated_this_round);
    let mut s = state_with(vec![b, idle_bot(), idle_bot()], END_OF_ROUND_MS, 3);
    s.bot_apply_policy(0, 10, 0);
    // No further donation; the gold went into an upgrade instead.
    assert_eq!(s.bots[0].donated_gold, 1);
    assert_eq!(s.bots[0].pickaxe_level, 1);
    assert_eq!(s.bots[0].gold, 99 - 50);
}

#[test]
fn a_dead_bot_makes_no_decision() {
    let mut s = state_with(vec![bot_with(100, 0), idle_bot(), idle_bot()], END_OF_ROUND_MS, 3);
    let before = s.bots[0];
    s.bot_apply_policy(0, 10, 0);
    assert_eq!(s.bots[0], before);
}

#[test]
fn only_the_chosen_bot_changes() {
    let mut s = state_with(
        vec![bot_with(100, 10), bot_with(100, 10), bot_with(100, 10)],
        END_OF_ROUND_MS,
        3,
    );
    let b0 = s.bots[0];
    let b2 = s.bots[2];
    s.bot_apply_policy(1, 10, 0);
    assert_eq!(s.bots[0], b0);
    assert_eq!(s.bots[2], b2);
}

#[test]
fn random_decision_yields_exactly_one_coin_outcome() {
    // With both tracks affordable and donation already made, the drawn coin
    // decides which single track the aggressive bot upgrades; any valid
    // draw gives exactly one of the two outcomes.
    let mut b = bot_with(1000, 10);
    b.contribute_gold(1);
    let mut s = state_with(vec![idle_bot(), b, idle_bot()], 0, 3);
    s.bot_make_decision(1);
    let picked = s.bots[1].pickaxe_level == 1 && s.bots[1].mine_level == 0;
    let mined = s.bots[1].pickaxe_level == 0 && s.bots[1].mine_level == 1;
    assert!(picked != mined);
}

use vstd::prelude::*;
use crate::game_data::{
    biome_data, biome_spec, fish_lives_in, fish_lives_in_spec, fish_price, fish_price_spec,
    rod_data, rod_spec, upgrade_at, upgrade_currency_spec, upgrade_max_cost_spec,
    upgrade_max_level_spec, upgrade_name_spec, rod_biome_multiplier, rod_biome_multiplier_spec,
    treasure_data, treasure_spec, Biome, BoatType, RodType, TreasureQuality, UpgradeCurrency,
    BOAT_REDUCTION_MS, FISH_COUNT, UPGRADE_COUNT,
};
use crate::optimizer::lemma_mul_le;

verus! {

/// Longest fishing cooldown the game applies.
pub const COOLDOWN_CAP_MS: u64 = 5000;
/// Income assumed when the cooldown is (almost) nothing, in gold per second.
pub const INSTANT_INCOME: u64 = 999_999;
/// Estimated income boost of a sell-price upgrade, per mille.
pub const SALES_BOOST_PERMILLE: u64 = 50;
/// Estimated income boost of any other upgrade, per mille.
pub const OTHER_BOOST_PERMILLE: u64 = 10;

/// The account as the unlock heuristic sees it.
pub struct GameState {
    pub money: u64,
    pub level: u32,
    pub boost_level: u32,
    pub frenzy_level: u32,
    pub current_biome: Biome,
    pub current_rod: RodType,
    pub owned_boats: Vec<BoatType>,
}

#[derive(Debug, Clone)]
pub enum Action {
    BuyUpgrade(String),
    UnlockBiome(Biome),
    BuyRod(RodType),
    BuyBoat(BoatType),
    SaveMoney,
}

/// `min(5 s, base + penalty − 0.25 s per boat)`, never below 0, in ms.
pub open spec fn cooldown_spec(b: Biome, boats: int) -> int {
    let raw = biome_spec(b).base_cooldown_ms + biome_spec(b).cooldown_penalty_ms - BOAT_REDUCTION_MS * boats;
    let capped = if raw > COOLDOWN_CAP_MS { COOLDOWN_CAP_MS as int } else { raw };
    if capped < 0 { 0 } else { capped }
}

/// Fishing cooldown, in milliseconds, in biome `b` with the boats owned.
pub fn calculate_cooldown(b: Biome, owned_boats: &Vec<BoatType>) -> (r: u64)
    ensures
        r == cooldown_spec(b, owned_boats@.len() as int),
        r <= COOLDOWN_CAP_MS,
{
    let info = biome_data(b);
    let raw: i128 = (info.base_cooldown_ms as i128) + (info.cooldown_penalty_ms as i128)
        - (BOAT_REDUCTION_MS as i128) * (owned_boats.len() as i128);
    let capped: i128 = if raw > COOLDOWN_CAP_MS as i128 { COOLDOWN_CAP_MS as i128 } else { raw };
    if capped < 0 { 0 } else { capped as u64 }
}

/// Total price and number of the catalogue fish, among the first `n`, that live in `b`.
pub open spec fn fish_sum(b: Biome, n: int) -> (int, int)
    decreases n,
{
    if n <= 0 {
        (0, 0)
    } else {
        let (s, c) = fish_sum(b, n - 1);
        if fish_lives_in_spec(n - 1, b) {
            (s + fish_price_spec(n - 1), c + 1)
        } else {
            (s, c)
        }
    }
}

proof fn lemma_fish_sum_bound(b: Biome, n: int)
    requires
        0 <= n <= FISH_COUNT,
    ensures
        0 <= fish_sum(b, n).0 <= n * 5_000_000,
        0 <= fish_sum(b, n).1 <= n,
    decreases n,
{
    if n > 0 {
        lemma_fish_sum_bound(b, n - 1);
    }
}

/// Income in gold per second as a fraction `(numerator, denominator)`:
/// mean price of the biome's fish × expected fish per cast / cooldown.
pub open spec fn income_spec(b: Biome, rod: RodType, boats: int) -> (int, int) {
    let (s, c) = fish_sum(b, FISH_COUNT as int);
    let cd = cooldown_spec(b, boats);
    if c == 0 {
        (0, 1)
    } else if cd <= 1 {
        (INSTANT_INCOME as int, 1)
    } else {
        (s * rod_spec(rod).expected_fish_x2 * 1000, c * 2 * cd)
    }
}

/// Computes `income_spec` for the biome, rod and boats of `st`.
fn calculate_income_rate(b: Biome, rod: RodType, owned_boats: &Vec<BoatType>) -> (r: (u128, u128))
    ensures
        (r.0 as int, r.1 as int) == income_spec(b, rod, owned_boats@.len() as int),
        0 < r.1 <= 170_000,
        r.0 <= 10_000_000_000_000,
{
    let mut s: u64 = 0;
    let mut c: u64 = 0;
    let mut i: usize = 0;
    while i < FISH_COUNT
        invariant
            i <= FISH_COUNT,
            (s as int, c as int) == fish_sum(b, i as int),
            s <= i * 5_000_000,
            c <= i,
        decreases FISH_COUNT - i,
    {
        proof {
            lemma_fish_sum_bound(b, i as int);
            assert(fish_price_spec(i as int) <= 5_000_000);
        }
        if fish_lives_in(i, b) {
            s = s + fish_price(i);
            c = c + 1;
        }
        i = i + 1;
    }
    let cd = calculate_cooldown(b, owned_boats);
    if c == 0 {
        return (0, 1);
    }
    if cd <= 1 {
        return (INSTANT_INCOME as u128, 1);
    }
    let fx2 = rod_data(rod).expected_fish_x2;
    proof {
        assert(fx2 <= 79);
        lemma_mul_le(s as int, fx2 as int, 85_000_000, 79);
        lemma_mul_le((c * 2) as int, cd as int, 34, 5000);
        let cc = (c * 2) as int;
        let dd = cd as int;
        assert(cc * dd > 0) by (nonlinear_arith)
            requires
                cc >= 2,
                dd >= 2,
        ;
    }
    ((s as u128) * (fx2 as u128) * 1000, (c as u128) * 2 * (cd as u128))
}

/// `a/b > c/d` for positive denominators.
pub open spec fn frac_gt(a: int, b: int, c: int, d: int) -> bool {
    a * d > c * b
}

/// Estimated boost of upgrade `i`, per mille.
pub open spec fn boost_spec(i: int) -> int {
    if upgrade_name_spec(i) == "Salesman"@ { SALES_BOOST_PERMILLE as int } else { OTHER_BOOST_PERMILLE as int }
}

/// Marginal utility of money upgrade `i` for an income of `p/q`: the
/// income gain per gold at the upgrade's mean level cost, as a fraction.
pub open spec fn upgrade_utility(p: int, q: int, i: int) -> (int, int) {
    (p * boost_spec(i) * upgrade_max_level_spec(i), q * 1000 * upgrade_max_cost_spec(i))
}

/// Best money upgrade among the first `n` of the catalogue and its utility,
/// keeping the earliest of equals; utility `0/1` and no upgrade when none
/// is positive.
pub open spec fn best_upgrade(p: int, q: int, n: int) -> (Option<int>, (int, int))
    decreases n,
{
    if n <= 0 {
        (None, (0, 1))
    } else {
        let (bi, bu) = best_upgrade(p, q, n - 1);
        let u = upgrade_utility(p, q, n - 1);
        if upgrade_currency_spec(n - 1) == UpgradeCurrency::Money && frac_gt(u.0, u.1, bu.0, bu.1) {
            (Some(n - 1), u)
        } else {
            (bi, bu)
        }
    }
}

pub open spec fn next_biome(b: Biome) -> Option<Biome> {
    match b {
        Biome::River => Some(Biome::Volcanic),
        Biome::Volcanic => Some(Biome::Ocean),
        Biome::Ocean => Some(Biome::Sky),
        Biome::Sky => Some(Biome::Space),
        Biome::Space => Some(Biome::Alien),
        Biome::Alien => None,
    }
}

/// What the heuristic recommends, as an upgrade index, a biome, or nothing.
pub open spec fn next_best_spec(b: Biome, rod: RodType, boats: int) -> (Option<int>, Option<Biome>) {
    let (p, q) = income_spec(b, rod, boats);
    let (bi, bu) = best_upgrade(p, q, UPGRADE_COUNT as int);
    match next_biome(b) {
        Some(nb) => {
            let (p_next, q_next) = income_spec(nb, rod, boats);
            let cost = biome_spec(nb).unlock_cost as int;
            if cost > 0 && p_next * q > p * q_next && frac_gt(p_next * q - p * q_next, q * q_next * cost, bu.0, bu.1) {
                (None, Some(nb))
            } else {
                (bi, None)
            }
        },
        None => (bi, None),
    }
}

proof fn lemma_best_upgrade_bound(p: int, q: int, n: int)
    requires
        0 <= p <= 10_000_000_000_000,
        0 < q <= 170_000,
        0 <= n <= UPGRADE_COUNT,
    ensures
        0 <= best_upgrade(p, q, n).1.0 <= 13_000_000_000_000_000,
        0 < best_upgrade(p, q, n).1.1 <= 132_142_700_000_000_000,
        best_upgrade(p, q, n).0 matches Some(i) ==> 0 <= i < n,
    decreases n,
{
    if n > 0 {
        lemma_best_upgrade_bound(p, q, n - 1);
        let i = n - 1;
        assert(upgrade_max_level_spec(i) <= 26 && upgrade_max_cost_spec(i) <= 777_310_000 && upgrade_max_cost_spec(i) >= 26);
        assert(boost_spec(i) <= 50);
        lemma_mul_le(p, boost_spec(i), 10_000_000_000_000, 50);
        lemma_mul_le(p * boost_spec(i), upgrade_max_level_spec(i) as int, 500_000_000_000_000, 26);
        lemma_mul_le(q * 1000, upgrade_max_cost_spec(i) as int, 170_000_000, 777_310_000);
        assert(q * 1000 * upgrade_max_cost_spec(i) > 0) by (nonlinear_arith)
            requires
                q > 0,
                upgrade_max_cost_spec(i) > 0,
        ;
    }
}

fn is_salesman(name: &String) -> (r: bool)
    ensures
        r == (name@ == "Salesman"@),
{
    crate::text::str_eq(name.as_str(), "Salesman")
}

/// Compares the marginal utility of the money upgrades with that of
/// unlocking the next biome, and recommends the better, or saving.
pub fn calculate_next_best_action(state: &GameState) -> (r: Action)
    ensures
        ({
            let (ui, nb) = next_best_spec(state.current_biome, state.current_rod, state.owned_boats@.len() as int);
            &&& nb matches Some(b) ==> r == Action::UnlockBiome(b)
            &&& nb is None && ui is None ==> r is SaveMoney
            &&& nb is None && ui is Some ==> (r matches Action::BuyUpgrade(name) && name@ == upgrade_name_spec(ui->0))
        }),
{
    let (p, q) = calculate_income_rate(state.current_biome, state.current_rod, &state.owned_boats);
    let ghost boats = state.owned_boats@.len() as int;
    let mut best: Option<usize> = None;
    let mut bu: (u128, u128) = (0, 1);
    let mut best_name: String = String::new();
    let mut i: usize = 0;
    while i < UPGRADE_COUNT
        invariant
            (p as int, q as int) == income_spec(state.current_biome, state.current_rod, boats),
            0 < q <= 170_000,
            p <= 10_000_000_000_000,
            i <= UPGRADE_COUNT,
            (match best { Some(k) => Some(k as int), None => None }, (bu.0 as int, bu.1 as int)) == best_upgrade(p as int, q as int, i as int),
            best matches Some(k) ==> best_name@ == upgrade_name_spec(k as int),
        decreases UPGRADE_COUNT - i,
    {
        proof {
            lemma_best_upgrade_bound(p as int, q as int, i as int);
            lemma_best_upgrade_bound(p as int, q as int, i + 1);
        }
        let u = upgrade_at(i);
        if u.currency == UpgradeCurrency::Money {
            let boost: u128 = if is_salesman(&u.name) { SALES_BOOST_PERMILLE as u128 } else { OTHER_BOOST_PERMILLE as u128 };
            proof {
                assert(upgrade_max_level_spec(i as int) <= 26 && upgrade_max_cost_spec(i as int) <= 777_310_000);
                lemma_mul_le(p as int, boost as int, 10_000_000_000_000, 50);
                lemma_mul_le((p * boost) as int, u.max_level as int, 500_000_000_000_000, 26);
                lemma_mul_le(q as int * 1000, u.max_cost as int, 170_000_000, 777_310_000);
            }
            let un = p * boost * (u.max_level as u128);
            let ud = q * 1000 * (u.max_cost as u128);
            proof {
                lemma_mul_le(un as int, bu.1 as int, 13_000_000_000_000_000, 132_142_700_000_000_000);
                lemma_mul_le(bu.0 as int, ud as int, 13_000_000_000_000_000, 132_142_700_000_000_000);
            }
            if un * bu.1 > bu.0 * ud {
                best = Some(i);
                bu = (un, ud);
                best_name = u.name;
            }
        }
        i = i + 1;
    }
    proof {
        lemma_best_upgrade_bound(p as int, q as int, UPGRADE_COUNT as int);
    }
    let nb: Option<Biome> = match state.current_biome {
        Biome::River => Some(Biome::Volcanic),
        Biome::Volcanic => Some(Biome::Ocean),
        Biome::Ocean => Some(Biome::Sky),
        Biome::Sky => Some(Biome::Space),
        Biome::Space => Some(Biome::Alien),
        Biome::Alien => None,
    };
    match nb {
        Some(b) => {
            let cost = biome_data(b).unlock_cost;
            let (p_next, q_next) = calculate_income_rate(b, state.current_rod, &state.owned_boats);
            proof {
                lemma_mul_le(p_next as int, q as int, 10_000_000_000_000, 170_000);
                lemma_mul_le(p as int, q_next as int, 10_000_000_000_000, 170_000);
            }
            if cost > 0 && p_next * q > p * q_next {
                proof {
                    assert(cost <= 25_000);
                    lemma_mul_le(q as int, q_next as int, 170_000, 170_000);
                    lemma_mul_le((q * q_next) as int, cost as int, 28_900_000_000, 25_000);
                }
                let gn = p_next * q - p * q_next;
                let gd = q * q_next * (cost as u128);
                proof {
                    lemma_mul_le(gn as int, bu.1 as int, 1_700_000_000_000_000_000, 132_142_700_000_000_000);
                    lemma_mul_le(bu.0 as int, gd as int, 13_000_000_000_000_000, 722_500_000_000_000);
                }
                if gn * bu.1 > bu.0 * gd {
                    return Action::UnlockBiome(b);
                }
            }
        },
        None => {},
    }
    match best {
        Some(_) => Action::BuyUpgrade(best_name),
        None => Action::SaveMoney,
    }
}


// ---- boosts and treasure ----

pub const VAL_GOLD_FISH: u64 = 500;
pub const VAL_EMERALD_FISH: u64 = 1000;
pub const VAL_LAVA_FISH: u64 = 2000;
pub const VAL_DIAMOND_FISH: u64 = 5000;
pub const VAL_CHARM: u64 = 10_000;
pub const VAL_SUPER_CRATE: u64 = 50_000;
/// Gold worth of a money/XP drop.
pub const VAL_MONEY_DROP: u64 = 1000;

/// Fish boost gain, per mille:
/// `0.05 + 0.01·boost + 1.5·frenzy + (2.5 + boost)·rod multiplier`, the
/// random ranges of the game taken at their expected values.
pub open spec fn boost_gain_spec(boost: int, frenzy: int, rod: RodType, b: Biome) -> int {
    50 + 10 * boost + 1500 * frenzy + (2500 + 1000 * boost) * rod_biome_multiplier_spec(rod, b) / 1000
}

pub fn calculate_fish_boost_gain(boost_lvl: u32, frenzy_lvl: u32, rod: RodType, biome: Biome) -> (r: u64)
    ensures
        r == boost_gain_spec(boost_lvl as int, frenzy_lvl as int, rod, biome),
{
    let m = rod_biome_multiplier(rod, biome);
    let base: u64 = 2500 + 1000 * (boost_lvl as u64);
    proof {
        lemma_mul_le(base as int, m as int, 4_294_967_297_500, 4000);
    }
    50 + 10 * (boost_lvl as u64) + 1500 * (frenzy_lvl as u64) + base * m / 1000
}

/// Expected worth, in milli-gold, of a chest of quality `q`: the
/// probability-weighted value of its contents, times its quality multiplier.
pub open spec fn treasure_ev_spec(q: TreasureQuality) -> int {
    let d = treasure_spec(q);
    (d.chance_gold_fish * VAL_GOLD_FISH + d.chance_emerald_fish * VAL_EMERALD_FISH + d.chance_lava_fish
        * VAL_LAVA_FISH + d.chance_diamond_fish * VAL_DIAMOND_FISH + d.chance_charm * VAL_CHARM
        * d.expected_charms_permille / 1000 + d.chance_super_crate * VAL_SUPER_CRATE + d.chance_money_xp
        * VAL_MONEY_DROP) * d.multiplier_permille / 1000
}

pub fn get_treasure_ev(tier: TreasureQuality) -> (r: u64)
    ensures
        r == treasure_ev_spec(tier),
{
    let d = treasure_data(tier);
    proof {
        assert(d.chance_gold_fish <= 1000 && d.chance_emerald_fish <= 1000 && d.chance_lava_fish <= 1000
            && d.chance_diamond_fish <= 1000 && d.chance_charm <= 1000 && d.chance_super_crate <= 1000
            && d.chance_money_xp <= 1000 && d.expected_charms_permille <= 2000 && d.multiplier_permille
            <= 7500);
        lemma_mul_le(d.chance_charm as int, VAL_CHARM as int, 1000, 10_000);
        lemma_mul_le((d.chance_charm * VAL_CHARM) as int, d.expected_charms_permille as int, 10_000_000, 2000);
    }
    let contents = d.chance_gold_fish * VAL_GOLD_FISH + d.chance_emerald_fish * VAL_EMERALD_FISH
        + d.chance_lava_fish * VAL_LAVA_FISH + d.chance_diamond_fish * VAL_DIAMOND_FISH + d.chance_charm
        * VAL_CHARM * d.expected_charms_permille / 1000 + d.chance_super_crate * VAL_SUPER_CRATE
        + d.chance_money_xp * VAL_MONEY_DROP;
    proof {
        lemma_mul_le(contents as int, d.multiplier_permille as int, 200_000_000, 7500);
    }
    contents * d.multiplier_permille / 1000
}

} // verus!

use vstd::prelude::*;
use crate::parser::CatchEvent;
use crate::text::str_eq;
use crate::game_data::{
    fish_name, fish_name_spec, fish_price, fish_price_spec, FISH_COUNT,
    biome_at, boat_at, boat_at_spec, rod_at, rod_at_spec, BOAT_COUNT, ROD_COUNT,
    biome_at_spec, biome_data, biome_spec, boat_data, boat_spec, rod_data, rod_spec, Biome, BoatType,
    RodType, BIOME_COUNT,
};

verus! {

/// Value assumed for one fish, in milli-gold, before a biome has observations.
pub const PRIOR_VALUE_MILLI: u64 = 15000;
/// Shortest cooldown the rate model ever assumes, in microseconds.
pub const MIN_COOLDOWN_US: u64 = 2_000_000;
/// Grinding time beyond which a risk-bridge is considered, in seconds.
pub const RISK_BRIDGE_SECONDS: u64 = 14400;

/// Catch statistics accumulated for one biome. The averages are per-mille
/// fixed point (milli-gold and milli-XP per fish).
#[derive(Debug, Clone, Copy, PartialEq, Eq, Structural)]
pub struct BiomeStats {
    pub total_catches: u64,
    pub total_gold: u64,
    pub total_xp: u64,
    pub avg_gold_per_fish_milli: u128,
    pub avg_xp_per_fish_milli: u128,
}

/// Statistics of a biome with no observations.
pub open spec fn empty_stats() -> BiomeStats {
    BiomeStats {
        total_catches: 0,
        total_gold: 0,
        total_xp: 0,
        avg_gold_per_fish_milli: 0,
        avg_xp_per_fish_milli: 0,
    }
}

impl BiomeStats {
    pub fn new() -> (r: BiomeStats)
        ensures
            r == empty_stats(),
    {
        BiomeStats {
            total_catches: 0,
            total_gold: 0,
            total_xp: 0,
            avg_gold_per_fish_milli: 0,
            avg_xp_per_fish_milli: 0,
        }
    }

    /// Adds one observed catch of `count` fish worth `gold` and `xp`, and
    /// recomputes the cumulative means.
    pub fn update(&mut self, gold: u64, xp: u64, count: u64)
        requires
            old(self).total_catches + count <= u64::MAX,
            old(self).total_gold + gold <= u64::MAX,
            old(self).total_xp + xp <= u64::MAX,
        ensures
            final(self).total_catches == old(self).total_catches + count,
            final(self).total_gold == old(self).total_gold + gold,
            final(self).total_xp == old(self).total_xp + xp,
            final(self).total_catches > 0 ==> {
                &&& final(self).avg_gold_per_fish_milli == final(self).total_gold * 1000
                    / final(self).total_catches as int
                &&& final(self).avg_xp_per_fish_milli == final(self).total_xp * 1000
                    / final(self).total_catches as int
            },
            final(self).total_catches == 0 ==> {
                &&& final(self).avg_gold_per_fish_milli == old(self).avg_gold_per_fish_milli
                &&& final(self).avg_xp_per_fish_milli == old(self).avg_xp_per_fish_milli
            },
    {
        self.total_catches = self.total_catches + count;
        self.total_gold = self.total_gold + gold;
        self.total_xp = self.total_xp + xp;
        if self.total_catches > 0 {
            self.avg_gold_per_fish_milli = (self.total_gold as u128) * 1000
                / (self.total_catches as u128);
            self.avg_xp_per_fish_milli = (self.total_xp as u128) * 1000
                / (self.total_catches as u128);
        }
    }
}

/// Per-mille bonuses of the account that the income rate depends on.
#[derive(Debug, Clone, Copy, PartialEq, Eq, Structural)]
pub struct Bonuses {
    pub catch_bonus_permille: u16,
    pub sell_bonus_permille: u16,
    pub haste_bonus_permille: u16,
}

/// What the account currently fishes with, and where.
#[derive(Debug, Clone, Copy, PartialEq, Eq, Structural)]
pub struct Loadout {
    pub rod: RodType,
    pub boat: BoatType,
    pub biome: Biome,
}

#[derive(Debug, Clone, Copy, PartialEq, Eq, Structural)]
pub enum ActionType {
    BuyRod,
    BuyBoat,
    Travel,
    BuyUpgrade,
    Sell,
    Wait,
    /// Stake `amount` on an even-odds mechanic to close a funding gap.
    Coinflip { amount: u64 },
}

/// The item a recommendation is about.
#[derive(Debug, Clone, Copy, PartialEq, Eq, Structural)]
pub enum Target {
    Rod(RodType),
    Boat(BoatType),
    Biome(Biome),
}

/// One ranked candidate move; `roi_ms` is its payback time in milliseconds.
#[derive(Debug, Clone, Copy, PartialEq, Eq, Structural)]
pub struct Recommendation {
    pub action: ActionType,
    pub target: Target,
    pub cost: u64,
    pub roi_ms: u128,
}

pub open spec fn biome_index_spec(b: Biome) -> int {
    match b {
        Biome::River => 0,
        Biome::Volcanic => 1,
        Biome::Ocean => 2,
        Biome::Sky => 3,
        Biome::Space => 4,
        Biome::Alien => 5,
    }
}

pub fn biome_index(b: Biome) -> (i: usize)
    ensures
        i as int == biome_index_spec(b),
        i < BIOME_COUNT,
        biome_at_spec(i as int) == b,
{
    match b {
        Biome::River => 0,
        Biome::Volcanic => 1,
        Biome::Ocean => 2,
        Biome::Sky => 3,
        Biome::Space => 4,
        Biome::Alien => 5,
    }
}

/// Value of one fish in milli-gold: the prior until the biome has
/// observations, the cumulative mean after.
pub open spec fn fish_value_milli(s: BiomeStats) -> int {
    if s.total_catches > 0 {
        s.total_gold * 1000 / s.total_catches as int
    } else {
        PRIOR_VALUE_MILLI as int
    }
}

/// `max(2 s, base + penalty − boat reduction − base × haste)` in microseconds.
pub open spec fn effective_cooldown_us(boat: BoatType, biome: Biome, haste_permille: int) -> int {
    let info = biome_spec(biome);
    let raw = (info.base_cooldown_ms + info.cooldown_penalty_ms - boat_spec(
        boat,
    ).cooldown_reduction_ms) * 1000 - info.base_cooldown_ms * haste_permille;
    if raw < MIN_COOLDOWN_US { MIN_COOLDOWN_US as int } else { raw }
}

/// Income rate in milli-gold per second:
/// `fish per cast × catch rate × (1 + catch bonus) × value × (1 + sell bonus) / cooldown`,
/// rounded down.
pub open spec fn rate_spec(rod: RodType, boat: BoatType, biome: Biome, stats: BiomeStats, bonuses: Bonuses) -> int {
    rod_spec(rod).expected_fish_x2 * biome_spec(biome).catch_rate_permille * (1000
        + bonuses.catch_bonus_permille) * fish_value_milli(stats) * (1000
        + bonuses.sell_bonus_permille) / (2000 * effective_cooldown_us(
        boat,
        biome,
        bonuses.haste_bonus_permille as int,
    ))
}

/// Payback time in milliseconds of `cost` for a rate gain of `gain` milli-gold per second.
pub open spec fn roi_spec(cost: int, gain: int) -> int {
    cost * 1_000_000 / gain
}

/// The stake proposed to close the gap between `balance` and `target_cost`,
/// if grinding it at `rate` would take longer than the threshold and the gap
/// itself is affordable.
pub open spec fn risk_bridge_spec(balance: int, target_cost: int, rate: int) -> Option<int> {
    if rate > 0 && balance < target_cost && (target_cost - balance) * 1000 > RISK_BRIDGE_SECONDS
        * rate && target_cost - balance <= balance {
        Some(target_cost - balance)
    } else {
        None
    }
}

pub proof fn lemma_mul_le(a: int, b: int, x: int, y: int)
    requires
        0 <= a <= x,
        0 <= b <= y,
    ensures
        0 <= a * b <= x * y,
{
    assert(0 <= a * b <= x * y) by (nonlinear_arith)
        requires
            0 <= a <= x,
            0 <= b <= y,
    ;
}

/// Largest rate the model can produce; every rate fits well inside `u128`.
pub open spec fn max_value_milli() -> int {
    u64::MAX * 1000
}

/// Computes `rate_spec` exactly.
pub fn income_rate(rod: RodType, boat: BoatType, biome: Biome, stats: BiomeStats, bonuses: Bonuses) -> (r: u128)
    ensures
        r as int == rate_spec(rod, boat, biome, stats, bonuses),
        r <= 10_000_000_000_000_000_000_000_000_000u128,
{
    let rd = rod_data(rod);
    let bd = boat_data(boat);
    let info = biome_data(biome);
    let value: u128 = if stats.total_catches > 0 {
        (stats.total_gold as u128) * 1000 / (stats.total_catches as u128)
    } else {
        PRIOR_VALUE_MILLI as u128
    };
    proof {
        if stats.total_catches > 0 {
            let g = stats.total_gold * 1000;
            let c = stats.total_catches as int;
            assert(g / c <= g) by (nonlinear_arith)
                requires
                    g >= 0,
                    c >= 1,
            ;
        }
        assert(value <= max_value_milli());
        assert(info.base_cooldown_ms == 3000 && info.cooldown_penalty_ms <= 4000);
        lemma_mul_le(
            info.base_cooldown_ms as int,
            bonuses.haste_bonus_permille as int,
            3000,
            65535,
        );
        assert(rd.expected_fish_x2 <= 79) by {
            reveal_with_fuel(rod_spec, 1);
        }
        lemma_mul_le(rd.expected_fish_x2 as int, info.catch_rate_permille as int, 79, 1000);
        lemma_mul_le(
            (rd.expected_fish_x2 * info.catch_rate_permille) as int,
            (1000 + bonuses.catch_bonus_permille) as int,
            79000,
            66535,
        );
        lemma_mul_le(
            (rd.expected_fish_x2 * info.catch_rate_permille * (1000
                + bonuses.catch_bonus_permille)) as int,
            value as int,
            79000int * 66535,
            max_value_milli(),
        );
        lemma_mul_le(
            (rd.expected_fish_x2 * info.catch_rate_permille * (1000 + bonuses.catch_bonus_permille)
                * value) as int,
            (1000 + bonuses.sell_bonus_permille) as int,
            79000int * 66535 * max_value_milli(),
            66535,
        );
    }
    let per_cast: u128 = (rd.expected_fish_x2 as u128) * (info.catch_rate_permille as u128);
    let with_catch: u128 = per_cast * (1000 + bonuses.catch_bonus_permille as u128);
    let with_value: u128 = with_catch * value;
    let numerator: u128 = with_value * (1000 + bonuses.sell_bonus_permille as u128);
    let raw: i128 = ((info.base_cooldown_ms + info.cooldown_penalty_ms - bd.cooldown_reduction_ms)
        as i128) * 1000 - (info.base_cooldown_ms as i128) * (bonuses.haste_bonus_permille as i128);
    let cd: u128 = if raw < MIN_COOLDOWN_US as i128 {
        MIN_COOLDOWN_US as u128
    } else {
        raw as u128
    };
    let r = numerator / (2000 * cd);
    proof {
        let n = numerator as int;
        let d = (2000 * cd) as int;
        assert(n / d <= n / 4_000_000_000) by (nonlinear_arith)
            requires
                n >= 0,
                d >= 4_000_000_000,
        ;
    }
    r
}

/// Stake of a risk-bridge, computed exactly as `risk_bridge_spec` states it.
pub fn evaluate_risk_asymmetry(balance: u64, target_cost: u64, rate: u128) -> (r: Option<u64>)
    requires
        rate <= 10_000_000_000_000_000_000_000_000_000u128,
    ensures
        r matches Some(a) ==> risk_bridge_spec(balance as int, target_cost as int, rate as int)
            == Some(a as int),
        r is None ==> risk_bridge_spec(balance as int, target_cost as int, rate as int) is None,
{
    if rate == 0 || balance >= target_cost {
        return None;
    }
    let needed = target_cost - balance;
    if (needed as u128) * 1000 > (RISK_BRIDGE_SECONDS as u128) * rate && needed <= balance {
        Some(needed)
    } else {
        None
    }
}

/// Ranks the moves open to an account: upgrades, other biomes, and
/// risk-bridges towards upgrades that would take too long to afford.
pub struct Optimizer {
    /// Statistics of each biome, indexed by `biome_index`.
    pub biome_knowledge: Vec<BiomeStats>,
}

pub open spec fn current_rate(k: Seq<BiomeStats>, lo: Loadout, bon: Bonuses) -> int {
    rate_spec(lo.rod, lo.boat, lo.biome, k[biome_index_spec(lo.biome)], bon)
}

/// Recommendations that buying purchase `t` at `cost`, raising the rate to
/// `new_rate`, gives rise to: the purchase itself, preceded by a risk-bridge
/// where one is warranted.
pub open spec fn purchase_entry(
    action: ActionType,
    t: Target,
    cost: int,
    new_rate: int,
    cur: int,
    balance: u64,
) -> Seq<Recommendation> {
    let buy = Recommendation {
        action,
        target: t,
        cost: cost as u64,
        roi_ms: roi_spec(cost, new_rate - cur) as u128,
    };
    match risk_bridge_spec(balance as int, cost, cur) {
        Some(a) => seq![
            Recommendation { action: ActionType::Coinflip { amount: a as u64 }, target: t, cost: 0, roi_ms: 0 },
            buy,
        ],
        None => seq![buy],
    }
}

pub open spec fn rod_entry(r: RodType, k: Seq<BiomeStats>, lo: Loadout, bon: Bonuses, balance: u64) -> Seq<Recommendation> {
    let new_rate = rate_spec(r, lo.boat, lo.biome, k[biome_index_spec(lo.biome)], bon);
    if rod_spec(r).price > rod_spec(lo.rod).price && new_rate > current_rate(k, lo, bon) {
        purchase_entry(ActionType::BuyRod, Target::Rod(r), rod_spec(r).price as int, new_rate, current_rate(k, lo, bon), balance)
    } else {
        seq![]
    }
}

pub open spec fn boat_entry(b: BoatType, k: Seq<BiomeStats>, lo: Loadout, bon: Bonuses, balance: u64) -> Seq<Recommendation> {
    let new_rate = rate_spec(lo.rod, b, lo.biome, k[biome_index_spec(lo.biome)], bon);
    if boat_spec(b).price > boat_spec(lo.boat).price && new_rate > current_rate(k, lo, bon) {
        purchase_entry(ActionType::BuyBoat, Target::Boat(b), boat_spec(b).price as int, new_rate, current_rate(k, lo, bon), balance)
    } else {
        seq![]
    }
}

pub open spec fn travel_entry(b: Biome, k: Seq<BiomeStats>, lo: Loadout, bon: Bonuses) -> Seq<Recommendation> {
    if b != lo.biome && rate_spec(lo.rod, lo.boat, b, k[biome_index_spec(b)], bon) > current_rate(k, lo, bon) {
        seq![Recommendation { action: ActionType::Travel, target: Target::Biome(b), cost: 0, roi_ms: 0 }]
    } else {
        seq![]
    }
}

pub open spec fn rod_entries(n: int, k: Seq<BiomeStats>, lo: Loadout, bon: Bonuses, balance: u64) -> Seq<Recommendation>
    decreases n,
{
    if n <= 0 {
        seq![]
    } else {
        rod_entries(n - 1, k, lo, bon, balance) + rod_entry(rod_at_spec(n - 1), k, lo, bon, balance)
    }
}

pub open spec fn boat_entries(n: int, k: Seq<BiomeStats>, lo: Loadout, bon: Bonuses, balance: u64) -> Seq<Recommendation>
    decreases n,
{
    if n <= 0 {
        seq![]
    } else {
        boat_entries(n - 1, k, lo, bon, balance) + boat_entry(boat_at_spec(n - 1), k, lo, bon, balance)
    }
}

pub open spec fn travel_entries(n: int, k: Seq<BiomeStats>, lo: Loadout, bon: Bonuses) -> Seq<Recommendation>
    decreases n,
{
    if n <= 0 {
        seq![]
    } else {
        travel_entries(n - 1, k, lo, bon) + travel_entry(biome_at_spec(n - 1), k, lo, bon)
    }
}

/// Every candidate move, before ranking: better rods, better boats, then
/// more profitable biomes, each in catalogue order.
pub open spec fn candidates(k: Seq<BiomeStats>, lo: Loadout, bon: Bonuses, balance: u64) -> Seq<Recommendation> {
    rod_entries(ROD_COUNT as int, k, lo, bon, balance) + boat_entries(BOAT_COUNT as int, k, lo, bon, balance)
        + travel_entries(BIOME_COUNT as int, k, lo, bon)
}

pub open spec fn sorted_by_roi(s: Seq<Recommendation>) -> bool {
    forall|i: int, j: int| 0 <= i < j < s.len() ==> s[i].roi_ms <= s[j].roi_ms
}

pub proof fn lemma_insert_to_multiset<A>(s: Seq<A>, p: int, x: A)
    requires
        0 <= p <= s.len(),
    ensures
        s.insert(p, x).to_multiset() =~= s.to_multiset().insert(x),
{
    broadcast use vstd::seq_lib::group_to_multiset_ensures;

    let t = s.insert(p, x);
    assert(t.remove(p) =~= s);
    assert(t[p] == x);
    assert(t.contains(x));
    assert(t.to_multiset().count(x) > 0);
    let m = t.to_multiset();
    assert(m.remove(x).insert(x) =~= m);
}

/// Sorts by ascending `roi_ms`.
pub fn sort_by_roi(v: Vec<Recommendation>) -> (r: Vec<Recommendation>)
    ensures
        sorted_by_roi(r@),
        r@.to_multiset() =~= v@.to_multiset(),
{
    let mut out: Vec<Recommendation> = Vec::new();
    let mut i: usize = 0;
    assert(out@ =~= v@.take(0));
    while i < v.len()
        invariant
            i <= v.len(),
            sorted_by_roi(out@),
            out@.to_multiset() =~= v@.take(i as int).to_multiset(),
        decreases v.len() - i,
    {
        let c = v[i];
        let mut p: usize = 0;
        while p < out.len() && out[p].roi_ms <= c.roi_ms
            invariant
                p <= out.len(),
                forall|k: int| 0 <= k < p ==> out@[k].roi_ms <= c.roi_ms,
            decreases out.len() - p,
        {
            p = p + 1;
        }
        proof {
            if p < out.len() {
                assert forall|k: int| p <= k < out.len() implies out@[k].roi_ms > c.roi_ms by {
                    assert(out@[p as int].roi_ms <= out@[k].roi_ms || k == p);
                }
            }
            lemma_insert_to_multiset(out@, p as int, c);
            assert(v@.take(i + 1) =~= v@.take(i as int).push(c));
            broadcast use vstd::seq_lib::group_to_multiset_ensures;
        }
        let ghost before = out@;
        out.insert(p, c);
        proof {
            assert forall|a: int, b: int| 0 <= a < b < out@.len() implies out@[a].roi_ms
                <= out@[b].roi_ms by {
                if b < p {
                } else if b == p {
                } else if a < p {
                    assert(before[a].roi_ms <= c.roi_ms);
                    assert(out@[b] == before[b - 1]);
                } else if a == p {
                    assert(out@[b] == before[b - 1]);
                } else {
                    assert(out@[b] == before[b - 1]);
                    assert(out@[a] == before[a - 1]);
                }
            }
        }
        i = i + 1;
    }
    assert(v@.take(v.len() as int) =~= v@);
    out
}

/// Appends `purchase_entry` for one purchase.
fn push_purchase(
    out: &mut Vec<Recommendation>,
    action: ActionType,
    t: Target,
    cost: u64,
    new_rate: u128,
    cur: u128,
    balance: u64,
)
    requires
        new_rate > cur,
        cur <= 10_000_000_000_000_000_000_000_000_000u128,
    ensures
        final(out)@ == old(out)@ + purchase_entry(
            action,
            t,
            cost as int,
            new_rate as int,
            cur as int,
            balance,
        ),
{
    let gain = new_rate - cur;
    let roi = (cost as u128) * 1_000_000 / gain;
    let buy = Recommendation { action, target: t, cost, roi_ms: roi };
    let ghost before = out@;
    match evaluate_risk_asymmetry(balance, cost, cur) {
        Some(a) => {
            out.push(
                Recommendation {
                    action: ActionType::Coinflip { amount: a },
                    target: t,
                    cost: 0,
                    roi_ms: 0,
                },
            );
            out.push(buy);
        },
        None => {
            out.push(buy);
        },
    }
    assert(out@ =~= before + purchase_entry(action, t, cost as int, new_rate as int, cur as int, balance));
}

impl Optimizer {
    pub open spec fn wf(&self) -> bool {
        self.biome_knowledge@.len() == BIOME_COUNT
    }

    /// An optimizer that knows nothing of any biome yet.
    pub fn new() -> (r: Optimizer)
        ensures
            r.wf(),
            forall|i: int| 0 <= i < BIOME_COUNT ==> #[trigger] r.biome_knowledge@[i] == empty_stats(),
    {
        let mut v: Vec<BiomeStats> = Vec::new();
        let mut i: usize = 0;
        while i < BIOME_COUNT
            invariant
                i <= BIOME_COUNT,
                v@.len() == i,
                forall|j: int| 0 <= j < i ==> #[trigger] v@[j] == empty_stats(),
            decreases BIOME_COUNT - i,
        {
            v.push(BiomeStats::new());
            i = i + 1;
        }
        Optimizer { biome_knowledge: v }
    }

    /// The statistics kept for biome `b`.
    pub fn stats(&self, b: Biome) -> (r: BiomeStats)
        requires
            self.wf(),
        ensures
            r == self.biome_knowledge@[biome_index_spec(b)],
    {
        self.biome_knowledge[biome_index(b)]
    }

    /// Income rate, in milli-gold per second, of fishing with `rod` and `boat`
    /// in `biome`.
    pub fn calculate_metrics(&self, rod: RodType, boat: BoatType, biome: Biome, bonuses: Bonuses) -> (r: u128)
        requires
            self.wf(),
        ensures
            r as int == rate_spec(rod, boat, biome, self.biome_knowledge@[biome_index_spec(biome)], bonuses),
    {
        income_rate(rod, boat, biome, self.stats(biome), bonuses)
    }

    /// All candidate moves from loadout `lo` with `balance` gold, ranked by
    /// ascending payback time (free travel first).
    pub fn solve_next_move(&self, lo: Loadout, bonuses: Bonuses, balance: u64) -> (r: Vec<Recommendation>)
        requires
            self.wf(),
        ensures
            sorted_by_roi(r@),
            r@.to_multiset() =~= candidates(self.biome_knowledge@, lo, bonuses, balance).to_multiset(),
    {
        let ghost k = self.biome_knowledge@;
        let here = self.stats(lo.biome);
        let cur = income_rate(lo.rod, lo.boat, lo.biome, here, bonuses);
        let cur_rod_price = rod_data(lo.rod).price;
        let cur_boat_price = boat_data(lo.boat).price;
        let mut out: Vec<Recommendation> = Vec::new();
        let mut i: usize = 0;
        while i < ROD_COUNT
            invariant
                self.wf(),
                k == self.biome_knowledge@,
                here == k[biome_index_spec(lo.biome)],
                cur as int == current_rate(k, lo, bonuses),
                cur <= 10_000_000_000_000_000_000_000_000_000u128,
                cur_rod_price == rod_spec(lo.rod).price,
                i <= ROD_COUNT,
                out@ == rod_entries(i as int, k, lo, bonuses, balance),
            decreases ROD_COUNT - i,
        {
            let r = rod_at(i);
            let price = rod_data(r).price;
            if price > cur_rod_price {
                let new_rate = income_rate(r, lo.boat, lo.biome, here, bonuses);
                if new_rate > cur {
                    push_purchase(&mut out, ActionType::BuyRod, Target::Rod(r), price, new_rate, cur, balance);
                }
            }
            proof {
                assert(rod_entries(i + 1, k, lo, bonuses, balance) == rod_entries(i as int, k, lo, bonuses, balance)
                    + rod_entry(rod_at_spec(i as int), k, lo, bonuses, balance));
            }
            i = i + 1;
        }
        let ghost rods = out@;
        let mut i: usize = 0;
        while i < BOAT_COUNT
            invariant
                self.wf(),
                k == self.biome_knowledge@,
                here == k[biome_index_spec(lo.biome)],
                cur as int == current_rate(k, lo, bonuses),
                cur <= 10_000_000_000_000_000_000_000_000_000u128,
                cur_boat_price == boat_spec(lo.boat).price,
                rods == rod_entries(ROD_COUNT as int, k, lo, bonuses, balance),
                i <= BOAT_COUNT,
                out@ == rods + boat_entries(i as int, k, lo, bonuses, balance),
            decreases BOAT_COUNT - i,
        {
            let b = boat_at(i);
            let price = boat_data(b).price;
            let ghost before = out@;
            if price > cur_boat_price {
                let new_rate = income_rate(lo.rod, b, lo.biome, here, bonuses);
                if new_rate > cur {
                    push_purchase(&mut out, ActionType::BuyBoat, Target::Boat(b), price, new_rate, cur, balance);
                }
            }
            proof {
                assert(boat_entries(i + 1, k, lo, bonuses, balance) == boat_entries(i as int, k, lo, bonuses, balance)
                    + boat_entry(boat_at_spec(i as int), k, lo, bonuses, balance));
                assert(out@ =~= rods + boat_entries(i + 1, k, lo, bonuses, balance));
            }
            i = i + 1;
        }
        let ghost boats = out@;
        let mut i: usize = 0;
        while i < BIOME_COUNT
            invariant
                self.wf(),
                k == self.biome_knowledge@,
                cur as int == current_rate(k, lo, bonuses),
                boats == rod_entries(ROD_COUNT as int, k, lo, bonuses, balance) + boat_entries(BOAT_COUNT as int, k, lo, bonuses, balance),
                i <= BIOME_COUNT,
                out@ == boats + travel_entries(i as int, k, lo, bonuses),
            decreases BIOME_COUNT - i,
        {
            let b = biome_at(i);
            if b != lo.biome {
                let new_rate = income_rate(lo.rod, lo.boat, b, self.stats(b), bonuses);
                if new_rate > cur {
                    out.push(Recommendation { action: ActionType::Travel, target: Target::Biome(b), cost: 0, roi_ms: 0 });
                }
            }
            proof {
                assert(travel_entries(i + 1, k, lo, bonuses) == travel_entries(i as int, k, lo, bonuses)
                    + travel_entry(biome_at_spec(i as int), k, lo, bonuses));
                assert(out@ =~= boats + travel_entries(i + 1, k, lo, bonuses));
            }
            i = i + 1;
        }
        sort_by_roi(out)
    }
}

/// What every candidate move satisfies: a purchase raises the rate above the
/// current one and pays back in exactly `cost / (new rate − current rate)`;
/// a travel goes to another, more profitable biome for free; a risk-bridge
/// stakes exactly the shortfall towards a purchase, and only when grinding
/// it would take longer than the threshold and the shortfall is affordable.
pub open spec fn move_justified(x: Recommendation, k: Seq<BiomeStats>, lo: Loadout, bon: Bonuses, balance: u64) -> bool {
    let cur = current_rate(k, lo, bon);
    let here = k[biome_index_spec(lo.biome)];
    match x.action {
        ActionType::BuyRod => match x.target {
            Target::Rod(t) => {
                let new_rate = rate_spec(t, lo.boat, lo.biome, here, bon);
                &&& rod_spec(t).price > rod_spec(lo.rod).price
                &&& new_rate > cur
                &&& x.cost == rod_spec(t).price
                &&& x.roi_ms == roi_spec(x.cost as int, new_rate - cur)
            },
            _ => false,
        },
        ActionType::BuyBoat => match x.target {
            Target::Boat(t) => {
                let new_rate = rate_spec(lo.rod, t, lo.biome, here, bon);
                &&& boat_spec(t).price > boat_spec(lo.boat).price
                &&& new_rate > cur
                &&& x.cost == boat_spec(t).price
                &&& x.roi_ms == roi_spec(x.cost as int, new_rate - cur)
            },
            _ => false,
        },
        ActionType::Travel => match x.target {
            Target::Biome(b) => {
                &&& b != lo.biome
                &&& rate_spec(lo.rod, lo.boat, b, k[biome_index_spec(b)], bon) > cur
                &&& x.cost == 0
                &&& x.roi_ms == 0
            },
            _ => false,
        },
        ActionType::Coinflip { amount } => {
            let price = match x.target {
                Target::Rod(t) => rod_spec(t).price as int,
                Target::Boat(t) => boat_spec(t).price as int,
                Target::Biome(_) => -1,
            };
            &&& price >= 0
            &&& risk_bridge_spec(balance as int, price, cur) == Some(amount as int)
            &&& x.cost == 0
            &&& x.roi_ms == 0
        },
        _ => false,
    }
}

proof fn lemma_purchase_entry_justified(
    action: ActionType,
    t: Target,
    cost: int,
    new_rate: int,
    k: Seq<BiomeStats>,
    lo: Loadout,
    bon: Bonuses,
    balance: u64,
    x: Recommendation,
)
    requires
        action == ActionType::BuyRod || action == ActionType::BuyBoat,
        0 <= cost <= u64::MAX,
        new_rate > current_rate(k, lo, bon),
        current_rate(k, lo, bon) >= 0,
        purchase_entry(action, t, cost, new_rate, current_rate(k, lo, bon), balance).contains(x),
    ensures
        x.action == action || (x.action is Coinflip && x.target == t && x.cost == 0 && x.roi_ms == 0
            && risk_bridge_spec(balance as int, cost, current_rate(k, lo, bon)) == Some(
            x.action->amount as int,
        )),
        x.action == action ==> x.target == t && x.cost == cost && x.roi_ms == roi_spec(
            cost,
            new_rate - current_rate(k, lo, bon),
        ),
{
    let cur = current_rate(k, lo, bon);
    let g = new_rate - cur;
    assert(cost * 1_000_000 / g <= cost * 1_000_000) by (nonlinear_arith)
        requires
            cost >= 0,
            g >= 1,
    ;
    assert(cost * 1_000_000 / g >= 0) by (nonlinear_arith)
        requires
            cost >= 0,
            g >= 1,
    ;
    let e = purchase_entry(action, t, cost, new_rate, cur, balance);
    let i = choose|i: int| 0 <= i < e.len() && e[i] == x;
    match risk_bridge_spec(balance as int, cost, cur) {
        Some(a) => {
            if i == 0 {
                assert(x.action == ActionType::Coinflip { amount: a as u64 });
            } else {
                assert(x == e[1]);
            }
        },
        None => {
            assert(x == e[0]);
        },
    }
}

proof fn lemma_rod_entries_justified(n: int, k: Seq<BiomeStats>, lo: Loadout, bon: Bonuses, balance: u64)
    requires
        0 <= n <= ROD_COUNT,
    ensures
        forall|x: Recommendation| #[trigger] rod_entries(n, k, lo, bon, balance).contains(x)
            ==> move_justified(x, k, lo, bon, balance),
    decreases n,
{
    if n > 0 {
        lemma_rod_entries_justified(n - 1, k, lo, bon, balance);
        let a = rod_entries(n - 1, k, lo, bon, balance);
        let r = rod_at_spec(n - 1);
        let b = rod_entry(r, k, lo, bon, balance);
        assert forall|x: Recommendation| #[trigger] (a + b).contains(x) implies move_justified(
            x,
            k,
            lo,
            bon,
            balance,
        ) by {
            if !a.contains(x) {
                let i = choose|i: int| 0 <= i < (a + b).len() && (a + b)[i] == x;
                assert(b[i - a.len()] == x);
                assert(b.contains(x));
                let here = k[biome_index_spec(lo.biome)];
                let new_rate = rate_spec(r, lo.boat, lo.biome, here, bon);
                lemma_rate_nonneg(lo.rod, lo.boat, lo.biome, here, bon);
                lemma_purchase_entry_justified(
                    ActionType::BuyRod,
                    Target::Rod(r),
                    rod_spec(r).price as int,
                    new_rate,
                    k,
                    lo,
                    bon,
                    balance,
                    x,
                );
            }
        }
    }
}

proof fn lemma_boat_entries_justified(n: int, k: Seq<BiomeStats>, lo: Loadout, bon: Bonuses, balance: u64)
    requires
        0 <= n <= BOAT_COUNT,
    ensures
        forall|x: Recommendation| #[trigger] boat_entries(n, k, lo, bon, balance).contains(x)
            ==> move_justified(x, k, lo, bon, balance),
    decreases n,
{
    if n > 0 {
        lemma_boat_entries_justified(n - 1, k, lo, bon, balance);
        let a = boat_entries(n - 1, k, lo, bon, balance);
        let r = boat_at_spec(n - 1);
        let b = boat_entry(r, k, lo, bon, balance);
        assert forall|x: Recommendation| #[trigger] (a + b).contains(x) implies move_justified(
            x,
            k,
            lo,
            bon,
            balance,
        ) by {
            if !a.contains(x) {
                let i = choose|i: int| 0 <= i < (a + b).len() && (a + b)[i] == x;
                assert(b[i - a.len()] == x);
                assert(b.contains(x));
                let here = k[biome_index_spec(lo.biome)];
                let new_rate = rate_spec(lo.rod, r, lo.biome, here, bon);
                lemma_rate_nonneg(lo.rod, lo.boat, lo.biome, here, bon);
                lemma_purchase_entry_justified(
                    ActionType::BuyBoat,
                    Target::Boat(r),
                    boat_spec(r).price as int,
                    new_rate,
                    k,
                    lo,
                    bon,
                    balance,
                    x,
                );
            }
        }
    }
}

proof fn lemma_travel_entries_justified(n: int, k: Seq<BiomeStats>, lo: Loadout, bon: Bonuses, balance: u64)
    requires
        0 <= n <= BIOME_COUNT,
    ensures
        forall|x: Recommendation| #[trigger] travel_entries(n, k, lo, bon).contains(x)
            ==> move_justified(x, k, lo, bon, balance),
    decreases n,
{
    if n > 0 {
        lemma_travel_entries_justified(n - 1, k, lo, bon, balance);
        let a = travel_entries(n - 1, k, lo, bon);
        let b = travel_entry(biome_at_spec(n - 1), k, lo, bon);
        assert forall|x: Recommendation| #[trigger] (a + b).contains(x) implies move_justified(
            x,
            k,
            lo,
            bon,
            balance,
        ) by {
            if !a.contains(x) {
                let i = choose|i: int| 0 <= i < (a + b).len() && (a + b)[i] == x;
                assert(b[i - a.len()] == x);
            }
        }
    }
}

proof fn lemma_rate_nonneg(rod: RodType, boat: BoatType, biome: Biome, stats: BiomeStats, bon: Bonuses)
    ensures
        rate_spec(rod, boat, biome, stats, bon) >= 0,
{
    let n = rod_spec(rod).expected_fish_x2 * biome_spec(biome).catch_rate_permille * (1000
        + bon.catch_bonus_permille) * fish_value_milli(stats) * (1000 + bon.sell_bonus_permille);
    let d = 2000 * effective_cooldown_us(boat, biome, bon.haste_bonus_permille as int);
    if stats.total_catches > 0 {
        let g = stats.total_gold * 1000;
        let c = stats.total_catches as int;
        assert(g / c >= 0) by (nonlinear_arith)
            requires
                g >= 0,
                c >= 1,
        ;
    }
    lemma_mul_le(
        (rod_spec(rod).expected_fish_x2 * biome_spec(biome).catch_rate_permille) as int,
        (1000 + bon.catch_bonus_permille) as int,
        (rod_spec(rod).expected_fish_x2 * biome_spec(biome).catch_rate_permille) as int,
        (1000 + bon.catch_bonus_permille) as int,
    );
    lemma_mul_le(
        rod_spec(rod).expected_fish_x2 * biome_spec(biome).catch_rate_permille * (1000
            + bon.catch_bonus_permille),
        fish_value_milli(stats),
        rod_spec(rod).expected_fish_x2 * biome_spec(biome).catch_rate_permille * (1000
            + bon.catch_bonus_permille),
        fish_value_milli(stats),
    );
    lemma_mul_le(
        rod_spec(rod).expected_fish_x2 * biome_spec(biome).catch_rate_permille * (1000
            + bon.catch_bonus_permille) * fish_value_milli(stats),
        (1000 + bon.sell_bonus_permille) as int,
        rod_spec(rod).expected_fish_x2 * biome_spec(biome).catch_rate_permille * (1000
            + bon.catch_bonus_permille) * fish_value_milli(stats),
        (1000 + bon.sell_bonus_permille) as int,
    );
    assert(n / d >= 0) by (nonlinear_arith)
        requires
            n >= 0,
            d >= 1,
    ;
}

/// Every move the optimizer proposes is justified (`move_justified`): in
/// particular a purchase's payback time is exactly its cost over its rate
/// gain, a purchase that does not raise the rate is never proposed, and a
/// risk-bridge is proposed only under the threshold rule.
pub proof fn lemma_candidates_justified(k: Seq<BiomeStats>, lo: Loadout, bon: Bonuses, balance: u64, x: Recommendation)
    requires
        candidates(k, lo, bon, balance).contains(x),
    ensures
        move_justified(x, k, lo, bon, balance),
{
    let a = rod_entries(ROD_COUNT as int, k, lo, bon, balance);
    let b = boat_entries(BOAT_COUNT as int, k, lo, bon, balance);
    let c = travel_entries(BIOME_COUNT as int, k, lo, bon);
    lemma_rod_entries_justified(ROD_COUNT as int, k, lo, bon, balance);
    lemma_boat_entries_justified(BOAT_COUNT as int, k, lo, bon, balance);
    lemma_travel_entries_justified(BIOME_COUNT as int, k, lo, bon, balance);
    let i = choose|i: int| 0 <= i < (a + b + c).len() && (a + b + c)[i] == x;
    if i < a.len() {
        assert(a.contains(x));
    } else if i < a.len() + b.len() {
        assert(b[i - a.len()] == x);
        assert(b.contains(x));
    } else {
        assert(c[i - a.len() - b.len()] == x);
        assert(c.contains(x));
    }
}

/// The ranked list holds only justified moves: whatever `solve_next_move`
/// returns satisfies `move_justified` element by element.
pub proof fn lemma_ranked_moves_justified(
    ranked: Seq<Recommendation>,
    k: Seq<BiomeStats>,
    lo: Loadout,
    bon: Bonuses,
    balance: u64,
    i: int,
)
    requires
        ranked.to_multiset() =~= candidates(k, lo, bon, balance).to_multiset(),
        0 <= i < ranked.len(),
    ensures
        move_justified(ranked[i], k, lo, bon, balance),
{
    broadcast use vstd::seq_lib::group_to_multiset_ensures;

    assert(ranked.contains(ranked[i]));
    assert(candidates(k, lo, bon, balance).to_multiset().count(ranked[i]) > 0);
    lemma_candidates_justified(k, lo, bon, balance, ranked[i]);
}

/// Sell price of the catalogue fish named `n`, from catalogue position `i`
/// on; 0 for a name the catalogue does not hold.
pub open spec fn price_from(n: Seq<char>, i: int) -> int
    decreases FISH_COUNT - i,
{
    if i < 0 || i >= FISH_COUNT {
        0
    } else if fish_name_spec(i) == n {
        fish_price_spec(i) as int
    } else {
        price_from(n, i + 1)
    }
}

pub open spec fn price_of_name(n: Seq<char>) -> int {
    price_from(n, 0)
}

proof fn lemma_price_bound(n: Seq<char>, i: int)
    ensures
        0 <= price_from(n, i) <= 5_000_000,
    decreases FISH_COUNT - i,
{
    if 0 <= i < FISH_COUNT && fish_name_spec(i) != n {
        lemma_price_bound(n, i + 1);
    }
}

/// Computes `price_of_name`.
pub fn fish_price_by_name(n: &str) -> (r: u64)
    ensures
        r == price_of_name(n@),
        r <= 5_000_000,
{
    proof {
        lemma_price_bound(n@, 0);
    }
    let mut i: usize = 0;
    while i < FISH_COUNT
        invariant
            i <= FISH_COUNT,
            price_from(n@, i as int) == price_of_name(n@),
        decreases FISH_COUNT - i,
    {
        if str_eq(fish_name(i), n) {
            return fish_price(i);
        }
        i = i + 1;
    }
    0
}

/// Gold worth of a catch at catalogue prices.
pub open spec fn catch_gold(f: Seq<(Seq<char>, u32)>) -> int
    decreases f.len(),
{
    if f.len() == 0 {
        0
    } else {
        catch_gold(f.drop_last()) + price_of_name(f.last().0) * f.last().1
    }
}

/// Number of fish in a catch.
pub open spec fn catch_count(f: Seq<(Seq<char>, u32)>) -> int
    decreases f.len(),
{
    if f.len() == 0 {
        0
    } else {
        catch_count(f.drop_last()) + f.last().1
    }
}

/// Statistics after observing a catch of `f` with `xp` XP: totals grow and
/// means are recomputed; a catch without fish, or one that would overflow
/// the totals, leaves them as they are.
pub open spec fn stats_after(st: BiomeStats, f: Seq<(Seq<char>, u32)>, xp: u64) -> BiomeStats {
    let g = catch_gold(f);
    let c = catch_count(f);
    if c > 0 && st.total_catches + c <= u64::MAX && st.total_gold + g <= u64::MAX && st.total_xp
        + xp <= u64::MAX {
        BiomeStats {
            total_catches: (st.total_catches + c) as u64,
            total_gold: (st.total_gold + g) as u64,
            total_xp: (st.total_xp + xp) as u64,
            avg_gold_per_fish_milli: ((st.total_gold + g) * 1000 / (st.total_catches + c)) as u128,
            avg_xp_per_fish_milli: ((st.total_xp + xp) * 1000 / (st.total_catches + c)) as u128,
        }
    } else {
        st
    }
}

impl Optimizer {
    /// Learns from a catch made in biome `b`; returns whether the statistics
    /// changed.
    pub fn record_catch(&mut self, b: Biome, c: &CatchEvent) -> (changed: bool)
        requires
            old(self).wf(),
        ensures
            final(self).wf(),
            final(self).biome_knowledge@ == old(self).biome_knowledge@.update(
                biome_index_spec(b),
                stats_after(old(self).biome_knowledge@[biome_index_spec(b)], c.fish_view(), c.xp),
            ),
            changed == (stats_after(old(self).biome_knowledge@[biome_index_spec(b)], c.fish_view(), c.xp)
                != old(self).biome_knowledge@[biome_index_spec(b)]),
    {
        let ghost f = c.fish_view();
        let mut gold: u128 = 0;
        let mut count: u128 = 0;
        let mut i: usize = 0;
        while i < c.fish.len()
            invariant
                f == c.fish_view(),
                f.len() == c.fish@.len(),
                i <= f.len(),
                gold == catch_gold(f.take(i as int)),
                count == catch_count(f.take(i as int)),
                gold <= i * 21_474_836_475_000_000,
                count <= i * 4_294_967_295,
            decreases f.len() - i,
        {
            let p = fish_price_by_name(c.fish[i].0.as_str());
            let n = c.fish[i].1;
            proof {
                assert(f.take(i + 1).drop_last() =~= f.take(i as int));
                assert(f[i as int] == (c.fish@[i as int].0@, c.fish@[i as int].1));
                lemma_mul_le(p as int, n as int, 5_000_000, 4_294_967_295);
                assert(i * 21_474_836_475_000_000 <= 18_446_744_073_709_551_615 * 21_474_836_475_000_000int) by (nonlinear_arith)
                    requires
                        0 <= i <= 18_446_744_073_709_551_615,
                ;
            }
            gold = gold + (p as u128) * (n as u128);
            count = count + n as u128;
            i = i + 1;
        }
        assert(f.take(f.len() as int) =~= f);
        let idx = biome_index(b);
        let st = self.biome_knowledge[idx];
        if count > 0 && (st.total_catches as u128) + count <= u64::MAX as u128 && (st.total_gold as u128)
            + gold <= u64::MAX as u128 && (st.total_xp as u128) + (c.xp as u128) <= u64::MAX as u128 {
            let mut ns = st;
            ns.update(gold as u64, c.xp, count as u64);
            self.biome_knowledge.set(idx, ns);
            assert(ns != st);
            true
        } else {
            false
        }
    }
}


/// A purchase of `t` at `cost` that the candidates of family `action` hold.
pub open spec fn has_purchase(s: Seq<Recommendation>, action: ActionType, t: Target, cost: int) -> bool {
    exists|y: Recommendation| #[trigger] s.contains(y) && y.action == action && y.target == t && y.cost == cost
}

proof fn lemma_contains_concat(a: Seq<Recommendation>, b: Seq<Recommendation>, x: Recommendation)
    ensures
        (a + b).contains(x) <==> a.contains(x) || b.contains(x),
{
    if a.contains(x) {
        let i = choose|i: int| 0 <= i < a.len() && a[i] == x;
        assert((a + b)[i] == x);
    }
    if b.contains(x) {
        let i = choose|i: int| 0 <= i < b.len() && b[i] == x;
        assert((a + b)[a.len() + i] == x);
    }
    if (a + b).contains(x) {
        let i = choose|i: int| 0 <= i < (a + b).len() && (a + b)[i] == x;
        if i < a.len() {
            assert(a[i] == x);
        } else {
            assert(b[i - a.len()] == x);
        }
    }
}

proof fn lemma_entry_bridge(
    action: ActionType,
    t: Target,
    cost: int,
    new_rate: int,
    cur: int,
    balance: u64,
    x: Recommendation,
)
    requires
        action == ActionType::BuyRod || action == ActionType::BuyBoat,
        purchase_entry(action, t, cost, new_rate, cur, balance).contains(x),
        x.action is Coinflip,
        0 <= cost <= u64::MAX,
    ensures
        has_purchase(purchase_entry(action, t, cost, new_rate, cur, balance), action, t, cost),
{
    let e = purchase_entry(action, t, cost, new_rate, cur, balance);
    let last = e[e.len() - 1];
    assert(e.contains(last));
}

proof fn lemma_rod_bridges(n: int, k: Seq<BiomeStats>, lo: Loadout, bon: Bonuses, balance: u64, x: Recommendation)
    requires
        0 <= n <= ROD_COUNT,
        rod_entries(n, k, lo, bon, balance).contains(x),
        x.action is Coinflip,
    ensures
        x.target is Rod,
        has_purchase(rod_entries(n, k, lo, bon, balance), ActionType::BuyRod, x.target, rod_spec(x.target->Rod_0).price as int),
    decreases n,
{
    let a = rod_entries(n - 1, k, lo, bon, balance);
    let r = rod_at_spec(n - 1);
    let b = rod_entry(r, k, lo, bon, balance);
    lemma_contains_concat(a, b, x);
    if a.contains(x) {
        lemma_rod_bridges(n - 1, k, lo, bon, balance, x);
        let y = choose|y: Recommendation| #[trigger] a.contains(y) && y.action == ActionType::BuyRod && y.target
            == x.target && y.cost == rod_spec(x.target->Rod_0).price as int;
        lemma_contains_concat(a, b, y);
    } else {
        let here = k[biome_index_spec(lo.biome)];
        let new_rate = rate_spec(r, lo.boat, lo.biome, here, bon);
        lemma_entry_bridge(ActionType::BuyRod, Target::Rod(r), rod_spec(r).price as int, new_rate, current_rate(k, lo, bon), balance, x);
        let e = purchase_entry(ActionType::BuyRod, Target::Rod(r), rod_spec(r).price as int, new_rate, current_rate(k, lo, bon), balance);
        let i = choose|i: int| 0 <= i < e.len() && e[i] == x;
        assert(x.target == Target::Rod(r));
        let y = choose|y: Recommendation| #[trigger] b.contains(y) && y.action == ActionType::BuyRod && y.target
            == x.target && y.cost == rod_spec(x.target->Rod_0).price as int;
        lemma_contains_concat(a, b, y);
    }
}

proof fn lemma_boat_bridges(n: int, k: Seq<BiomeStats>, lo: Loadout, bon: Bonuses, balance: u64, x: Recommendation)
    requires
        0 <= n <= BOAT_COUNT,
        boat_entries(n, k, lo, bon, balance).contains(x),
        x.action is Coinflip,
    ensures
        x.target is Boat,
        has_purchase(boat_entries(n, k, lo, bon, balance), ActionType::BuyBoat, x.target, boat_spec(x.target->Boat_0).price as int),
    decreases n,
{
    let a = boat_entries(n - 1, k, lo, bon, balance);
    let r = boat_at_spec(n - 1);
    let b = boat_entry(r, k, lo, bon, balance);
    lemma_contains_concat(a, b, x);
    if a.contains(x) {
        lemma_boat_bridges(n - 1, k, lo, bon, balance, x);
        let y = choose|y: Recommendation| #[trigger] a.contains(y) && y.action == ActionType::BuyBoat && y.target
            == x.target && y.cost == boat_spec(x.target->Boat_0).price as int;
        lemma_contains_concat(a, b, y);
    } else {
        let here = k[biome_index_spec(lo.biome)];
        let new_rate = rate_spec(lo.rod, r, lo.biome, here, bon);
        lemma_entry_bridge(ActionType::BuyBoat, Target::Boat(r), boat_spec(r).price as int, new_rate, current_rate(k, lo, bon), balance, x);
        let e = purchase_entry(ActionType::BuyBoat, Target::Boat(r), boat_spec(r).price as int, new_rate, current_rate(k, lo, bon), balance);
        let i = choose|i: int| 0 <= i < e.len() && e[i] == x;
        assert(x.target == Target::Boat(r));
        let y = choose|y: Recommendation| #[trigger] b.contains(y) && y.action == ActionType::BuyBoat && y.target
            == x.target && y.cost == boat_spec(x.target->Boat_0).price as int;
        lemma_contains_concat(a, b, y);
    }
}

proof fn lemma_travel_no_bridge(n: int, k: Seq<BiomeStats>, lo: Loadout, bon: Bonuses, x: Recommendation)
    requires
        0 <= n <= BIOME_COUNT,
        travel_entries(n, k, lo, bon).contains(x),
    ensures
        x.action == ActionType::Travel,
    decreases n,
{
    let a = travel_entries(n - 1, k, lo, bon);
    let b = travel_entry(biome_at_spec(n - 1), k, lo, bon);
    lemma_contains_concat(a, b, x);
    if a.contains(x) {
        lemma_travel_no_bridge(n - 1, k, lo, bon, x);
    } else {
        let i = choose|i: int| 0 <= i < b.len() && b[i] == x;
    }
}

/// Every proposed risk-bridge comes with the purchase it bridges to: the
/// candidates also hold buying its target at the target's price.
pub proof fn lemma_bridge_has_purchase(k: Seq<BiomeStats>, lo: Loadout, bon: Bonuses, balance: u64, x: Recommendation)
    requires
        candidates(k, lo, bon, balance).contains(x),
        x.action is Coinflip,
    ensures
        match x.target {
            Target::Rod(t) => has_purchase(candidates(k, lo, bon, balance), ActionType::BuyRod, x.target, rod_spec(t).price as int),
            Target::Boat(t) => has_purchase(candidates(k, lo, bon, balance), ActionType::BuyBoat, x.target, boat_spec(t).price as int),
            Target::Biome(_) => false,
        },
{
    let a = rod_entries(ROD_COUNT as int, k, lo, bon, balance);
    let b = boat_entries(BOAT_COUNT as int, k, lo, bon, balance);
    let c = travel_entries(BIOME_COUNT as int, k, lo, bon);
    lemma_contains_concat(a + b, c, x);
    if c.contains(x) {
        lemma_travel_no_bridge(BIOME_COUNT as int, k, lo, bon, x);
    } else {
        lemma_contains_concat(a, b, x);
        if a.contains(x) {
            lemma_rod_bridges(ROD_COUNT as int, k, lo, bon, balance, x);
            let y = choose|y: Recommendation| #[trigger] a.contains(y) && y.action == ActionType::BuyRod && y.target
                == x.target && y.cost == rod_spec(x.target->Rod_0).price as int;
            lemma_contains_concat(a, b, y);
            lemma_contains_concat(a + b, c, y);
        } else {
            lemma_boat_bridges(BOAT_COUNT as int, k, lo, bon, balance, x);
            let y = choose|y: Recommendation| #[trigger] b.contains(y) && y.action == ActionType::BuyBoat && y.target
                == x.target && y.cost == boat_spec(x.target->Boat_0).price as int;
            lemma_contains_concat(a, b, y);
            lemma_contains_concat(a + b, c, y);
        }
    }
}

} // verus!

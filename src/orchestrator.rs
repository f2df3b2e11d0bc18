use vstd::prelude::*;
use crate::cooldown::{after_hit, after_success, min_u64, CooldownManager};
use crate::game_data::{
    biome_at, biome_at_spec, biome_name, biome_name_spec, rod_at, rod_at_spec, rod_name,
    rod_name_spec, Biome, BoatType, RodType, BIOME_COUNT, ROD_COUNT,
};
use crate::optimizer::{
    biome_index_spec, candidates, sorted_by_roi, stats_after, ActionType, Bonuses, Loadout,
    Optimizer, Recommendation, Target,
};
use crate::parser::{
    catch_spec, char_in_class, cooldown_spec, digits_value, in_class, is_digit, parse_catch_embed,
    parse_cooldown_embed, parse_digits, CharClass,
};
use crate::text::{chars_of, contains_lit, contains_seq, lead_ws, str_eq, tail_ws};

verus! {

/// Window within which the same autonomous action is not repeated.
pub const REPEAT_WINDOW_MS: u64 = 15_000;
pub const IDLE_PAUSE_MS: u64 = 500;
pub const CAPTCHA_PAUSE_MS: u64 = 2000;
pub const SELL_PAUSE_MS: u64 = 5000;
pub const SHOP_PAUSE_MS: u64 = 5000;
pub const TRAVEL_PAUSE_MS: u64 = 3000;
pub const COINFLIP_PAUSE_MS: u64 = 5000;
/// Biome statistics are checkpointed whenever their catch count reaches a
/// multiple of this.
pub const CHECKPOINT_EVERY: u64 = 50;

#[derive(Debug, Clone, Copy, PartialEq, Eq, Structural)]
pub enum BotState {
    Idle,
    PrimaryAction,
    AwaitingCaptcha,
    Selling,
    Shopping,
}

/// A game action the orchestrator asks to be submitted.
#[derive(Debug, Clone, Copy, PartialEq, Eq, Structural)]
pub enum Command {
    Fish,
    Sell,
    Travel(Biome),
    BuyRod(RodType),
    BuyBoat(BoatType),
    Coinflip(u64),
}

/// What the orchestrator sees at the start of a cycle.
#[derive(Debug)]
pub struct Observation {
    pub running: bool,
    pub captcha_detected: bool,
    /// Embed descriptions of the message that arrived since the last cycle.
    pub embeds: Vec<String>,
    pub balance_text: String,
    pub rod_text: String,
    pub biome_text: String,
    pub bonuses: Bonuses,
}

/// What one cycle decided.
#[derive(Debug)]
pub struct CycleOutcome {
    pub commands: Vec<Command>,
    pub sleep_ms: u64,
    /// Biome whose statistics are to be saved.
    pub checkpoint: Option<Biome>,
    /// Biome the account was just sent to.
    pub travelled_to: Option<Biome>,
    pub tick_scheduler: bool,
}

// ---- reading the profile snapshot ----

pub open spec fn rod_from(n: Seq<char>, i: int) -> RodType
    decreases ROD_COUNT - i,
{
    if i < 0 || i >= ROD_COUNT {
        RodType::Plastic
    } else if rod_name_spec(rod_at_spec(i)) == n {
        rod_at_spec(i)
    } else {
        rod_from(n, i + 1)
    }
}

/// The rod the profile names; the starter rod where it names none.
pub fn rod_from_name(n: &str) -> (r: RodType)
    ensures
        r == rod_from(n@, 0),
{
    let mut i: usize = 0;
    while i < ROD_COUNT
        invariant
            i <= ROD_COUNT,
            rod_from(n@, i as int) == rod_from(n@, 0),
        decreases ROD_COUNT - i,
    {
        let r = rod_at(i);
        if str_eq(rod_name(r), n) {
            return r;
        }
        i = i + 1;
    }
    RodType::Plastic
}

pub open spec fn biome_from(n: Seq<char>, i: int) -> Biome
    decreases BIOME_COUNT - i,
{
    if i < 0 || i >= BIOME_COUNT {
        Biome::River
    } else if biome_name_spec(biome_at_spec(i)) == n {
        biome_at_spec(i)
    } else {
        biome_from(n, i + 1)
    }
}

/// The biome the profile names; the first biome where it names none.
pub fn biome_from_name(n: &str) -> (r: Biome)
    ensures
        r == biome_from(n@, 0),
{
    let mut i: usize = 0;
    while i < BIOME_COUNT
        invariant
            i <= BIOME_COUNT,
            biome_from(n@, i as int) == biome_from(n@, 0),
        decreases BIOME_COUNT - i,
    {
        let b = biome_at(i);
        if str_eq(biome_name(b), n) {
            return b;
        }
        i = i + 1;
    }
    Biome::River
}

/// `s` without dollar signs and thousands separators.
pub open spec fn strip_money(s: Seq<char>) -> Seq<char>
    decreases s.len(),
{
    if s.len() == 0 {
        s
    } else if s.last() == '$' || s.last() == ',' {
        strip_money(s.drop_last())
    } else {
        strip_money(s.drop_last()).push(s.last())
    }
}

pub open spec fn all_digits(s: Seq<char>) -> bool {
    forall|i: int| 0 <= i < s.len() ==> is_digit(#[trigger] s[i])
}

/// The amount a balance text such as `$1,234,567` states; 0 where it is
/// not a number that fits in `u64`.
pub open spec fn balance_value(s: Seq<char>) -> int {
    let t = strip_money(s);
    let a = lead_ws(t, 0);
    let b = tail_ws(t, t.len() as int);
    let core = if a < b { t.subrange(a, b) } else { seq![] };
    if core.len() > 0 && all_digits(core) && digits_value(core) <= u64::MAX {
        digits_value(core)
    } else {
        0
    }
}

/// Computes `balance_value`.
pub fn parse_balance(text: &str) -> (r: u64)
    ensures
        r == balance_value(text@),
{
    let v = chars_of(text);
    let mut t: Vec<char> = Vec::new();
    let mut i: usize = 0;
    while i < v.len()
        invariant
            v@ == text@,
            i <= v@.len(),
            t@ == strip_money(v@.take(i as int)),
        decreases v@.len() - i,
    {
        assert(v@.take(i + 1).drop_last() =~= v@.take(i as int));
        let c = v[i];
        if c != '$' && c != ',' {
            t.push(c);
        }
        i = i + 1;
    }
    assert(v@.take(v@.len() as int) =~= v@);
    let ghost ts = t@;
    let mut a: usize = 0;
    while a < t.len() && char_in_class(t[a], CharClass::Space)
        invariant
            ts == t@,
            a <= t@.len(),
            lead_ws(ts, a as int) == lead_ws(ts, 0),
        decreases t@.len() - a,
    {
        a = a + 1;
    }
    assert(lead_ws(ts, a as int) == a);
    let mut b: usize = t.len();
    while b > 0 && char_in_class(t[b - 1], CharClass::Space)
        invariant
            ts == t@,
            b <= t@.len(),
            tail_ws(ts, b as int) == tail_ws(ts, ts.len() as int),
        decreases b,
    {
        b = b - 1;
    }
    assert(tail_ws(ts, b as int) == b);
    assert(ts == strip_money(text@));
    if a >= b {
        assert(balance_value(text@) == 0);
        return 0;
    }
    let ghost core = ts.subrange(a as int, b as int);
    let mut k = a;
    while k < b
        invariant
            a <= k <= b <= t@.len(),
            ts == t@,
            ts == strip_money(text@),
            a == lead_ws(ts, 0),
            b == tail_ws(ts, ts.len() as int),
            core == ts.subrange(a as int, b as int),
            forall|j: int| a <= j < k ==> is_digit(#[trigger] t@[j]),
        decreases b - k,
    {
        if !('0' <= t[k] && t[k] <= '9') {
            assert(core[k - a] == t@[k as int]);
            return 0;
        }
        k = k + 1;
    }
    assert forall|j: int| 0 <= j < core.len() implies is_digit(#[trigger] core[j]) by {
        assert(core[j] == t@[a + j]);
    }
    assert forall|j: int| a <= j < b implies in_class(#[trigger] t@[j], CharClass::DigitOrComma) by {}
    match parse_digits(&t, a, b, u64::MAX) {
        Some(x) => x,
        None => {
            proof {
                assert(core[0] == t@[a as int]);
            }
            0
        },
    }
}

/// Whether `s` holds the word "full" in any letter case at position `i`.
pub open spec fn full_at(s: Seq<char>, i: int) -> bool {
    &&& 0 <= i && i + 4 <= s.len()
    &&& (s[i] == 'f' || s[i] == 'F')
    &&& (s[i + 1] == 'u' || s[i + 1] == 'U')
    &&& (s[i + 2] == 'l' || s[i + 2] == 'L')
    &&& (s[i + 3] == 'l' || s[i + 3] == 'L')
}

pub open spec fn says_full(s: Seq<char>) -> bool {
    exists|i: int| full_at(s, i)
}

/// Computes `says_full`: the message reports a full inventory.
pub fn mentions_full(text: &str) -> (r: bool)
    ensures
        r == says_full(text@),
{
    let v = chars_of(text);
    let n = v.len();
    if n < 4 {
        return false;
    }
    let mut i: usize = 0;
    while i <= n - 4
        invariant
            v@ == text@,
            n == v@.len(),
            n >= 4,
            i <= n - 3,
            forall|j: int| 0 <= j < i ==> !full_at(v@, j),
        decreases n - i,
    {
        if (v[i] == 'f' || v[i] == 'F') && (v[i + 1] == 'u' || v[i + 1] == 'U') && (v[i + 2] == 'l'
            || v[i + 2] == 'L') && (v[i + 3] == 'l' || v[i + 3] == 'L') {
            assert(full_at(v@, i as int));
            return true;
        }
        i = i + 1;
    }
    assert forall|j: int| !full_at(v@, j) by {
        if 0 <= j < i {
        }
    }
    false
}

/// Whether a message asks for a captcha.
pub open spec fn asks_captcha(s: Seq<char>) -> bool {
    contains_seq(s, "captcha"@) || contains_seq(s, "Captcha"@) || contains_seq(s, "CAPTCHA"@)
}

/// Computes `asks_captcha`.
pub fn mentions_captcha(text: &str) -> (r: bool)
    ensures
        r == asks_captcha(text@),
{
    let v = chars_of(text);
    contains_lit(&v, "captcha") || contains_lit(&v, "Captcha") || contains_lit(&v, "CAPTCHA")
}

// ---- the cycle ----

/// Statistics after the catches reported by the messages `ds`, in order.
pub open spec fn catches_applied(st: crate::optimizer::BiomeStats, ds: Seq<Seq<char>>) -> crate::optimizer::BiomeStats
    decreases ds.len(),
{
    if ds.len() == 0 {
        st
    } else {
        let prev = catches_applied(st, ds.drop_last());
        match catch_spec(ds.last()) {
            Some((f, x)) => stats_after(prev, f, x),
            None => prev,
        }
    }
}

/// The pacing model after the successes and cooldown reports of the
/// messages `ds`, in order: a catch counts as a success, a cooldown report
/// as a hit.
pub open spec fn pacing_after(m: CooldownManager, ds: Seq<Seq<char>>) -> CooldownManager
    decreases ds.len(),
{
    if ds.len() == 0 {
        m
    } else {
        let prev = pacing_after(m, ds.drop_last());
        let m1 = if catch_spec(ds.last()) is Some { after_success(prev) } else { prev };
        match cooldown_spec(ds.last()) {
            Some(ev) => after_hit(m1, ev.total_cooldown_ms),
            None => m1,
        }
    }
}

/// Whether some message of `ds` brought the statistics, changed by its
/// catch, to a multiple of `CHECKPOINT_EVERY` catches.
pub open spec fn checkpoint_reached(st: crate::optimizer::BiomeStats, ds: Seq<Seq<char>>) -> bool
    decreases ds.len(),
{
    if ds.len() == 0 {
        false
    } else {
        let prev = catches_applied(st, ds.drop_last());
        let next = catches_applied(st, ds);
        checkpoint_reached(st, ds.drop_last()) || (next != prev && next.total_catches % CHECKPOINT_EVERY == 0)
    }
}

pub open spec fn texts(v: Seq<String>) -> Seq<Seq<char>> {
    v.map_values(|s: String| s@)
}

pub open spec fn any_full(ds: Seq<Seq<char>>) -> bool {
    exists|i: int| 0 <= i < ds.len() && says_full(#[trigger] ds[i])
}

/// Whether `a` was already taken less than `REPEAT_WINDOW_MS` before `now`.
pub open spec fn is_repeat(last: Option<(ActionType, u64)>, a: ActionType, now: u64) -> bool {
    match last {
        Some((la, t)) => la == a && (now < t || now - t < REPEAT_WINDOW_MS),
        None => false,
    }
}

/// The command that acting on recommendation `x` takes, if the autonomy
/// policy allows it: an affordable purchase, any travel, or a risk-bridge
/// when danger mode is on.
pub open spec fn command_for(x: Recommendation, balance: u64, danger_mode: bool) -> Option<Command> {
    match (x.action, x.target) {
        (ActionType::BuyRod, Target::Rod(r)) => if balance >= x.cost { Some(Command::BuyRod(r)) } else { None },
        (ActionType::BuyBoat, Target::Boat(b)) => if balance >= x.cost { Some(Command::BuyBoat(b)) } else { None },
        (ActionType::Travel, Target::Biome(b)) => Some(Command::Travel(b)),
        (ActionType::Coinflip { amount }, _) => if danger_mode { Some(Command::Coinflip(amount)) } else { None },
        _ => None,
    }
}

pub open spec fn is_purchase(c: Command) -> bool {
    c is BuyRod || c is BuyBoat
}

/// `x` has a payback time no longer than any candidate's.
pub open spec fn minimal(x: Recommendation, cands: Seq<Recommendation>) -> bool {
    forall|y: Recommendation| cands.contains(y) ==> x.roi_ms <= y.roi_ms
}

/// The autonomy policy allows acting on `x`, and it repeats no recent action.
pub open spec fn allowed(
    x: Recommendation,
    balance: u64,
    danger_mode: bool,
    last: Option<(ActionType, u64)>,
    now: u64,
) -> bool {
    command_for(x, balance, danger_mode) is Some && !is_repeat(last, x.action, now)
}

/// Some best-ranked candidate move may be acted on.
pub open spec fn move_available(
    cands: Seq<Recommendation>,
    balance: u64,
    danger_mode: bool,
    last: Option<(ActionType, u64)>,
    now: u64,
) -> bool {
    exists|x: Recommendation| #[trigger] cands.contains(x) && minimal(x, cands) && allowed(x, balance, danger_mode, last, now)
}

/// `c` carries out a best-ranked candidate move that the autonomy policy
/// allows and that repeats no recent action; `taken` records it at `now`.
pub open spec fn autonomous(
    c: Command,
    cands: Seq<Recommendation>,
    balance: u64,
    danger_mode: bool,
    last: Option<(ActionType, u64)>,
    now: u64,
    taken: Option<(ActionType, u64)>,
) -> bool {
    exists|x: Recommendation|
        #[trigger] cands.contains(x) && minimal(x, cands) && allowed(x, balance, danger_mode, last, now)
            && command_for(x, balance, danger_mode) == Some(c) && taken == Some((x.action, now))
}

/// The commands of an active cycle: the best allowed move when there is
/// one, then selling when the inventory is full or else fishing; an
/// autonomous purchase stands alone. `taken` is the last autonomous action
/// afterwards.
pub open spec fn cycle_commands(
    cmds: Seq<Command>,
    cands: Seq<Recommendation>,
    balance: u64,
    danger_mode: bool,
    last: Option<(ActionType, u64)>,
    now: u64,
    full: bool,
    taken: Option<(ActionType, u64)>,
) -> bool {
    let primary = if full { Command::Sell } else { Command::Fish };
    ||| (cmds.len() == 1 && is_purchase(cmds[0]) && autonomous(cmds[0], cands, balance, danger_mode, last, now, taken))
    ||| (cmds.len() == 1 && cmds[0] == primary && !move_available(cands, balance, danger_mode, last, now)
        && taken == last)
    ||| (cmds.len() == 2 && (cmds[0] is Travel || cmds[0] is Coinflip) && autonomous(
        cmds[0],
        cands,
        balance,
        danger_mode,
        last,
        now,
        taken,
    ) && cmds[1] == primary)
}

/// How long an active cycle sleeps: the shop pause after a purchase;
/// otherwise the pause of a travel or risk-bridge, then the sell pause or
/// the pacing delay `delay`, saturated.
pub open spec fn cycle_sleep(cmds: Seq<Command>, full: bool, delay: int) -> int {
    if is_purchase(cmds[0]) {
        SHOP_PAUSE_MS as int
    } else {
        let pause: int = if cmds.len() == 2 {
            if cmds[0] is Travel { TRAVEL_PAUSE_MS as int } else { COINFLIP_PAUSE_MS as int }
        } else {
            0
        };
        if full { pause + SELL_PAUSE_MS } else { min_u64(pause + delay) }
    }
}

/// Drives the account: consumes observations, learns from them, consults
/// the optimizer and decides the next actions.
pub struct Bot {
    pub state: BotState,
    pub cooldown: CooldownManager,
    pub optimizer: Optimizer,
    pub last_action: Option<(ActionType, u64)>,
    pub danger_mode: bool,
}

impl Bot {
    pub open spec fn wf(&self) -> bool {
        self.cooldown.wf() && self.optimizer.wf()
    }

    pub fn new(base_cooldown_ms: u64, optimizer: Optimizer, danger_mode: bool) -> (r: Bot)
        requires
            optimizer.wf(),
        ensures
            r.wf(),
            r.state == BotState::Idle,
            r.cooldown.estimated_cooldown_ms == base_cooldown_ms,
            r.optimizer == optimizer,
            r.last_action is None,
            r.danger_mode == danger_mode,
    {
        Bot {
            state: BotState::Idle,
            cooldown: CooldownManager::new(base_cooldown_ms),
            optimizer,
            last_action: None,
            danger_mode,
        }
    }

    /// Feeds the catches and cooldown reports of the messages to the
    /// statistics of biome `b` and to the pacing estimator; returns whether
    /// the statistics of `b` reached a checkpoint.
    pub fn learn(&mut self, b: Biome, embeds: &Vec<String>) -> (checkpoint: bool)
        requires
            old(self).wf(),
        ensures
            final(self).wf(),
            final(self).state == old(self).state,
            final(self).last_action == old(self).last_action,
            final(self).danger_mode == old(self).danger_mode,
            final(self).cooldown == pacing_after(old(self).cooldown, texts(embeds@)),
            checkpoint == checkpoint_reached(old(self).optimizer.biome_knowledge@[biome_index_spec(b)], texts(embeds@)),
            final(self).optimizer.biome_knowledge@ == old(self).optimizer.biome_knowledge@.update(
                biome_index_spec(b),
                catches_applied(old(self).optimizer.biome_knowledge@[biome_index_spec(b)], texts(embeds@)),
            ),
    {
        let ghost ds = texts(embeds@);
        let ghost idx = biome_index_spec(b);
        let ghost k0 = self.optimizer.biome_knowledge@;
        let mut checkpoint = false;
        let mut i: usize = 0;
        while i < embeds.len()
            invariant
                self.wf(),
                self.state == old(self).state,
                self.last_action == old(self).last_action,
                self.danger_mode == old(self).danger_mode,
                self.cooldown == pacing_after(old(self).cooldown, ds.take(i as int)),
                k0 == old(self).optimizer.biome_knowledge@,
                k0.len() == BIOME_COUNT,
                ds == texts(embeds@),
                idx == biome_index_spec(b),
                0 <= idx < 6,
                i <= embeds@.len(),
                checkpoint == checkpoint_reached(k0[idx], ds.take(i as int)),
                self.optimizer.biome_knowledge@ == k0.update(idx, catches_applied(k0[idx], ds.take(i as int))),
            decreases embeds@.len() - i,
        {
            assert(ds.take(i + 1).drop_last() =~= ds.take(i as int));
            assert(ds.take(i + 1).last() == embeds@[i as int]@);
            let d = embeds[i].as_str();
            let ghost prev = catches_applied(k0[idx], ds.take(i as int));
            let ghost next = catches_applied(k0[idx], ds.take(i + 1));
            assert(self.optimizer.biome_knowledge@[idx] == prev);
            assert(d@ == ds[i as int]);
            assert(next == match catch_spec(d@) {
                Some((f, x)) => stats_after(prev, f, x),
                None => prev,
            });
            match parse_catch_embed(d) {
                Some(c) => {
                    let changed = self.optimizer.record_catch(b, &c);
                    self.cooldown.report_success();
                    let st = self.optimizer.stats(b);
                    if changed && st.total_catches % CHECKPOINT_EVERY == 0 {
                        checkpoint = true;
                    }
                },
                None => {},
            }
            match parse_cooldown_embed(d) {
                Some(ev) => {
                    self.cooldown.report_cooldown_hit(ev.wait_time_ms, ev.total_cooldown_ms);
                },
                None => {},
            }
            assert(self.optimizer.biome_knowledge@ =~= k0.update(idx, next));
            assert(checkpoint == checkpoint_reached(k0[idx], ds.take(i + 1)));
            i = i + 1;
        }
        assert(ds.take(embeds@.len() as int) =~= ds);
        checkpoint
    }

    /// The first best-ranked recommendation that may be acted on, with the
    /// command that carries it out.
    fn pick(&self, recs: &Vec<Recommendation>, now_ms: u64, balance: u64) -> (r: Option<(Command, ActionType)>)
        requires
            sorted_by_roi(recs@),
        ensures
            r matches Some((c, a)) ==> exists|j: int|
                0 <= j < recs@.len() && #[trigger] recs@[j].roi_ms == recs@[0].roi_ms && allowed(
                    recs@[j],
                    balance,
                    self.danger_mode,
                    self.last_action,
                    now_ms,
                ) && command_for(recs@[j], balance, self.danger_mode) == Some(c) && a == recs@[j].action,
            r is None ==> forall|j: int|
                0 <= j < recs@.len() && #[trigger] recs@[j].roi_ms == recs@[0].roi_ms ==> !allowed(
                    recs@[j],
                    balance,
                    self.danger_mode,
                    self.last_action,
                    now_ms,
                ),
    {
        let mut j: usize = 0;
        while j < recs.len() && recs[j].roi_ms == recs[0].roi_ms
            invariant
                j <= recs@.len(),
                forall|i: int|
                    0 <= i < j && #[trigger] recs@[i].roi_ms == recs@[0].roi_ms ==> !allowed(
                        recs@[i],
                        balance,
                        self.danger_mode,
                        self.last_action,
                        now_ms,
                    ),
            decreases recs@.len() - j,
        {
            let x = recs[j];
            let repeat = match self.last_action {
                Some((la, t)) => la == x.action && (now_ms < t || now_ms - t < REPEAT_WINDOW_MS),
                None => false,
            };
            if !repeat {
                let c = match (x.action, x.target) {
                    (ActionType::BuyRod, Target::Rod(r)) => if balance >= x.cost { Some(Command::BuyRod(r)) } else { None },
                    (ActionType::BuyBoat, Target::Boat(b)) => if balance >= x.cost { Some(Command::BuyBoat(b)) } else { None },
                    (ActionType::Travel, Target::Biome(b)) => Some(Command::Travel(b)),
                    (ActionType::Coinflip { amount }, _) => if self.danger_mode { Some(Command::Coinflip(amount)) } else { None },
                    _ => None,
                };
                match c {
                    Some(c) => {
                        assert(recs@[j as int].roi_ms == recs@[0].roi_ms);
                        return Some((c, x.action));
                    },
                    None => {},
                }
            }
            j = j + 1;
        }
        proof {
            assert forall|i: int|
                0 <= i < recs@.len() && #[trigger] recs@[i].roi_ms == recs@[0].roi_ms implies !allowed(
                    recs@[i],
                    balance,
                    self.danger_mode,
                    self.last_action,
                    now_ms,
                ) by {
                if i >= j {
                    assert(recs@[0].roi_ms <= recs@[j as int].roi_ms);
                    assert(recs@[j as int].roi_ms <= recs@[i].roi_ms);
                }
            }
        }
        None
    }

    /// One cycle of the orchestrator with a given pacing jitter.
    ///
    /// Not running: idle. A captcha: wait for it, nothing else. Otherwise:
    /// learn from the new messages, then act on the best recommendation if
    /// the autonomy policy allows it (a purchase ends the cycle), then sell
    /// if the inventory is full, else fish; then the scheduler ticks.
    pub fn cycle_with(&mut self, obs: &Observation, now_ms: u64, jitter_ms: u64) -> (r: CycleOutcome)
        requires
            old(self).wf(),
        ensures
            final(self).wf(),
            final(self).danger_mode == old(self).danger_mode,
            !obs.running ==> {
                &&& final(self).state == BotState::Idle
                &&& r.commands@.len() == 0
                &&& !r.tick_scheduler
                &&& r.sleep_ms == IDLE_PAUSE_MS
                &&& final(self).optimizer == old(self).optimizer
                &&& final(self).last_action == old(self).last_action
                &&& r.checkpoint is None
            },
            obs.running && obs.captcha_detected ==> {
                &&& final(self).state == BotState::AwaitingCaptcha
                &&& r.commands@.len() == 0
                &&& !r.tick_scheduler
                &&& r.sleep_ms == CAPTCHA_PAUSE_MS
                &&& final(self).optimizer == old(self).optimizer
                &&& final(self).last_action == old(self).last_action
                &&& r.checkpoint is None
            },
            obs.running && !obs.captcha_detected ==> {
                let b = biome_from(obs.biome_text@, 0);
                let k = final(self).optimizer.biome_knowledge@;
                let lo = Loadout { rod: rod_from(obs.rod_text@, 0), boat: BoatType::Rowboat, biome: b };
                let balance = balance_value(obs.balance_text@) as u64;
                let cands = candidates(k, lo, obs.bonuses, balance);
                let cmds = r.commands@;
                &&& final(self).state == BotState::PrimaryAction
                &&& r.tick_scheduler
                &&& final(self).cooldown == pacing_after(old(self).cooldown, texts(obs.embeds@))
                &&& k == old(self).optimizer.biome_knowledge@.update(
                    biome_index_spec(b),
                    catches_applied(old(self).optimizer.biome_knowledge@[biome_index_spec(b)], texts(obs.embeds@)),
                )
                &&& cycle_commands(
                    cmds,
                    cands,
                    balance,
                    old(self).danger_mode,
                    old(self).last_action,
                    now_ms,
                    any_full(texts(obs.embeds@)),
                    final(self).last_action,
                )
                &&& r.sleep_ms == cycle_sleep(cmds, any_full(texts(obs.embeds@)), final(self).cooldown.delay_spec(jitter_ms))
                &&& r.travelled_to == (if cmds[0] is Travel { Some(cmds[0]->Travel_0) } else { None::<Biome> })
                &&& r.checkpoint == (if checkpoint_reached(
                    old(self).optimizer.biome_knowledge@[biome_index_spec(b)],
                    texts(obs.embeds@),
                ) {
                    Some(b)
                } else {
                    None::<Biome>
                })
            },
    {
        if !obs.running {
            self.state = BotState::Idle;
            return CycleOutcome { commands: Vec::new(), sleep_ms: IDLE_PAUSE_MS, checkpoint: None, travelled_to: None, tick_scheduler: false };
        }
        if obs.captcha_detected {
            self.state = BotState::AwaitingCaptcha;
            return CycleOutcome { commands: Vec::new(), sleep_ms: CAPTCHA_PAUSE_MS, checkpoint: None, travelled_to: None, tick_scheduler: false };
        }
        self.state = BotState::PrimaryAction;
        let biome = biome_from_name(obs.biome_text.as_str());
        let ghost b = biome;
        let rod = rod_from_name(obs.rod_text.as_str());
        let balance = parse_balance(obs.balance_text.as_str());
        let saved = self.learn(biome, &obs.embeds);
        let checkpoint = if saved { Some(biome) } else { None };
        let lo = Loadout { rod, boat: BoatType::Rowboat, biome };
        let recs = self.optimizer.solve_next_move(lo, obs.bonuses, balance);
        let ghost k = self.optimizer.biome_knowledge@;
        let ghost cands = candidates(k, lo, obs.bonuses, balance);
        let mut commands: Vec<Command> = Vec::new();
        let mut sleep: u64 = 0;
        let mut travelled_to: Option<Biome> = None;
        let picked = self.pick(&recs, now_ms, balance);
        let ghost last_before = self.last_action;
        proof {
            broadcast use vstd::seq_lib::group_to_multiset_ensures;

            assert forall|j: int| 0 <= j < recs@.len() implies #[trigger] cands.contains(recs@[j]) by {
                assert(recs@.contains(recs@[j]));
                assert(cands.to_multiset().count(recs@[j]) > 0);
            }
            assert forall|x: Recommendation| #[trigger] cands.contains(x) implies recs@.contains(x) by {
                assert(cands.to_multiset().count(x) > 0);
            }
            if recs@.len() > 0 {
                assert(cands.contains(recs@[0]));
                assert forall|y: Recommendation| cands.contains(y) implies recs@[0].roi_ms <= y.roi_ms by {
                    assert(recs@.contains(y));
                    let j = choose|j: int| 0 <= j < recs@.len() && recs@[j] == y;
                    if j > 0 {
                        assert(recs@[0].roi_ms <= recs@[j].roi_ms);
                    }
                }
            }
            // The best-ranked candidates are those ranked level with the first.
            assert forall|j: int| 0 <= j < recs@.len() && #[trigger] recs@[j].roi_ms == recs@[0].roi_ms implies minimal(
                recs@[j],
                cands,
            ) by {
                assert forall|y: Recommendation| cands.contains(y) implies recs@[j].roi_ms <= y.roi_ms by {
                    assert(recs@[0].roi_ms <= y.roi_ms);
                }
            }
            if picked is None && move_available(cands, balance, self.danger_mode, last_before, now_ms) {
                let x = choose|x: Recommendation| #[trigger] cands.contains(x) && minimal(x, cands) && allowed(
                    x,
                    balance,
                    self.danger_mode,
                    last_before,
                    now_ms,
                );
                assert(recs@.contains(x));
                let j = choose|j: int| 0 <= j < recs@.len() && recs@[j] == x;
                assert(recs@[0].roi_ms <= x.roi_ms);
                assert(x.roi_ms <= recs@[0].roi_ms);
                assert(recs@[j].roi_ms == recs@[0].roi_ms);
            }
        }
        match picked {
            Some((c, a)) => {
                proof {
                    let j = choose|j: int|
                        0 <= j < recs@.len() && #[trigger] recs@[j].roi_ms == recs@[0].roi_ms && allowed(
                            recs@[j],
                            balance,
                            self.danger_mode,
                            last_before,
                            now_ms,
                        ) && command_for(recs@[j], balance, self.danger_mode) == Some(c) && a == recs@[j].action;
                    assert(cands.contains(recs@[j]));
                    assert(autonomous(c, cands, balance, self.danger_mode, last_before, now_ms, Some((a, now_ms))));
                }
                match c {
                    Command::BuyRod(_) | Command::BuyBoat(_) => {
                        self.state = BotState::Shopping;
                        commands.push(c);
                        self.last_action = Some((a, now_ms));
                        self.state = BotState::PrimaryAction;
                        proof {
                            assert(commands@ == seq![c]);
                        }
                        return CycleOutcome { commands, sleep_ms: SHOP_PAUSE_MS, checkpoint, travelled_to: None, tick_scheduler: true };
                    },
                    Command::Travel(b) => {
                        commands.push(c);
                        self.last_action = Some((a, now_ms));
                        travelled_to = Some(b);
                        sleep = TRAVEL_PAUSE_MS;
                    },
                    Command::Coinflip(_) => {
                        commands.push(c);
                        self.last_action = Some((a, now_ms));
                        sleep = COINFLIP_PAUSE_MS;
                    },
                    _ => {},
                }
            },
            None => {},
        }
        let ghost first = commands@;
        let ghost ds = texts(obs.embeds@);
        let mut full = false;
        let mut i: usize = 0;
        while i < obs.embeds.len()
            invariant
                ds == texts(obs.embeds@),
                ds.len() == obs.embeds@.len(),
                i <= obs.embeds@.len(),
                full == exists|j: int| 0 <= j < i && says_full(#[trigger] ds[j]),
            decreases obs.embeds@.len() - i,
        {
            assert(ds[i as int] == obs.embeds@[i as int]@);
            if mentions_full(obs.embeds[i].as_str()) {
                full = true;
            }
            i = i + 1;
        }
        assert(full == any_full(ds));
        if full {
            self.state = BotState::Selling;
            commands.push(Command::Sell);
            sleep = sleep + SELL_PAUSE_MS;
            self.state = BotState::PrimaryAction;
        } else {
            commands.push(Command::Fish);
            let d = self.cooldown.delay_with_jitter(jitter_ms);
            sleep = sleep.saturating_add(d);
        }
        proof {
            let cmds = commands@;
            if first.len() == 1 {
                assert(cmds[0] == first[0]);
            }
        }
        CycleOutcome { commands, sleep_ms: sleep, checkpoint, travelled_to, tick_scheduler: true }
    }
}

} // verus!

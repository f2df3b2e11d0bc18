use vstd::prelude::*;
use crate::parser::{is_digit, line_of, lit_at, occurs_at, run_end, scan_run, lemma_run_end, CharClass};
use crate::text::{
    chars_of, contains_lit, contains_seq, copy_range, find_char, first_index, int_value,
    last_index, parse_int, remove_all, remove_lit, rfind_char, string_from_chars, strip3,
    strip_chars, trim_seq, trimmed,
};

verus! {

/// The account as its profile messages describe it, as text.
#[derive(Debug, Clone)]
pub struct Profile {
    pub balance: String,
    pub level: String,
    pub rod: String,
    pub biome: String,
    pub current_biome: Option<String>,
    pub pet: String,
    pub bait: String,
    pub inventory_value: String,
    pub exotic_fish: ExoticFish,
    pub inventory: Vec<(String, String)>,
    pub charms: Charms,
    pub buffs: Buffs,
    pub quests: Vec<Quest>,
}

#[derive(Debug, Clone, Copy, PartialEq, Eq, Structural)]
pub struct ExoticFish {
    pub gold: i32,
    pub emerald: i32,
    pub lava: i32,
    pub diamond: i32,
}

#[derive(Debug, Clone)]
pub struct Charms {
    pub marketing: String,
    pub endurance: String,
    pub haste: String,
    pub quantity: String,
    pub worker: String,
    pub treasure: String,
    pub quality: String,
    pub experience: String,
    pub found: String,
}

#[derive(Debug, Clone)]
pub struct Buffs {
    pub sell_price: String,
    pub fish_catch: String,
    pub fish_quality: String,
    pub treasure_chance: String,
    pub treasure_quality: String,
    pub xp_multiplier: String,
    pub fishing_cooldown: String,
}

#[derive(Debug, Clone)]
pub struct Quest {
    pub category: String,
    pub objective: String,
    pub progress: String,
    pub is_completed: bool,
}

// ---- lines ----

/// The lines of `s` from `start` on, without their terminators.
pub open spec fn lines_from(s: Seq<char>, start: int) -> Seq<Seq<char>>
    decreases s.len() + 1 - start,
{
    let e = run_end(s, start, CharClass::NotNewline);
    if start < 0 || start >= s.len() || e < start || e > s.len() {
        seq![]
    } else {
        seq![line_of(s, start)] + lines_from(s, e + 1)
    }
}

pub open spec fn views(v: Seq<Vec<char>>) -> Seq<Seq<char>> {
    v.map_values(|l: Vec<char>| l@)
}

/// The lines of `v`, as `lines_from(v@, 0)` states them.
pub fn split_lines(v: &Vec<char>) -> (r: Vec<Vec<char>>)
    ensures
        views(r@) == lines_from(v@, 0),
{
    let ghost s = v@;
    let mut out: Vec<Vec<char>> = Vec::new();
    let mut start: usize = 0;
    while start < v.len()
        invariant
            s == v@,
            start <= v@.len(),
            views(out@) + lines_from(s, start as int) == lines_from(s, 0),
        decreases v@.len() - start,
    {
        let e = scan_run(v, start, CharClass::NotNewline);
        proof {
            lemma_run_end(s, start as int, CharClass::NotNewline);
        }
        let stop = if e > start && v[e - 1] == '\r' {
            e - 1
        } else {
            e
        };
        let line = copy_range(v, start, stop);
        let ghost before = views(out@);
        out.push(line);
        assert(views(out@) =~= before.push(line_of(s, start as int)));
        assert(lines_from(s, start as int) == seq![line_of(s, start as int)] + lines_from(s, e + 1));
        assert(views(out@) + lines_from(s, e + 1) =~= lines_from(s, 0));
        if e >= v.len() {
            assert(lines_from(s, e + 1).len() == 0);
            assert(lines_from(s, v.len() as int).len() == 0);
            start = v.len();
        } else {
            start = e + 1;
        }
    }
    assert(lines_from(s, start as int).len() == 0);
    assert(views(out@) =~= lines_from(s, 0));
    out
}

/// Message text without markdown emphasis marks.
pub open spec fn clean(s: Seq<char>) -> Seq<char> {
    strip3(s, '*', '+', '_')
}


// ---- the profile message ----

/// The fields a profile message sets, as text.
pub struct ProfileText {
    pub balance: Seq<char>,
    pub level: Seq<char>,
    pub rod: Seq<char>,
    pub biome: Seq<char>,
    pub pet: Seq<char>,
    pub bait: Seq<char>,
    pub inventory_value: Seq<char>,
    pub exotic: ExoticFish,
    pub inventory: Seq<(Seq<char>, Seq<char>)>,
}

/// The trimmed text after the first `>` of `l`.
pub open spec fn after_gt(l: Seq<char>) -> Option<Seq<char>> {
    match first_index(l, '>', 0) {
        Some(i) => Some(trim_seq(l.skip(i + 1))),
        None => None,
    }
}

/// The count before the first `<` of `l`, thousands separators dropped.
pub open spec fn exotic_count(l: Seq<char>) -> Option<i32> {
    match first_index(l, '<', 0) {
        Some(e) => int_value(trim_seq(strip3(l.take(e), ',', ',', ','))),
        None => None,
    }
}

/// An inventory entry `amount <:emoji:id> name`.
pub open spec fn inventory_entry(l: Seq<char>) -> Option<(Seq<char>, Seq<char>)> {
    if l.len() > 0 && is_digit(l[0]) {
        match first_index(l, '<', 0) {
            Some(q) => Some((
                trim_seq(l.take(q)),
                match last_index(l, '>', l.len() as int) {
                    Some(r) => trim_seq(l.skip(r + 1)),
                    None => l,
                },
            )),
            None => None,
        }
    } else {
        None
    }
}

/// What one line of a profile message changes.
pub open spec fn profile_line(p: ProfileText, l0: Seq<char>) -> ProfileText {
    let l = trim_seq(l0);
    if l.len() == 0 {
        p
    } else if occurs_at(l, 0, "Balance:"@) {
        ProfileText { balance: trim_seq(remove_all(l, "Balance:"@)), ..p }
    } else if contains_seq(l, "XP to next level"@) {
        ProfileText {
            level: trim_seq(
                match first_index(l, ',', 0) {
                    Some(i) => l.take(i),
                    None => l,
                },
            ),
            ..p
        }
    } else if contains_seq(l, "Rod"@) {
        match after_gt(l) {
            Some(x) => ProfileText { rod: x, ..p },
            None => p,
        }
    } else if occurs_at(l, 0, "Current biome:"@) {
        match after_gt(l) {
            Some(x) => ProfileText { biome: x, ..p },
            None => p,
        }
    } else if occurs_at(l, 0, "Pet:"@) {
        match after_gt(l) {
            Some(x) => ProfileText { pet: x, ..p },
            None => p,
        }
    } else if occurs_at(l, 0, "Bait:"@) {
        match after_gt(l) {
            Some(x) => ProfileText { bait: x, ..p },
            None => p,
        }
    } else if contains_seq(l, "Gold Fish"@) {
        match exotic_count(l) {
            Some(x) => ProfileText { exotic: ExoticFish { gold: x, ..p.exotic }, ..p },
            None => p,
        }
    } else if contains_seq(l, "Emerald Fish"@) {
        match exotic_count(l) {
            Some(x) => ProfileText { exotic: ExoticFish { emerald: x, ..p.exotic }, ..p },
            None => p,
        }
    } else if contains_seq(l, "Lava Fish"@) {
        match exotic_count(l) {
            Some(x) => ProfileText { exotic: ExoticFish { lava: x, ..p.exotic }, ..p },
            None => p,
        }
    } else if contains_seq(l, "Diamond Fish"@) {
        match exotic_count(l) {
            Some(x) => ProfileText { exotic: ExoticFish { diamond: x, ..p.exotic }, ..p },
            None => p,
        }
    } else if occurs_at(l, 0, "Fish Value:"@) {
        ProfileText { inventory_value: trim_seq(remove_all(l, "Fish Value:"@)), ..p }
    } else {
        match inventory_entry(l) {
            Some(e) => ProfileText { inventory: p.inventory.push(e), ..p },
            None => p,
        }
    }
}

pub open spec fn profile_fold(p: ProfileText, ls: Seq<Seq<char>>) -> ProfileText
    decreases ls.len(),
{
    if ls.len() == 0 {
        p
    } else {
        profile_line(profile_fold(p, ls.drop_last()), ls.last())
    }
}

fn after_gt_exec(l: &Vec<char>) -> (r: Option<Vec<char>>)
    ensures
        r matches Some(x) ==> after_gt(l@) == Some(x@),
        r is None ==> after_gt(l@) is None,
{
    let n = l.len();
    match find_char(l, '>') {
        Some(i) => {
            let rest = copy_range(l, i + 1, n);
            assert(rest@ =~= l@.skip(i + 1));
            Some(trimmed(&rest))
        },
        None => None,
    }
}

fn exotic_exec(l: &Vec<char>) -> (r: Option<i32>)
    ensures
        r == exotic_count(l@),
{
    match find_char(l, '<') {
        Some(e) => {
            let head = copy_range(l, 0, e);
            assert(head@ =~= l@.take(e as int));
            let digits = trimmed(&strip_chars(&head, ',', ',', ','));
            parse_int(&digits)
        },
        None => None,
    }
}

fn inventory_exec(l: &Vec<char>) -> (r: Option<(Vec<char>, Vec<char>)>)
    ensures
        r matches Some((a, b)) ==> inventory_entry(l@) == Some((a@, b@)),
        r is None ==> inventory_entry(l@) is None,
{
    if l.len() == 0 || !('0' <= l[0] && l[0] <= '9') {
        return None;
    }
    match find_char(l, '<') {
        Some(q) => {
            let head = copy_range(l, 0, q);
            assert(head@ =~= l@.take(q as int));
            let amount = trimmed(&head);
            let name = match rfind_char(l, '>') {
                Some(r) => {
                    let tail = copy_range(l, r + 1, l.len());
                    assert(tail@ =~= l@.skip(r + 1));
                    trimmed(&tail)
                },
                None => copy_range(l, 0, l.len()),
            };
            assert(l@.subrange(0, l@.len() as int) =~= l@);
            Some((amount, name))
        },
        None => None,
    }
}

impl Profile {
    /// A profile with nothing known yet.
    pub fn new() -> (r: Profile)
        ensures
            r.balance@.len() == 0,
            r.rod@.len() == 0,
            r.biome@.len() == 0,
            r.inventory@.len() == 0,
            r.quests@.len() == 0,
    {
        Profile {
            balance: String::new(),
            level: String::new(),
            rod: String::new(),
            biome: String::new(),
            current_biome: None,
            pet: String::new(),
            bait: String::new(),
            inventory_value: String::new(),
            exotic_fish: ExoticFish { gold: 0, emerald: 0, lava: 0, diamond: 0 },
            inventory: Vec::new(),
            charms: Charms {
                marketing: String::new(),
                endurance: String::new(),
                haste: String::new(),
                quantity: String::new(),
                worker: String::new(),
                treasure: String::new(),
                quality: String::new(),
                experience: String::new(),
                found: String::new(),
            },
            buffs: Buffs {
                sell_price: String::new(),
                fish_catch: String::new(),
                fish_quality: String::new(),
                treasure_chance: String::new(),
                treasure_quality: String::new(),
                xp_multiplier: String::new(),
                fishing_cooldown: String::new(),
            },
            quests: Vec::new(),
        }
    }

    pub open spec fn text(&self) -> ProfileText {
        ProfileText {
            balance: self.balance@,
            level: self.level@,
            rod: self.rod@,
            biome: self.biome@,
            pet: self.pet@,
            bait: self.bait@,
            inventory_value: self.inventory_value@,
            exotic: self.exotic_fish,
            inventory: self.inventory@.map_values(|e: (String, String)| (e.0@, e.1@)),
        }
    }

    fn apply_profile_line(&mut self, l0: &Vec<char>)
        ensures
            final(self).text() == profile_line(old(self).text(), l0@),
            final(self).charms == old(self).charms,
            final(self).buffs == old(self).buffs,
            final(self).quests == old(self).quests,
            final(self).current_biome == old(self).current_biome,
    {
        let l = trimmed(l0);
        if l.len() == 0 {
            return;
        }
        if lit_at(&l, 0, "Balance:") {
            self.balance = string_from_chars(&trimmed(&remove_lit(&l, "Balance:")));
        } else if contains_lit(&l, "XP to next level") {
            let head = match find_char(&l, ',') {
                Some(i) => copy_range(&l, 0, i),
                None => copy_range(&l, 0, l.len()),
            };
            assert(l@.subrange(0, l@.len() as int) =~= l@);
            assert(head@ == match first_index(l@, ',', 0) {
                Some(i) => l@.take(i),
                None => l@,
            });
            self.level = string_from_chars(&trimmed(&head));
        } else if contains_lit(&l, "Rod") {
            match after_gt_exec(&l) {
                Some(x) => {
                    self.rod = string_from_chars(&x);
                },
                None => {},
            }
        } else if lit_at(&l, 0, "Current biome:") {
            match after_gt_exec(&l) {
                Some(x) => {
                    self.biome = string_from_chars(&x);
                },
                None => {},
            }
        } else if lit_at(&l, 0, "Pet:") {
            match after_gt_exec(&l) {
                Some(x) => {
                    self.pet = string_from_chars(&x);
                },
                None => {},
            }
        } else if lit_at(&l, 0, "Bait:") {
            match after_gt_exec(&l) {
                Some(x) => {
                    self.bait = string_from_chars(&x);
                },
                None => {},
            }
        } else if contains_lit(&l, "Gold Fish") {
            match exotic_exec(&l) {
                Some(x) => {
                    self.exotic_fish.gold = x;
                },
                None => {},
            }
        } else if contains_lit(&l, "Emerald Fish") {
            match exotic_exec(&l) {
                Some(x) => {
                    self.exotic_fish.emerald = x;
                },
                None => {},
            }
        } else if contains_lit(&l, "Lava Fish") {
            match exotic_exec(&l) {
                Some(x) => {
                    self.exotic_fish.lava = x;
                },
                None => {},
            }
        } else if contains_lit(&l, "Diamond Fish") {
            match exotic_exec(&l) {
                Some(x) => {
                    self.exotic_fish.diamond = x;
                },
                None => {},
            }
        } else if lit_at(&l, 0, "Fish Value:") {
            self.inventory_value = string_from_chars(&trimmed(&remove_lit(&l, "Fish Value:")));
        } else {
            match inventory_exec(&l) {
                Some((a, b)) => {
                    let ghost before = self.inventory@;
                    self.inventory.push((string_from_chars(&a), string_from_chars(&b)));
                    assert(self.inventory@.map_values(|e: (String, String)| (e.0@, e.1@)) =~= before.map_values(
                        |e: (String, String)| (e.0@, e.1@),
                    ).push((a@, b@)));
                },
                None => {},
            }
        }
    }

    /// Reads a profile message: the inventory is listed afresh, and every
    /// line that names a field sets it.
    pub fn parse_profile(&mut self, content: &str)
        ensures
            final(self).text() == profile_fold(
                ProfileText { inventory: seq![], ..old(self).text() },
                lines_from(clean(content@), 0),
            ),
            final(self).charms == old(self).charms,
            final(self).buffs == old(self).buffs,
            final(self).quests == old(self).quests,
            final(self).current_biome == old(self).current_biome,
    {
        self.inventory = Vec::new();
        let ghost cleared = self.text();
        assert(self.inventory@.map_values(|e: (String, String)| (e.0@, e.1@)) =~= Seq::<(Seq<char>, Seq<char>)>::empty());
        assert(cleared == ProfileText { inventory: seq![], ..old(self).text() });
        let v = chars_of(content);
        let c = strip_chars(&v, '*', '+', '_');
        let lines = split_lines(&c);
        let ghost ls = views(lines@);
        let mut i: usize = 0;
        while i < lines.len()
            invariant
                ls == views(lines@),
                ls == lines_from(clean(content@), 0),
                i <= lines@.len(),
                self.text() == profile_fold(cleared, ls.take(i as int)),
                self.charms == old(self).charms,
                self.buffs == old(self).buffs,
                self.quests == old(self).quests,
                self.current_biome == old(self).current_biome,
            decreases lines@.len() - i,
        {
            assert(ls.take(i + 1).drop_last() =~= ls.take(i as int));
            assert(ls.take(i + 1).last() == lines@[i as int]@);
            self.apply_profile_line(&lines[i]);
            i = i + 1;
        }
        assert(ls.take(lines@.len() as int) =~= ls);
    }
}


// ---- charms, buffs and quests ----

pub struct CharmsText {
    pub marketing: Seq<char>,
    pub endurance: Seq<char>,
    pub haste: Seq<char>,
    pub quantity: Seq<char>,
    pub worker: Seq<char>,
    pub treasure: Seq<char>,
    pub quality: Seq<char>,
    pub experience: Seq<char>,
    pub found: Seq<char>,
}

impl Charms {
    pub open spec fn text(&self) -> CharmsText {
        CharmsText {
            marketing: self.marketing@,
            endurance: self.endurance@,
            haste: self.haste@,
            quantity: self.quantity@,
            worker: self.worker@,
            treasure: self.treasure@,
            quality: self.quality@,
            experience: self.experience@,
            found: self.found@,
        }
    }
}

/// What one line of a charms message changes: the amount before its `/`
/// goes to the charm the line names.
pub open spec fn charm_line(c: CharmsText, l: Seq<char>) -> CharmsText {
    match first_index(l, '/', 0) {
        Some(k) => {
            let v = trim_seq(l.take(k));
            if contains_seq(l, "Marketing"@) {
                CharmsText { marketing: v, ..c }
            } else if contains_seq(l, "Endurance"@) {
                CharmsText { endurance: v, ..c }
            } else if contains_seq(l, "Haste"@) {
                CharmsText { haste: v, ..c }
            } else if contains_seq(l, "Quantity"@) {
                CharmsText { quantity: v, ..c }
            } else if contains_seq(l, "Worker"@) {
                CharmsText { worker: v, ..c }
            } else if contains_seq(l, "Treasure"@) {
                CharmsText { treasure: v, ..c }
            } else if contains_seq(l, "Quality"@) {
                CharmsText { quality: v, ..c }
            } else if contains_seq(l, "Experience"@) {
                CharmsText { experience: v, ..c }
            } else if contains_seq(l, "Total charms found"@) {
                CharmsText { found: v, ..c }
            } else {
                c
            }
        },
        None => c,
    }
}

pub open spec fn charms_fold(c: CharmsText, ls: Seq<Seq<char>>) -> CharmsText
    decreases ls.len(),
{
    if ls.len() == 0 {
        c
    } else {
        charm_line(charms_fold(c, ls.drop_last()), ls.last())
    }
}

pub struct BuffsText {
    pub sell_price: Seq<char>,
    pub fish_catch: Seq<char>,
    pub fish_quality: Seq<char>,
    pub treasure_chance: Seq<char>,
    pub treasure_quality: Seq<char>,
    pub xp_multiplier: Seq<char>,
    pub fishing_cooldown: Seq<char>,
}

impl Buffs {
    pub open spec fn text(&self) -> BuffsText {
        BuffsText {
            sell_price: self.sell_price@,
            fish_catch: self.fish_catch@,
            fish_quality: self.fish_quality@,
            treasure_chance: self.treasure_chance@,
            treasure_quality: self.treasure_quality@,
            xp_multiplier: self.xp_multiplier@,
            fishing_cooldown: self.fishing_cooldown@,
        }
    }
}

/// What one line of a buffs message changes: the text after its `:` goes
/// to the buff the line names.
pub open spec fn buff_line(b: BuffsText, l: Seq<char>) -> BuffsText {
    match first_index(l, ':', 0) {
        Some(k) => {
            let v = trim_seq(l.skip(k + 1));
            if occurs_at(l, 0, "Sell"@) {
                BuffsText { sell_price: v, ..b }
            } else if contains_seq(l, "catch"@) {
                BuffsText { fish_catch: v, ..b }
            } else if contains_seq(l, "Fish quality"@) {
                BuffsText { fish_quality: v, ..b }
            } else if contains_seq(l, "chance"@) {
                BuffsText { treasure_chance: v, ..b }
            } else if contains_seq(l, "Treasure quality"@) {
                BuffsText { treasure_quality: v, ..b }
            } else if contains_seq(l, "XP"@) {
                BuffsText { xp_multiplier: v, ..b }
            } else if contains_seq(l, "cooldown"@) {
                BuffsText { fishing_cooldown: v, ..b }
            } else {
                b
            }
        },
        None => b,
    }
}

pub open spec fn buffs_fold(b: BuffsText, ls: Seq<Seq<char>>) -> BuffsText
    decreases ls.len(),
{
    if ls.len() == 0 {
        b
    } else {
        buff_line(buffs_fold(b, ls.drop_last()), ls.last())
    }
}

fn charm_value(l: &Vec<char>) -> (r: Option<Vec<char>>)
    ensures
        r matches Some(v) ==> first_index(l@, '/', 0) matches Some(k) && v@ == trim_seq(l@.take(k)),
        r is None ==> first_index(l@, '/', 0) is None,
{
    match find_char(l, '/') {
        Some(k) => {
            let head = copy_range(l, 0, k);
            assert(head@ =~= l@.take(k as int));
            Some(trimmed(&head))
        },
        None => None,
    }
}

fn buff_value(l: &Vec<char>) -> (r: Option<Vec<char>>)
    ensures
        r matches Some(v) ==> first_index(l@, ':', 0) matches Some(k) && v@ == trim_seq(l@.skip(k + 1)),
        r is None ==> first_index(l@, ':', 0) is None,
{
    let n = l.len();
    match find_char(l, ':') {
        Some(k) => {
            let tail = copy_range(l, k + 1, n);
            assert(tail@ =~= l@.skip(k + 1));
            Some(trimmed(&tail))
        },
        None => None,
    }
}

impl Profile {
    fn apply_charm_line(&mut self, l: &Vec<char>)
        ensures
            final(self).charms.text() == charm_line(old(self).charms.text(), l@),
            final(self).text() == old(self).text(),
            final(self).buffs == old(self).buffs,
            final(self).quests == old(self).quests,
            final(self).current_biome == old(self).current_biome,
    {
        match charm_value(l) {
            Some(v) => {
                let s = string_from_chars(&v);
                if contains_lit(l, "Marketing") {
                    self.charms.marketing = s;
                } else if contains_lit(l, "Endurance") {
                    self.charms.endurance = s;
                } else if contains_lit(l, "Haste") {
                    self.charms.haste = s;
                } else if contains_lit(l, "Quantity") {
                    self.charms.quantity = s;
                } else if contains_lit(l, "Worker") {
                    self.charms.worker = s;
                } else if contains_lit(l, "Treasure") {
                    self.charms.treasure = s;
                } else if contains_lit(l, "Quality") {
                    self.charms.quality = s;
                } else if contains_lit(l, "Experience") {
                    self.charms.experience = s;
                } else if contains_lit(l, "Total charms found") {
                    self.charms.found = s;
                }
            },
            None => {},
        }
    }

    fn apply_buff_line(&mut self, l: &Vec<char>)
        ensures
            final(self).buffs.text() == buff_line(old(self).buffs.text(), l@),
            final(self).text() == old(self).text(),
            final(self).charms == old(self).charms,
            final(self).quests == old(self).quests,
            final(self).current_biome == old(self).current_biome,
    {
        match buff_value(l) {
            Some(v) => {
                let s = string_from_chars(&v);
                if lit_at(l, 0, "Sell") {
                    self.buffs.sell_price = s;
                } else if contains_lit(l, "catch") {
                    self.buffs.fish_catch = s;
                } else if contains_lit(l, "Fish quality") {
                    self.buffs.fish_quality = s;
                } else if contains_lit(l, "chance") {
                    self.buffs.treasure_chance = s;
                } else if contains_lit(l, "Treasure quality") {
                    self.buffs.treasure_quality = s;
                } else if contains_lit(l, "XP") {
                    self.buffs.xp_multiplier = s;
                } else if contains_lit(l, "cooldown") {
                    self.buffs.fishing_cooldown = s;
                }
            },
            None => {},
        }
    }

    /// Reads a charms message, line by line.
    pub fn parse_charms(&mut self, content: &str)
        ensures
            final(self).charms.text() == charms_fold(old(self).charms.text(), lines_from(clean(content@), 0)),
            final(self).text() == old(self).text(),
            final(self).buffs == old(self).buffs,
            final(self).quests == old(self).quests,
            final(self).current_biome == old(self).current_biome,
    {
        let v = chars_of(content);
        let c = strip_chars(&v, '*', '+', '_');
        let lines = split_lines(&c);
        let ghost ls = views(lines@);
        let mut i: usize = 0;
        while i < lines.len()
            invariant
                ls == views(lines@),
                ls == lines_from(clean(content@), 0),
                i <= lines@.len(),
                self.charms.text() == charms_fold(old(self).charms.text(), ls.take(i as int)),
                self.text() == old(self).text(),
                self.buffs == old(self).buffs,
                self.quests == old(self).quests,
                self.current_biome == old(self).current_biome,
            decreases lines@.len() - i,
        {
            assert(ls.take(i + 1).drop_last() =~= ls.take(i as int));
            assert(ls.take(i + 1).last() == lines@[i as int]@);
            self.apply_charm_line(&lines[i]);
            i = i + 1;
        }
        assert(ls.take(lines@.len() as int) =~= ls);
    }

    /// Reads a buffs message, line by line.
    pub fn parse_buffs(&mut self, content: &str)
        ensures
            final(self).buffs.text() == buffs_fold(old(self).buffs.text(), lines_from(clean(content@), 0)),
            final(self).text() == old(self).text(),
            final(self).charms == old(self).charms,
            final(self).quests == old(self).quests,
            final(self).current_biome == old(self).current_biome,
    {
        let v = chars_of(content);
        let c = strip_chars(&v, '*', '+', '_');
        let lines = split_lines(&c);
        let ghost ls = views(lines@);
        let mut i: usize = 0;
        while i < lines.len()
            invariant
                ls == views(lines@),
                ls == lines_from(clean(content@), 0),
                i <= lines@.len(),
                self.buffs.text() == buffs_fold(old(self).buffs.text(), ls.take(i as int)),
                self.text() == old(self).text(),
                self.charms == old(self).charms,
                self.quests == old(self).quests,
                self.current_biome == old(self).current_biome,
            decreases lines@.len() - i,
        {
            assert(ls.take(i + 1).drop_last() =~= ls.take(i as int));
            assert(ls.take(i + 1).last() == lines@[i as int]@);
            self.apply_buff_line(&lines[i]);
            i = i + 1;
        }
        assert(ls.take(lines@.len() as int) =~= ls);
    }

}


/// Position of the first occurrence of `pat` in `s` at or after `i`.
pub open spec fn first_occ(s: Seq<char>, pat: Seq<char>, i: int) -> Option<int>
    decreases s.len() + 1 - i,
{
    if i < 0 || i > s.len() {
        None
    } else if occurs_at(s, i, pat) {
        Some(i)
    } else {
        first_occ(s, pat, i + 1)
    }
}

proof fn lemma_first_occ(s: Seq<char>, pat: Seq<char>, i: int)
    ensures
        first_occ(s, pat, i) matches Some(j) ==> occurs_at(s, j, pat) && i <= j,
    decreases s.len() + 1 - i,
{
    if 0 <= i <= s.len() && !occurs_at(s, i, pat) {
        lemma_first_occ(s, pat, i + 1);
    }
}

fn find_lit(v: &Vec<char>, pat: &str, from: usize) -> (r: Option<usize>)
    requires
        from <= v@.len(),
    ensures
        r matches Some(i) ==> first_occ(v@, pat@, from as int) == Some(i as int) && from <= i <= v@.len(),
        r is None ==> first_occ(v@, pat@, from as int) is None,
{
    let mut i = from;
    while i < v.len()
        invariant
            from <= i <= v@.len(),
            first_occ(v@, pat@, from as int) == first_occ(v@, pat@, i as int),
        decreases v@.len() - i,
    {
        if lit_at(v, i, pat) {
            return Some(i);
        }
        i = i + 1;
    }
    if lit_at(v, i, pat) {
        Some(i)
    } else {
        assert(first_occ(v@, pat@, i + 1) is None);
        None
    }
}

pub open spec fn quest_sep() -> Seq<char> {
    " - "@
}

/// A quest line `Daily… - objective - progress`, or `Daily… - objective
/// COMPLETED`.
pub open spec fn quest_of(l: Seq<char>) -> Option<(Seq<char>, Seq<char>, Seq<char>, bool)> {
    if !occurs_at(l, 0, "Daily"@) {
        None
    } else {
        match first_occ(l, quest_sep(), 0) {
            None => None,
            Some(a) => match first_occ(l, quest_sep(), a + quest_sep().len()) {
                None => Some((l.take(a), remove_all(l.skip(a + quest_sep().len()), " COMPLETED"@), "Completed"@, true)),
                Some(b) => {
                    let c = match first_occ(l, quest_sep(), b + quest_sep().len()) {
                        Some(c) => c,
                        None => l.len() as int,
                    };
                    Some((l.take(a), l.subrange(a + quest_sep().len(), b), l.subrange(b + quest_sep().len(), c), false))
                },
            },
        }
    }
}

pub open spec fn quest_line(q: Seq<(Seq<char>, Seq<char>, Seq<char>, bool)>, l: Seq<char>) -> Seq<(Seq<char>, Seq<char>, Seq<char>, bool)> {
    if l.len() == 0 || contains_seq(l, "Quests have multiple tiers"@) || contains_seq(l, "Quests reset"@) {
        q
    } else {
        match quest_of(l) {
            Some(x) => q.push(x),
            None => q,
        }
    }
}

pub open spec fn quests_fold(ls: Seq<Seq<char>>) -> Seq<(Seq<char>, Seq<char>, Seq<char>, bool)>
    decreases ls.len(),
{
    if ls.len() == 0 {
        seq![]
    } else {
        quest_line(quests_fold(ls.drop_last()), ls.last())
    }
}

pub open spec fn quests_text(q: Seq<Quest>) -> Seq<(Seq<char>, Seq<char>, Seq<char>, bool)> {
    q.map_values(|x: Quest| (x.category@, x.objective@, x.progress@, x.is_completed))
}

fn quest_exec(l: &Vec<char>) -> (r: Option<Quest>)
    ensures
        r matches Some(x) ==> quest_of(l@) == Some((x.category@, x.objective@, x.progress@, x.is_completed)),
        r is None ==> quest_of(l@) is None,
{
    let sep = " - ";
    let k = sep.unicode_len();
    proof {
        reveal_strlit(" - ");
    }
    let n = l.len();
    if !lit_at(l, 0, "Daily") {
        return None;
    }
    let a = match find_lit(l, sep, 0) {
        Some(a) => a,
        None => {
            return None;
        },
    };
    proof {
        lemma_first_occ(l@, sep@, 0);
    }
    assert(a + k <= n);
    let category = string_from_chars(&copy_range(l, 0, a));
    assert(l@.subrange(0, a as int) =~= l@.take(a as int));
    match find_lit(l, sep, a + k) {
        None => {
            let rest = copy_range(l, a + k, n);
            assert(rest@ =~= l@.skip(a + k));
            Some(Quest {
                category,
                objective: string_from_chars(&remove_lit(&rest, " COMPLETED")),
                progress: String::from_str("Completed"),
                is_completed: true,
            })
        },
        Some(b) => {
            proof {
                lemma_first_occ(l@, sep@, a + k);
            }
            assert(b + k <= n);
            let c = match find_lit(l, sep, b + k) {
                Some(c) => c,
                None => n,
            };
            Some(Quest {
                category,
                objective: string_from_chars(&copy_range(l, a + k, b)),
                progress: string_from_chars(&copy_range(l, b + k, c)),
                is_completed: false,
            })
        },
    }
}

impl Profile {
    fn apply_quest_line(&mut self, l: &Vec<char>)
        ensures
            quests_text(final(self).quests@) == quest_line(quests_text(old(self).quests@), l@),
            final(self).text() == old(self).text(),
            final(self).charms == old(self).charms,
            final(self).buffs == old(self).buffs,
            final(self).current_biome == old(self).current_biome,
    {
        if l.len() == 0 || contains_lit(l, "Quests have multiple tiers") || contains_lit(l, "Quests reset") {
            return;
        }
        match quest_exec(l) {
            Some(x) => {
                let ghost before = self.quests@;
                self.quests.push(x);
                assert(quests_text(self.quests@) =~= quests_text(before).push(
                    (x.category@, x.objective@, x.progress@, x.is_completed),
                ));
            },
            None => {},
        }
    }

    /// Reads a quests message: the quest list is built afresh.
    pub fn parse_quests(&mut self, content: &str)
        ensures
            quests_text(final(self).quests@) == quests_fold(lines_from(clean(content@), 0)),
            final(self).text() == old(self).text(),
            final(self).charms == old(self).charms,
            final(self).buffs == old(self).buffs,
            final(self).current_biome == old(self).current_biome,
    {
        self.quests = Vec::new();
        let v = chars_of(content);
        let c = strip_chars(&v, '*', '+', '_');
        let lines = split_lines(&c);
        let ghost ls = views(lines@);
        let mut i: usize = 0;
        assert(quests_text(self.quests@) =~= quests_fold(ls.take(0)));
        while i < lines.len()
            invariant
                ls == views(lines@),
                ls == lines_from(clean(content@), 0),
                i <= lines@.len(),
                quests_text(self.quests@) == quests_fold(ls.take(i as int)),
                self.text() == old(self).text(),
                self.charms == old(self).charms,
                self.buffs == old(self).buffs,
                self.current_biome == old(self).current_biome,
            decreases lines@.len() - i,
        {
            assert(ls.take(i + 1).drop_last() =~= ls.take(i as int));
            assert(ls.take(i + 1).last() == lines@[i as int]@);
            self.apply_quest_line(&lines[i]);
            i = i + 1;
        }
        assert(ls.take(lines@.len() as int) =~= ls);
    }

    /// Routes a message to the reader its title calls for: profile, charms,
    /// active buffs or quests; other messages change nothing.
    pub fn update_from_message(&mut self, content: &str, title: Option<&str>)
        ensures
            ({
                let t = match title {
                    Some(t) => t@,
                    None => Seq::<char>::empty(),
                };
                let ls = lines_from(clean(content@), 0);
                &&& title is Some && contains_seq(t, "Profile"@) ==> final(self).text() == profile_fold(
                    ProfileText { inventory: seq![], ..old(self).text() },
                    ls,
                ) && final(self).charms == old(self).charms && final(self).buffs == old(self).buffs
                    && final(self).quests == old(self).quests
                &&& title is Some && !contains_seq(t, "Profile"@) && contains_seq(t, "Charms"@) ==> final(self).charms.text()
                    == charms_fold(old(self).charms.text(), ls) && final(self).text() == old(self).text()
                    && final(self).buffs == old(self).buffs && final(self).quests == old(self).quests
                &&& title is Some && !contains_seq(t, "Profile"@) && !contains_seq(t, "Charms"@) && contains_seq(
                    t,
                    "Active Buffs"@,
                ) ==> final(self).buffs.text() == buffs_fold(old(self).buffs.text(), ls) && final(self).text()
                    == old(self).text() && final(self).charms == old(self).charms && final(self).quests
                    == old(self).quests
                &&& title is Some && !contains_seq(t, "Profile"@) && !contains_seq(t, "Charms"@) && !contains_seq(
                    t,
                    "Active Buffs"@,
                ) && contains_seq(t, "Quests"@) ==> quests_text(final(self).quests@) == quests_fold(ls)
                    && final(self).text() == old(self).text() && final(self).charms == old(self).charms
                    && final(self).buffs == old(self).buffs
                &&& (title is None || (!contains_seq(t, "Profile"@) && !contains_seq(t, "Charms"@) && !contains_seq(
                    t,
                    "Active Buffs"@,
                ) && !contains_seq(t, "Quests"@))) ==> final(self).text() == old(self).text()
                    && final(self).charms == old(self).charms && final(self).buffs == old(self).buffs
                    && final(self).quests == old(self).quests
            }),
            final(self).current_biome == old(self).current_biome,
    {
        match title {
            Some(t) => {
                let tv = chars_of(t);
                if contains_lit(&tv, "Profile") {
                    self.parse_profile(content);
                } else if contains_lit(&tv, "Charms") {
                    self.parse_charms(content);
                } else if contains_lit(&tv, "Active Buffs") {
                    self.parse_buffs(content);
                } else if contains_lit(&tv, "Quests") {
                    self.parse_quests(content);
                }
            },
            None => {},
        }
    }
}

} // verus!

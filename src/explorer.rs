use vstd::prelude::*;
use crate::commands::{find_option, option_index, CommandDescriptor};
use crate::parser::{
    entities_from, msg_rows, parse_generic_list, parse_select_menu_options, row_comps, GameEntity,
    SelectMenuOption,
};
use crate::profile::lines_from;
use crate::shop::{field_items, listed_items, parse_shop_embed, ShopItem};
use crate::text::{chars_of, contains_lit, contains_seq};
use crate::types::{Component, Embed, Message};

verus! {

/// Options nest at most this deep below a command on the platform.
pub const MAX_OPTION_DEPTH: u64 = 3;

/// Position of the first sub-command or sub-command group (types 1 and 2).
pub open spec fn first_sub(defs: Seq<CommandDescriptor>, j: int) -> Option<int>
    decreases defs.len() - j,
{
    if j < 0 || j >= defs.len() {
        None
    } else if defs[j].kind == 1 || defs[j].kind == 2 {
        Some(j)
    } else {
        first_sub(defs, j + 1)
    }
}

/// The chain of first sub-commands below `defs`, at most `fuel` deep.
pub open spec fn auto_path(defs: Seq<CommandDescriptor>, fuel: nat) -> Seq<(Seq<char>, u8)>
    decreases fuel,
{
    if fuel == 0 {
        seq![]
    } else {
        match first_sub(defs, 0) {
            Some(j) => seq![(defs[j].name@, defs[j].kind)] + auto_path(defs[j].options@, (fuel - 1) as nat),
            None => seq![],
        }
    }
}

/// The options that open the sub-command named by the words `path`, then
/// the first sub-command below it, level by level; none where a word names
/// no option. A level without options takes none.
pub open spec fn explore_path(defs: Seq<CommandDescriptor>, path: Seq<Seq<char>>) -> Option<Seq<(Seq<char>, u8)>>
    decreases path.len(),
{
    if path.len() == 0 {
        Some(auto_path(defs, MAX_OPTION_DEPTH as nat))
    } else if defs.len() == 0 {
        Some(seq![])
    } else {
        match option_index(defs, path[0], 0) {
            Some(i) => match explore_path(defs[i].options@, path.drop_first()) {
                Some(sub) => Some(seq![(defs[i].name@, defs[i].kind)] + sub),
                None => None,
            },
            None => None,
        }
    }
}

pub open spec fn pairs_view(v: Seq<(String, u8)>) -> Seq<(Seq<char>, u8)> {
    v.map_values(|p: (String, u8)| (p.0@, p.1))
}

fn find_sub(defs: &Vec<CommandDescriptor>) -> (r: Option<usize>)
    ensures
        r matches Some(j) ==> first_sub(defs@, 0) == Some(j as int) && j < defs@.len(),
        r is None ==> first_sub(defs@, 0) is None,
{
    let mut j: usize = 0;
    while j < defs.len()
        invariant
            j <= defs@.len(),
            first_sub(defs@, 0) == first_sub(defs@, j as int),
        decreases defs@.len() - j,
    {
        if defs[j].kind == 1 || defs[j].kind == 2 {
            return Some(j);
        }
        j = j + 1;
    }
    None
}

/// Computes `explore_path(options, path)`.
pub fn explore_options(options: &Vec<CommandDescriptor>, path: &Vec<String>) -> (r: Option<Vec<(String, u8)>>)
    ensures
        r matches Some(v) ==> explore_path(options@, path@.map_values(|s: String| s@)) == Some(pairs_view(v@)),
        r is None ==> explore_path(options@, path@.map_values(|s: String| s@)) is None,
{
    let ghost ps = path@.map_values(|s: String| s@);
    let mut out: Vec<(String, u8)> = Vec::new();
    let mut cur: &Vec<CommandDescriptor> = options;
    let mut k: usize = 0;
    assert(ps.skip(0) =~= ps);
    assert(pairs_view(out@) =~= Seq::<(Seq<char>, u8)>::empty());
    while k < path.len()
        invariant
            ps == path@.map_values(|s: String| s@),
            k <= path@.len(),
            explore_path(options@, ps) == match explore_path(cur@, ps.skip(k as int)) {
                Some(t) => Some(pairs_view(out@) + t),
                None => None,
            },
        decreases path@.len() - k,
    {
        let ghost rest = ps.skip(k as int);
        assert(rest[0] == path@[k as int]@);
        if cur.len() == 0 {
            assert(pairs_view(out@) + Seq::<(Seq<char>, u8)>::empty() =~= pairs_view(out@));
            return Some(out);
        }
        match find_option(cur, &path[k]) {
            Some(i) => {
                let ghost before = pairs_view(out@);
                out.push((cur[i].name.clone(), cur[i].kind));
                assert(rest.drop_first() =~= ps.skip(k + 1));
                assert(pairs_view(out@) =~= before.push((cur@[i as int].name@, cur@[i as int].kind)));
                proof {
                    match explore_path(cur@[i as int].options@, ps.skip(k + 1)) {
                        Some(t) => {
                            assert(before + (seq![(cur@[i as int].name@, cur@[i as int].kind)] + t) =~= pairs_view(out@) + t);
                        },
                        None => {},
                    }
                }
                cur = &cur[i].options;
                k = k + 1;
            },
            None => {
                return None;
            },
        }
    }
    assert(ps.skip(k as int).len() == 0);
    let mut fuel: u64 = MAX_OPTION_DEPTH;
    while fuel > 0
        invariant
            ps == path@.map_values(|s: String| s@),
            explore_path(options@, ps) == Some(pairs_view(out@) + auto_path(cur@, fuel as nat)),
        decreases fuel,
    {
        match find_sub(cur) {
            Some(j) => {
                let ghost before = pairs_view(out@);
                out.push((cur[j].name.clone(), cur[j].kind));
                assert(pairs_view(out@) =~= before.push((cur@[j as int].name@, cur@[j as int].kind)));
                assert(before + (seq![(cur@[j as int].name@, cur@[j as int].kind)] + auto_path(cur@[j as int].options@, (fuel - 1) as nat))
                    =~= pairs_view(out@) + auto_path(cur@[j as int].options@, (fuel - 1) as nat));
                cur = &cur[j].options;
                fuel = fuel - 1;
            },
            None => {
                assert(auto_path(cur@, fuel as nat) == Seq::<(Seq<char>, u8)>::empty());
                assert(pairs_view(out@) + auto_path(cur@, fuel as nat) =~= pairs_view(out@));
                return Some(out);
            },
        }
    }
    assert(pairs_view(out@) + auto_path(cur@, 0) =~= pairs_view(out@));
    Some(out)
}


// ---- pagination ----

pub open spec fn next_label(c: Component) -> bool {
    c.label matches Some(l) && (contains_seq(l@, "Next"@) || contains_seq(l@, ">"@))
}

/// Whether `c` is a control that turns to the next page: with `clickable`,
/// it must also carry an id.
pub open spec fn page_control(c: Component, clickable: bool) -> bool {
    next_label(c) && (!clickable || c.custom_id is Some)
}

pub open spec fn first_control_in(cs: Seq<Component>, j: int, clickable: bool) -> Option<int>
    decreases cs.len() - j,
{
    if j < 0 || j >= cs.len() {
        None
    } else if page_control(cs[j], clickable) {
        Some(j)
    } else {
        first_control_in(cs, j + 1, clickable)
    }
}

pub open spec fn first_control(rows: Seq<Component>, i: int, clickable: bool) -> Option<(int, int)>
    decreases rows.len() - i,
{
    if i < 0 || i >= rows.len() {
        None
    } else {
        match first_control_in(row_comps(rows[i]), 0, clickable) {
            Some(j) => Some((i, j)),
            None => first_control(rows, i + 1, clickable),
        }
    }
}

proof fn lemma_first_control_in(cs: Seq<Component>, j: int, clickable: bool)
    ensures
        first_control_in(cs, j, clickable) matches Some(k) ==> 0 <= k < cs.len() && page_control(cs[k], clickable),
    decreases cs.len() - j,
{
    if 0 <= j < cs.len() && !page_control(cs[j], clickable) {
        lemma_first_control_in(cs, j + 1, clickable);
    }
}

proof fn lemma_first_control(rows: Seq<Component>, i: int, clickable: bool)
    ensures
        first_control(rows, i, clickable) matches Some((a, b)) ==> 0 <= a < rows.len() && 0 <= b < row_comps(
            rows[a],
        ).len() && page_control(row_comps(rows[a])[b], clickable),
    decreases rows.len() - i,
{
    if 0 <= i < rows.len() {
        lemma_first_control_in(row_comps(rows[i]), 0, clickable);
        if first_control_in(row_comps(rows[i]), 0, clickable) is None {
            lemma_first_control(rows, i + 1, clickable);
        }
    }
}

fn is_page_control(c: &Component, clickable: bool) -> (r: bool)
    ensures
        r == page_control(*c, clickable),
{
    let labelled = match &c.label {
        Some(l) => {
            let v = chars_of(l.as_str());
            contains_lit(&v, "Next") || contains_lit(&v, ">")
        },
        None => false,
    };
    labelled && (!clickable || c.custom_id.is_some())
}

fn find_control(msg: &Message, clickable: bool) -> (r: Option<(usize, usize)>)
    ensures
        r matches Some((i, j)) ==> first_control(msg_rows(msg), 0, clickable) == Some((i as int, j as int))
            && i < msg_rows(msg).len() && j < row_comps(msg_rows(msg)[i as int]).len(),
        r is None ==> first_control(msg_rows(msg), 0, clickable) is None,
{
    match &msg.components {
        Some(rows) => {
            let mut i: usize = 0;
            while i < rows.len()
                invariant
                    msg_rows(msg) == rows@,
                    i <= rows@.len(),
                    first_control(rows@, 0, clickable) == first_control(rows@, i as int, clickable),
                decreases rows@.len() - i,
            {
                match &rows[i].components {
                    Some(comps) => {
                        let mut j: usize = 0;
                        while j < comps.len()
                            invariant
                                msg_rows(msg) == rows@,
                                i < rows@.len(),
                                row_comps(rows@[i as int]) == comps@,
                                j <= comps@.len(),
                                first_control(rows@, 0, clickable) == first_control(rows@, i as int, clickable),
                                first_control_in(comps@, 0, clickable) == first_control_in(comps@, j as int, clickable),
                            decreases comps@.len() - j,
                        {
                            if is_page_control(&comps[j], clickable) {
                                return Some((i, j));
                            }
                            j = j + 1;
                        }
                    },
                    None => {},
                }
                i = i + 1;
            }
            None
        },
        None => None,
    }
}

/// Whether a message offers a next page.
pub fn has_pagination(msg: &Message) -> (r: bool)
    ensures
        r == first_control(msg_rows(msg), 0, false) is Some,
{
    find_control(msg, false).is_some()
}

/// The id of the first next-page control of a message that can be clicked.
pub fn next_page_button(msg: &Message) -> (r: Option<String>)
    ensures
        r is None <==> first_control(msg_rows(msg), 0, true) is None,
        r matches Some(id) ==> ({
            let (i, j) = first_control(msg_rows(msg), 0, true)->0;
            row_comps(msg_rows(msg)[i])[j].custom_id == Some(id)
        }),
{
    proof {
        lemma_first_control(msg_rows(msg), 0, true);
    }
    match find_control(msg, true) {
        Some((i, j)) => {
            let rows = match &msg.components {
                Some(rows) => rows,
                None => {
                    return None;
                },
            };
            match &rows[i].components {
                Some(comps) => match &comps[j].custom_id {
                    Some(id) => Some(id.clone()),
                    None => None,
                },
                None => None,
            }
        },
        None => None,
    }
}

// ---- what a response message holds ----

/// Something a response message shows, to be kept.
#[derive(Debug)]
pub enum Record {
    Shop { source: String, item: ShopItem },
    Entity(GameEntity),
    Raw { title: String, details: String },
}

pub open spec fn text_of(s: Option<String>) -> Seq<char> {
    match s {
        Some(x) => x@,
        None => Seq::<char>::empty(),
    }
}

/// Number of records an embed gives: its shop items, else its listing
/// lines, else the embed itself.
pub open spec fn embed_record_count(e: Embed) -> int {
    let from_fields = match e.fields {
        Some(f) => field_items(f@),
        None => seq![],
    };
    let shop = if from_fields.len() > 0 { from_fields.len() as int } else {
        listed_items(lines_from(text_of(e.description), 0)).len() as int
    };
    let listed = entities_from(text_of(e.description), 0).len() as int;
    if shop > 0 { shop } else if listed > 0 { listed } else { 1 }
}

pub open spec fn record_count(es: Seq<Embed>) -> int
    decreases es.len(),
{
    if es.len() == 0 {
        0
    } else {
        record_count(es.drop_last()) + embed_record_count(es.last())
    }
}

/// What a response message holds: for each embed, its shop items, or else
/// the lines it lists, or else the embed as it is.
pub fn catalogue(msg: &Message) -> (r: Vec<Record>)
    ensures
        r@.len() == record_count(msg.embeds@),
{
    let mut out: Vec<Record> = Vec::new();
    let mut i: usize = 0;
    while i < msg.embeds.len()
        invariant
            i <= msg.embeds@.len(),
            out@.len() == record_count(msg.embeds@.take(i as int)),
        decreases msg.embeds@.len() - i,
    {
        assert(msg.embeds@.take(i + 1).drop_last() =~= msg.embeds@.take(i as int));
        let e = &msg.embeds[i];
        let title = match &e.title {
            Some(t) => t.clone(),
            None => String::new(),
        };
        let desc = match &e.description {
            Some(d) => d.clone(),
            None => String::new(),
        };
        let mut items = match &e.fields {
            Some(f) => parse_shop_embed(title.as_str(), desc.as_str(), Some(f)),
            None => parse_shop_embed(title.as_str(), desc.as_str(), None),
        };
        let ghost before = out@.len();
        if items.len() > 0 {
            let n = items.len();
            while items.len() > 0
                invariant
                    out@.len() + items@.len() == before + n,
                decreases items@.len(),
            {
                let item = items.remove(0);
                out.push(Record::Shop { source: title.clone(), item });
            }
        } else {
            let mut ents = parse_generic_list(title.as_str(), desc.as_str());
            if ents.len() > 0 {
                let n = ents.len();
                while ents.len() > 0
                    invariant
                        out@.len() + ents@.len() == before + n,
                    decreases ents@.len(),
                {
                    let ent = ents.remove(0);
                    out.push(Record::Entity(ent));
                }
            } else {
                out.push(Record::Raw { title, details: desc });
            }
        }
        assert(msg.embeds@.take(i + 1).last() == *e);
        i = i + 1;
    }
    assert(msg.embeds@.take(msg.embeds@.len() as int) =~= msg.embeds@);
    out
}


// ---- the crawler ----

pub const MAX_DISCOVERY_ATTEMPTS: u32 = 5;
pub const RESPONSE_WAIT_MS: u64 = 3000;
pub const SUBMENU_WAIT_MS: u64 = 4000;
pub const PAGE_WAIT_MS: u64 = 2000;
pub const CYCLE_PAUSE_MS: u64 = 3_600_000;

#[derive(Debug, Clone, Copy, PartialEq, Eq, Structural)]
pub enum ExplorerState {
    Idle,
    DiscoveringCommands,
    ExecutingCommand,
    WaitingForResponse,
    NavigatingSubmenu,
    WaitingForSubmenuResponse,
    NavigatingPagination,
    Cooldown,
}

/// A command to explore: its full text, its name and its sub-command words.
#[derive(Debug)]
pub struct ExploreTarget {
    pub text: String,
    pub command: String,
    pub sub: Vec<String>,
}

/// What the crawler asks its shell to do, in order.
#[derive(Debug)]
pub enum ExplorerAction {
    /// Fetch the command index, then report it with `on_commands`.
    FetchCommands,
    /// Store the commands now known.
    RegisterCommands,
    Wait { ms: u64 },
    /// Submit known command `command` with `options`, then report with `on_executed`.
    Execute { command: usize, options: Vec<(String, u8)> },
    MarkExecuted { text: String },
    Save(Record),
    /// Choose `value` in a select menu, then report with `on_selected`.
    Select { message_id: String, custom_id: String, value: String },
    /// Fetch a message again, then report it with `on_submenu_message`.
    FetchMessage { message_id: String },
    NextPage { message_id: String, custom_id: String },
}

/// Walks the game's commands and their menus, recording what they show.
pub struct Explorer {
    pub state: ExplorerState,
    pub known_commands: Vec<CommandDescriptor>,
    pub target_commands: Vec<ExploreTarget>,
    pub current_command_index: usize,
    pub discovery_attempts: u32,
    pub submenu_custom_id: Option<String>,
    pub submenu_options: Vec<SelectMenuOption>,
    pub current_submenu_index: usize,
    pub current_message_id: String,
}

fn target(text: &str, command: &str, sub: &str) -> (r: ExploreTarget)
    ensures
        r.text@ == text@,
        r.command@ == command@,
{
    let mut words: Vec<String> = Vec::new();
    if sub.unicode_len() > 0 {
        words.push(String::from_str(sub));
    }
    ExploreTarget { text: String::from_str(text), command: String::from_str(command), sub: words }
}

fn leaf(name: &str) -> (r: CommandDescriptor)
    ensures
        r.name@ == name@,
        r.kind == 1,
        r.options@.len() == 0,
{
    CommandDescriptor { name: String::from_str(name), kind: 1, options: Vec::new() }
}

fn with_sub(name: &str, sub: &str) -> (r: CommandDescriptor)
    ensures
        r.name@ == name@,
        r.kind == 1,
        r.options@.len() == 1,
        r.options@[0].name@ == sub@,
        r.options@[0].kind == 1,
        r.options@[0].options@.len() == 0,
{
    let mut options: Vec<CommandDescriptor> = Vec::new();
    options.push(leaf(sub));
    CommandDescriptor { name: String::from_str(name), kind: 1, options }
}

/// A command with no options, named `n`.
pub open spec fn leaf_named(d: CommandDescriptor, n: Seq<char>) -> bool {
    d.name@ == n && d.kind == 1 && d.options@.len() == 0
}

/// The commands assumed when the index cannot be fetched: `shop` with its
/// `view` sub-command, `fishdex`, `buffs`, `boosters`, `daily`, `profile`,
/// `quests`, and `prestige` with its `shop` sub-command.
pub open spec fn is_fallback(k: Seq<CommandDescriptor>) -> bool {
    &&& k.len() == 8
    &&& k[0].name@ == "shop"@ && k[0].kind == 1 && k[0].options@.len() == 1 && leaf_named(k[0].options@[0], "view"@)
    &&& leaf_named(k[1], "fishdex"@)
    &&& leaf_named(k[2], "buffs"@)
    &&& leaf_named(k[3], "boosters"@)
    &&& leaf_named(k[4], "daily"@)
    &&& leaf_named(k[5], "profile"@)
    &&& leaf_named(k[6], "quests"@)
    &&& k[7].name@ == "prestige"@ && k[7].kind == 1 && k[7].options@.len() == 1 && leaf_named(
        k[7].options@[0],
        "shop"@,
    )
}

pub open spec fn advanced(old: Explorer, new: Explorer) -> bool {
    &&& new.current_command_index == old.current_command_index + 1
    &&& new.state == ExplorerState::ExecutingCommand
}

impl Explorer {
    /// An idle crawler with its list of commands to explore.
    pub fn new() -> (r: Explorer)
        ensures
            r.state == ExplorerState::Idle,
            r.target_commands@.len() == 8,
            r.current_command_index == 0,
            r.known_commands@.len() == 0,
    {
        let mut t: Vec<ExploreTarget> = Vec::new();
        t.push(target("shop", "shop", ""));
        t.push(target("fishdex", "fishdex", ""));
        t.push(target("buffs", "buffs", ""));
        t.push(target("boosters", "boosters", ""));
        t.push(target("prestige shop", "prestige", "shop"));
        t.push(target("clan shop", "clan", "shop"));
        t.push(target("daily", "daily", ""));
        t.push(target("quests", "quests", ""));
        Explorer {
            state: ExplorerState::Idle,
            known_commands: Vec::new(),
            target_commands: t,
            current_command_index: 0,
            discovery_attempts: 0,
            submenu_custom_id: None,
            submenu_options: Vec::new(),
            current_submenu_index: 0,
            current_message_id: String::new(),
        }
    }

    pub fn start(&mut self)
        ensures
            final(self).state == ExplorerState::DiscoveringCommands,
            final(self).discovery_attempts == 0,
            final(self).current_command_index == old(self).current_command_index,
    {
        self.state = ExplorerState::DiscoveringCommands;
        self.discovery_attempts = 0;
    }

    fn advance_command(&mut self)
        requires
            old(self).current_command_index < old(self).target_commands@.len(),
        ensures
            advanced(*old(self), *final(self)),
            final(self).target_commands == old(self).target_commands,
            final(self).known_commands == old(self).known_commands,
            final(self).submenu_custom_id == old(self).submenu_custom_id,
            final(self).submenu_options == old(self).submenu_options,
            final(self).current_submenu_index == old(self).current_submenu_index,
            final(self).current_message_id == old(self).current_message_id,
            final(self).discovery_attempts == old(self).discovery_attempts,
    {
        let _n = self.target_commands.len();
        self.current_command_index = self.current_command_index + 1;
        self.state = ExplorerState::ExecutingCommand;
    }

    /// The commands assumed when the index cannot be fetched.
    fn load_fallback_commands(&mut self)
        ensures
            is_fallback(final(self).known_commands@),
            final(self).target_commands == old(self).target_commands,
            final(self).current_command_index == old(self).current_command_index,
    {
        let mut k: Vec<CommandDescriptor> = Vec::new();
        k.push(with_sub("shop", "view"));
        k.push(leaf("fishdex"));
        k.push(leaf("buffs"));
        k.push(leaf("boosters"));
        k.push(leaf("daily"));
        k.push(leaf("profile"));
        k.push(leaf("quests"));
        k.push(with_sub("prestige", "shop"));
        self.known_commands = k;
    }

    /// The result of fetching the command index: the commands, or nothing
    /// when the fetch failed.
    pub fn on_commands(&mut self, cmds: Option<Vec<CommandDescriptor>>) -> (r: Vec<ExplorerAction>)
        ensures
            final(self).current_command_index == old(self).current_command_index,
            final(self).target_commands == old(self).target_commands,
            cmds is Some ==> final(self).state == ExplorerState::ExecutingCommand && final(self).discovery_attempts == 0
                && r@.len() == 1 && (r@[0] is RegisterCommands),
            cmds is None && old(self).discovery_attempts + 1 >= MAX_DISCOVERY_ATTEMPTS ==> final(self).state
                == ExplorerState::ExecutingCommand && final(self).discovery_attempts == 0 && is_fallback(final(self).known_commands@)
                && r@.len() == 0,
            cmds is None && old(self).discovery_attempts + 1 < MAX_DISCOVERY_ATTEMPTS ==> final(self).state == old(self).state
                && final(self).discovery_attempts == old(self).discovery_attempts + 1 && r@.len() == 1
                && r@[0] == (ExplorerAction::Wait { ms: (pow2(final(self).discovery_attempts as nat) * 2000) as u64 }),
    {
        match cmds {
            Some(c) => {
                self.known_commands = c;
                self.state = ExplorerState::ExecutingCommand;
                self.discovery_attempts = 0;
                vec![ExplorerAction::RegisterCommands]
            },
            None => {
                if self.discovery_attempts >= MAX_DISCOVERY_ATTEMPTS - 1 {
                    self.load_fallback_commands();
                    self.state = ExplorerState::ExecutingCommand;
                    self.discovery_attempts = 0;
                    vec![]
                } else {
                    self.discovery_attempts = self.discovery_attempts + 1;
                    let ms = backoff_ms(self.discovery_attempts);
                    vec![ExplorerAction::Wait { ms }]
                }
            },
        }
    }
}

pub open spec fn pow2(n: nat) -> int
    decreases n,
{
    if n == 0 { 1 } else { 2 * pow2((n - 1) as nat) }
}

/// `2^attempts × 2 s`.
fn backoff_ms(attempts: u32) -> (r: u64)
    requires
        attempts < MAX_DISCOVERY_ATTEMPTS,
    ensures
        r == pow2(attempts as nat) * 2000,
{
    let p: u64 = if attempts == 0 {
        1
    } else if attempts == 1 {
        2
    } else if attempts == 2 {
        4
    } else if attempts == 3 {
        8
    } else {
        16
    };
    proof {
        reveal_with_fuel(pow2, 5);
    }
    p * 2000
}


impl Explorer {
    pub open spec fn wf(&self) -> bool {
        &&& self.current_command_index <= self.target_commands@.len()
        &&& self.current_submenu_index <= self.submenu_options@.len()
        &&& (self.state == ExplorerState::WaitingForResponse || self.state == ExplorerState::NavigatingSubmenu
            || self.state == ExplorerState::WaitingForSubmenuResponse) ==> self.current_command_index
            < self.target_commands@.len()
        &&& self.state == ExplorerState::WaitingForSubmenuResponse ==> self.current_submenu_index
            < self.submenu_options@.len()
    }

    /// Saves every record of a message, in order.
    fn save_all(out: &mut Vec<ExplorerAction>, msg: &Message)
        ensures
            final(out)@.len() == old(out)@.len() + record_count(msg.embeds@),
            final(out)@.len() >= old(out)@.len(),
            forall|k: int| 0 <= k < old(out)@.len() ==> final(out)@[k] == old(out)@[k],
            forall|k: int| old(out)@.len() <= k < final(out)@.len() ==> (#[trigger] final(out)@[k]) is Save,
    {
        let mut recs = catalogue(msg);
        let n = recs.len();
        let ghost base = out@;
        while recs.len() > 0
            invariant
                out@.len() + recs@.len() == base.len() + n,
                n == record_count(msg.embeds@),
                out@.len() >= base.len(),
                forall|k: int| 0 <= k < base.len() ==> out@[k] == base[k],
                forall|k: int| base.len() <= k < out@.len() ==> (#[trigger] out@[k]) is Save,
            decreases recs@.len(),
        {
            let r = recs.remove(0);
            out.push(ExplorerAction::Save(r));
        }
    }

    /// One step of the crawler in its current state. `last` is the latest
    /// message of the channel.
    pub fn tick(&mut self, last: Option<&Message>) -> (r: Vec<ExplorerAction>)
        requires
            old(self).wf(),
        ensures
            final(self).wf(),
            final(self).target_commands == old(self).target_commands,
            old(self).state == ExplorerState::Idle || old(self).state == ExplorerState::NavigatingPagination ==> {
                &&& final(self).state == old(self).state
                &&& r@.len() == 0
            },
            old(self).state == ExplorerState::DiscoveringCommands ==> {
                &&& final(self).state == old(self).state
                &&& r@.len() == 1
                &&& r@[0] is FetchCommands
            },
            old(self).state == ExplorerState::ExecutingCommand && old(self).current_command_index >= old(
                self,
            ).target_commands@.len() ==> {
                &&& final(self).state == ExplorerState::Cooldown
                &&& final(self).current_command_index == 0
                &&& r@.len() == 0
            },
            old(self).state == ExplorerState::ExecutingCommand && old(self).current_command_index < old(
                self,
            ).target_commands@.len() ==> ({
                let t = old(self).target_commands@[old(self).current_command_index as int];
                match option_index(old(self).known_commands@, t.command@, 0) {
                    Some(k) => final(self).state == old(self).state && r@.len() == 1 && (r@[0] matches ExplorerAction::Execute {
                        command,
                        options,
                    } && command == k && match explore_path(
                        old(self).known_commands@[k].options@,
                        t.sub@.map_values(|s: String| s@),
                    ) {
                        Some(p) => pairs_view(options@) == p,
                        None => options@.len() == 0,
                    }),
                    None => advanced(*old(self), *final(self)) && r@.len() == 0,
                }
            }),
            old(self).state == ExplorerState::WaitingForResponse ==> {
                &&& r@.len() >= 1
                &&& r@[0] == (ExplorerAction::Wait { ms: RESPONSE_WAIT_MS })
                &&& last is None ==> advanced(*old(self), *final(self)) && r@.len() == 1
            },
            old(self).state == ExplorerState::NavigatingSubmenu && old(self).current_submenu_index >= old(
                self,
            ).submenu_options@.len() ==> {
                &&& advanced(*old(self), *final(self))
                &&& final(self).submenu_custom_id is None
                &&& final(self).submenu_options@.len() == 0
                &&& r@.len() == 0
            },
            old(self).state == ExplorerState::NavigatingSubmenu && old(self).current_submenu_index < old(
                self,
            ).submenu_options@.len() && old(self).submenu_custom_id is Some ==> {
                &&& final(self).state == old(self).state
                &&& r@.len() == 1
                &&& r@[0] == (ExplorerAction::Select {
                    message_id: old(self).current_message_id,
                    custom_id: old(self).submenu_custom_id->0,
                    value: old(self).submenu_options@[old(self).current_submenu_index as int].value,
                })
            },
            old(self).state == ExplorerState::WaitingForSubmenuResponse ==> {
                &&& final(self).state == old(self).state
                &&& r@ == seq![
                    ExplorerAction::Wait { ms: SUBMENU_WAIT_MS },
                    ExplorerAction::FetchMessage { message_id: old(self).current_message_id },
                ]
            },
            old(self).state == ExplorerState::Cooldown ==> {
                &&& final(self).state == ExplorerState::DiscoveringCommands
                &&& r@ == seq![ExplorerAction::Wait { ms: CYCLE_PAUSE_MS }]
            },
    {
        match self.state {
            ExplorerState::Idle => vec![],
            ExplorerState::NavigatingPagination => vec![],
            ExplorerState::DiscoveringCommands => vec![ExplorerAction::FetchCommands],
            ExplorerState::Cooldown => {
                self.state = ExplorerState::DiscoveringCommands;
                vec![ExplorerAction::Wait { ms: CYCLE_PAUSE_MS }]
            },
            ExplorerState::ExecutingCommand => {
                if self.current_command_index >= self.target_commands.len() {
                    self.current_command_index = 0;
                    self.state = ExplorerState::Cooldown;
                    return vec![];
                }
                let t = &self.target_commands[self.current_command_index];
                match find_option(&self.known_commands, &t.command) {
                    Some(k) => {
                        let options = match explore_options(&self.known_commands[k].options, &t.sub) {
                            Some(o) => o,
                            None => Vec::new(),
                        };
                        vec![ExplorerAction::Execute { command: k, options }]
                    },
                    None => {
                        self.advance_command();
                        vec![]
                    },
                }
            },
            ExplorerState::WaitingForResponse => {
                let mut out: Vec<ExplorerAction> = Vec::new();
                out.push(ExplorerAction::Wait { ms: RESPONSE_WAIT_MS });
                match last {
                    Some(msg) => {
                        Self::save_all(&mut out, msg);
                        match parse_select_menu_options(msg) {
                            Some((id, opts)) => {
                                self.submenu_custom_id = Some(id);
                                self.submenu_options = opts;
                                self.current_submenu_index = 0;
                                self.current_message_id = msg.id.clone();
                                self.state = ExplorerState::NavigatingSubmenu;
                            },
                            None => {
                                if has_pagination(msg) {
                                    match next_page_button(msg) {
                                        Some(cid) => {
                                            out.push(ExplorerAction::NextPage { message_id: msg.id.clone(), custom_id: cid });
                                            out.push(ExplorerAction::Wait { ms: PAGE_WAIT_MS });
                                        },
                                        None => {},
                                    }
                                } else {
                                    self.advance_command();
                                }
                            },
                        }
                    },
                    None => {
                        self.advance_command();
                    },
                }
                out
            },
            ExplorerState::NavigatingSubmenu => {
                if self.current_submenu_index >= self.submenu_options.len() {
                    self.submenu_custom_id = None;
                    self.submenu_options = Vec::new();
                    self.current_submenu_index = 0;
                    self.advance_command();
                    return vec![];
                }
                match &self.submenu_custom_id {
                    Some(c) => {
                        let value = self.submenu_options[self.current_submenu_index].value.clone();
                        vec![ExplorerAction::Select { message_id: self.current_message_id.clone(), custom_id: c.clone(), value }]
                    },
                    None => {
                        self.advance_command();
                        vec![]
                    },
                }
            },
            ExplorerState::WaitingForSubmenuResponse => {
                vec![
                    ExplorerAction::Wait { ms: SUBMENU_WAIT_MS },
                    ExplorerAction::FetchMessage { message_id: self.current_message_id.clone() },
                ]
            },
        }
    }

    /// Whether submitting the current command went through.
    pub fn on_executed(&mut self, ok: bool) -> (r: Vec<ExplorerAction>)
        requires
            old(self).wf(),
            old(self).state == ExplorerState::ExecutingCommand,
            old(self).current_command_index < old(self).target_commands@.len(),
        ensures
            final(self).wf(),
            ok ==> final(self).state == ExplorerState::WaitingForResponse && r@.len() == 1 && (r@[0] matches ExplorerAction::MarkExecuted {
                text,
            } && text == old(self).target_commands@[old(self).current_command_index as int].text),
            !ok ==> final(self).state == old(self).state && r@.len() == 0,
            final(self).current_command_index == old(self).current_command_index,
    {
        if ok {
            self.state = ExplorerState::WaitingForResponse;
            vec![ExplorerAction::MarkExecuted { text: self.target_commands[self.current_command_index].text.clone() }]
        } else {
            vec![]
        }
    }

    /// Whether choosing the current menu option went through.
    pub fn on_selected(&mut self, ok: bool)
        requires
            old(self).wf(),
            old(self).state == ExplorerState::NavigatingSubmenu,
            old(self).current_submenu_index < old(self).submenu_options@.len(),
        ensures
            final(self).wf(),
            ok ==> final(self).state == ExplorerState::WaitingForSubmenuResponse && final(self).current_submenu_index
                == old(self).current_submenu_index,
            !ok ==> final(self).state == old(self).state && final(self).current_submenu_index == old(
                self,
            ).current_submenu_index + 1,
    {
        if ok {
            self.state = ExplorerState::WaitingForSubmenuResponse;
        } else {
            let _n = self.submenu_options.len();
            self.current_submenu_index = self.current_submenu_index + 1;
        }
    }

    /// The message fetched again after choosing a menu option, if the fetch
    /// went through: its records are saved and the next option comes.
    pub fn on_submenu_message(&mut self, msg: Option<&Message>) -> (r: Vec<ExplorerAction>)
        requires
            old(self).wf(),
            old(self).state == ExplorerState::WaitingForSubmenuResponse,
        ensures
            final(self).wf(),
            final(self).state == ExplorerState::NavigatingSubmenu,
            final(self).current_submenu_index == old(self).current_submenu_index + 1,
            msg matches Some(m) ==> r@.len() == record_count(m.embeds@) && final(self).current_message_id == m.id,
            msg is None ==> r@.len() == 0 && final(self).current_message_id == old(self).current_message_id,
    {
        let mut out: Vec<ExplorerAction> = Vec::new();
        match msg {
            Some(m) => {
                Self::save_all(&mut out, m);
                self.current_message_id = m.id.clone();
            },
            None => {},
        }
        let _n = self.submenu_options.len();
        self.current_submenu_index = self.current_submenu_index + 1;
        self.state = ExplorerState::NavigatingSubmenu;
        out
    }
}

} // verus!

use vstd::prelude::*;
use crate::scheduler::TaskKind;
use crate::text::str_eq;

verus! {

/// The parts of a command definition that the library inspects: its name,
/// its option type, and its nested options.
#[derive(Debug)]
pub struct CommandDescriptor {
    pub name: String,
    pub kind: u8,
    pub options: Vec<CommandDescriptor>,
}

/// Position of the first option named `n`.
pub open spec fn option_index(defs: Seq<CommandDescriptor>, n: Seq<char>, i: int) -> Option<int>
    decreases defs.len() - i,
{
    if i < 0 || i >= defs.len() {
        None
    } else if defs[i].name@ == n {
        Some(i)
    } else {
        option_index(defs, n, i + 1)
    }
}

/// The (name, type) of each nested option that the words `parts` select,
/// level by level, stopping at the first word no option carries.
pub open spec fn option_path(defs: Seq<CommandDescriptor>, parts: Seq<Seq<char>>) -> Seq<(Seq<char>, u8)>
    decreases parts.len(),
{
    if parts.len() == 0 {
        seq![]
    } else {
        match option_index(defs, parts[0], 0) {
            Some(i) => seq![(defs[i].name@, defs[i].kind)] + option_path(defs[i].options@, parts.drop_first()),
            None => seq![],
        }
    }
}

pub open spec fn path_view(v: Seq<(String, u8)>) -> Seq<(Seq<char>, u8)> {
    v.map_values(|p: (String, u8)| (p.0@, p.1))
}

pub(crate) fn find_option(defs: &Vec<CommandDescriptor>, n: &String) -> (r: Option<usize>)
    ensures
        r matches Some(i) ==> option_index(defs@, n@, 0) == Some(i as int) && i < defs@.len(),
        r is None ==> option_index(defs@, n@, 0) is None,
{
    let mut i: usize = 0;
    while i < defs.len()
        invariant
            i <= defs@.len(),
            option_index(defs@, n@, 0) == option_index(defs@, n@, i as int),
        decreases defs@.len() - i,
    {
        if str_eq(defs[i].name.as_str(), n.as_str()) {
            return Some(i);
        }
        i = i + 1;
    }
    None
}

/// The nested options that select the sub-command words `parts` of `cmd`,
/// outermost first; none where the first word selects nothing.
pub fn build_command_options(cmd: &CommandDescriptor, parts: &Vec<String>) -> (r: Option<Vec<(String, u8)>>)
    ensures
        r is None <==> option_path(cmd.options@, parts@.map_values(|s: String| s@)).len() == 0,
        r matches Some(v) ==> path_view(v@) == option_path(cmd.options@, parts@.map_values(|s: String| s@)),
{
    let ghost ps = parts@.map_values(|s: String| s@);
    let mut out: Vec<(String, u8)> = Vec::new();
    let mut cur: &Vec<CommandDescriptor> = &cmd.options;
    let mut k: usize = 0;
    assert(ps.skip(0) =~= ps);
    assert(path_view(out@) =~= Seq::<(Seq<char>, u8)>::empty());
    assert(path_view(out@) + option_path(cur@, ps.skip(0)) =~= option_path(cmd.options@, ps));
    while k < parts.len()
        invariant_except_break
            ps == parts@.map_values(|s: String| s@),
            k <= parts@.len(),
            path_view(out@) + option_path(cur@, ps.skip(k as int)) == option_path(cmd.options@, ps),
        ensures
            path_view(out@) == option_path(cmd.options@, ps),
        decreases parts@.len() - k,
    {
        let ghost rest = ps.skip(k as int);
        assert(rest[0] == parts@[k as int]@);
        match find_option(cur, &parts[k]) {
            Some(i) => {
                let ghost before = path_view(out@);
                out.push((cur[i].name.clone(), cur[i].kind));
                assert(rest.drop_first() =~= ps.skip(k + 1));
                assert(path_view(out@) =~= before.push((cur@[i as int].name@, cur@[i as int].kind)));
                cur = &cur[i].options;
                k = k + 1;
            },
            None => {
                assert(option_path(cur@, rest) =~= Seq::<(Seq<char>, u8)>::empty());
                assert(path_view(out@) =~= option_path(cmd.options@, ps));
                break;
            },
        }
    }
    if out.len() == 0 {
        None
    } else {
        Some(out)
    }
}

/// The command a task submits, and its sub-command words.
pub fn task_command(kind: TaskKind) -> (r: (String, Vec<String>))
    ensures
        r.0@ == match kind {
            TaskKind::Daily => "daily"@,
            TaskKind::Sell => "sell"@,
            TaskKind::Claim => "claim"@,
            TaskKind::PeriodicBoost => "shop"@,
        },
        r.1@.len() == if kind == TaskKind::PeriodicBoost { 1int } else { 0 },
        kind == TaskKind::PeriodicBoost ==> r.1@[0]@ == "buy"@,
{
    match kind {
        TaskKind::Daily => (String::from_str("daily"), Vec::new()),
        TaskKind::Sell => (String::from_str("sell"), Vec::new()),
        TaskKind::Claim => (String::from_str("claim"), Vec::new()),
        TaskKind::PeriodicBoost => {
            let mut v: Vec<String> = Vec::new();
            v.push(String::from_str("buy"));
            (String::from_str("shop"), v)
        },
    }
}

} // verus!

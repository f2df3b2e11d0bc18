use vstd::prelude::*;
use crate::config::Config;
use crate::profile::Profile;

verus! {

/// Most log lines the dashboard keeps.
pub const LOG_CAPACITY: usize = 100;

/// Counters shown on the dashboard.
#[derive(Debug, Clone)]
pub struct Stats {
    pub fish_caught: u64,
    pub money_earned: u64,
    pub captchas_solved: u64,
    pub runtime: String,
}

/// What the operator's dashboard shows and controls.
pub struct App {
    pub config: Config,
    pub tabs: Vec<String>,
    pub tab_index: usize,
    pub is_running: bool,
    pub status: String,
    pub logs: Vec<String>,
    pub stats: Stats,
    pub profile: Profile,
    pub last_message: String,
    pub should_quit: bool,
}

/// The log after appending `m`: the oldest line goes once there are more
/// than `LOG_CAPACITY`.
pub open spec fn logged(logs: Seq<String>, m: String) -> Seq<String> {
    let l = logs.push(m);
    if l.len() > LOG_CAPACITY { l.drop_first() } else { l }
}

impl App {
    pub open spec fn wf(&self) -> bool {
        &&& self.tab_index < self.tabs@.len()
        &&& self.logs@.len() <= LOG_CAPACITY
    }

    pub fn new(config: Config) -> (r: App)
        ensures
            r.wf(),
            r.tabs@.len() == 4,
            r.tab_index == 0,
            !r.is_running,
            r.status@ == "Stopped"@,
            r.logs@.len() == 0,
            !r.should_quit,
    {
        let mut tabs: Vec<String> = Vec::new();
        tabs.push(String::from_str("Dashboard"));
        tabs.push(String::from_str("Profile"));
        tabs.push(String::from_str("Logs"));
        tabs.push(String::from_str("Config"));
        App {
            config,
            tabs,
            tab_index: 0,
            is_running: false,
            status: String::from_str("Stopped"),
            logs: Vec::new(),
            stats: Stats { fish_caught: 0, money_earned: 0, captchas_solved: 0, runtime: String::from_str("00:00:00") },
            profile: Profile::new(),
            last_message: String::new(),
            should_quit: false,
        }
    }

    /// Periodic refresh; the dashboard holds nothing that changes with time.
    pub fn on_tick(&mut self)
        ensures
            *final(self) == *old(self),
    {
    }

    pub fn add_log(&mut self, message: String)
        requires
            old(self).wf(),
        ensures
            final(self).wf(),
            final(self).logs@ == logged(old(self).logs@, message),
            final(self).tab_index == old(self).tab_index,
            final(self).tabs == old(self).tabs,
            final(self).is_running == old(self).is_running,
            final(self).status == old(self).status,
    {
        self.logs.push(message);
        if self.logs.len() > LOG_CAPACITY {
            let ghost l = self.logs@;
            self.logs.remove(0);
            assert(self.logs@ =~= l.drop_first());
        }
    }

    /// Moves to the next tab, wrapping round.
    pub fn next_tab(&mut self)
        requires
            old(self).wf(),
        ensures
            final(self).wf(),
            final(self).tab_index == (old(self).tab_index + 1) % (old(self).tabs@.len() as int),
            final(self).tabs == old(self).tabs,
            final(self).logs == old(self).logs,
    {
        let n = self.tabs.len();
        self.tab_index = (self.tab_index + 1) % n;
    }

    /// Moves to the previous tab, wrapping round.
    pub fn previous_tab(&mut self)
        requires
            old(self).wf(),
        ensures
            final(self).wf(),
            final(self).tab_index == if old(self).tab_index > 0 {
                old(self).tab_index - 1
            } else {
                old(self).tabs@.len() - 1
            },
            final(self).tabs == old(self).tabs,
            final(self).logs == old(self).logs,
    {
        if self.tab_index > 0 {
            self.tab_index = self.tab_index - 1;
        } else {
            self.tab_index = self.tabs.len() - 1;
        }
    }

    /// Starts or stops the bot, and logs it.
    pub fn toggle_bot(&mut self)
        requires
            old(self).wf(),
        ensures
            final(self).wf(),
            final(self).is_running == !old(self).is_running,
            final(self).status@ == if final(self).is_running { "Running"@ } else { "Stopped"@ },
            final(self).logs@.len() >= 1,
            final(self).logs@.last()@ == if final(self).is_running { "Bot Started"@ } else { "Bot Stopped"@ },
            final(self).tab_index == old(self).tab_index,
            final(self).tabs == old(self).tabs,
    {
        self.is_running = !self.is_running;
        if self.is_running {
            self.status = String::from_str("Running");
            self.add_log(String::from_str("Bot Started"));
        } else {
            self.status = String::from_str("Stopped");
            self.add_log(String::from_str("Bot Stopped"));
        }
    }
}

} // verus!

use vstd::prelude::*;

verus! {

/// Account and channel the automation acts for.
#[derive(Debug, Clone)]
pub struct SystemConfig {
    pub user_token: String,
    /// Cooldown the pacing estimator starts from.
    pub user_cooldown_ms: u64,
    pub guild_id: u64,
    pub channel_id: u64,
    pub debug: bool,
}

#[derive(Debug, Clone)]
pub struct CaptchaConfig {
    pub ocr_api_key: String,
}

#[derive(Debug, Clone)]
pub struct NetworkConfig {
    pub user_agent: Option<String>,
    pub proxy_ip: Option<String>,
    pub proxy_port: Option<u16>,
    pub proxy_auth_user: Option<String>,
    pub proxy_auth_password: Option<String>,
}

/// Which maintenance actions run, and how the optimizer may act on its own.
#[derive(Debug, Clone, Copy, PartialEq, Eq, Structural)]
pub struct AutomationConfig {
    /// Minutes between boost purchases; 0 turns them off.
    pub boosts_length: u64,
    pub more_fish: bool,
    pub more_treasures: bool,
    pub fish_on_exit: bool,
    pub auto_daily: bool,
    pub auto_buy_baits: bool,
    pub auto_sell: bool,
    pub auto_update_inventory: bool,
    /// Lets the orchestrator place risk-bridge stakes by itself.
    pub danger_mode: bool,
}

#[derive(Debug, Clone, Copy, PartialEq, Eq, Structural)]
pub struct MenuConfig {
    pub compact_mode: bool,
    pub refresh_rate_ms: u64,
}

#[derive(Debug, Clone)]
pub struct CosmeticConfig {
    pub pet: Option<String>,
    pub bait: Option<String>,
    pub biome: Option<String>,
}

#[derive(Debug, Clone)]
pub struct Config {
    pub system: SystemConfig,
    pub captcha: CaptchaConfig,
    pub network: NetworkConfig,
    pub automation: AutomationConfig,
    pub menu: MenuConfig,
    pub cosmetic: CosmeticConfig,
}

impl Default for Config {
    fn default() -> (r: Config)
        ensures
            r.system.user_cooldown_ms == 3500,
            r.automation.boosts_length == 5,
            r.automation.auto_daily,
            r.automation.auto_sell,
            !r.automation.danger_mode,
    {
        Config::default_config()
    }
}

impl Config {
    /// The settings a fresh installation starts with.
    pub fn default_config() -> (r: Config)
        ensures
            r.system.user_cooldown_ms == 3500,
            r.automation.boosts_length == 5,
            r.automation.auto_daily,
            r.automation.auto_sell,
            !r.automation.danger_mode,
    {
        Config {
            system: SystemConfig {
                user_token: String::new(),
                user_cooldown_ms: 3500,
                guild_id: 0,
                channel_id: 0,
                debug: false,
            },
            captcha: CaptchaConfig { ocr_api_key: String::new() },
            network: NetworkConfig {
                user_agent: None,
                proxy_ip: None,
                proxy_port: None,
                proxy_auth_user: None,
                proxy_auth_password: None,
            },
            automation: AutomationConfig {
                boosts_length: 5,
                more_fish: true,
                more_treasures: false,
                fish_on_exit: true,
                auto_daily: true,
                auto_buy_baits: false,
                auto_sell: true,
                auto_update_inventory: false,
                danger_mode: false,
            },
            menu: MenuConfig { compact_mode: false, refresh_rate_ms: 300 },
            cosmetic: CosmeticConfig {
                pet: Some(String::from_str("dolphin")),
                bait: Some(String::from_str("fish")),
                biome: Some(String::from_str("ocean")),
            },
        }
    }
}

} // verus!

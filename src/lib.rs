//! Automation core for a chat-hosted fishing game: the resumable event
//! protocol client, the adaptive pacing estimator, the maintenance task
//! scheduler, the economic optimizer and the orchestrating state machine.
//!
//! All durations are integer milliseconds, all fractional bonuses and rates
//! per-mille, and gold rates milli-gold per second.
//!
//! - `gateway`: the protocol client as a transition function over events.
//! - `cooldown`: the pacing estimator.
//! - `scheduler`, `commands`: maintenance tasks and their command options.
//! - `optimizer`, `mechanics`, `game_data`: income rates, ranking, tables.
//! - `orchestrator`: one decision cycle of the bot.
//! - `parser`, `shop`, `profile`, `text`: the grammars of game messages.
//! - `captcha`, `dashboard`, `config`, `types`: state shared with the shell.
pub mod random;
pub mod cooldown;
pub mod game_data;
pub mod optimizer;
pub mod text;
pub mod types;
pub mod gateway;
pub mod config;
pub mod scheduler;
pub mod parser;
pub mod orchestrator;
pub mod mechanics;
pub mod commands;
pub mod profile;
pub mod captcha;
pub mod dashboard;
pub mod shop;
pub mod explorer;

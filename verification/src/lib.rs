//! Sports statistics library: a canonical, strongly-typed domain model fed by
//! loosely-typed JSON from two upstream providers, with defensive field
//! extraction, per-endpoint normalizers, provider status mapping and an
//! ordered endpoint-fallback resolver.

pub mod config;
pub mod error;
pub mod json;
pub mod mlb;
pub mod nba;
pub mod resolver;
pub mod strutil;
pub mod types;
pub mod utils;

pub use config::Config;
pub use error::SportError;
pub use mlb::{Game as MlbGame, GameState, GameTeam, Team as MlbTeam, Venue};
pub use nba::{Game as NbaGame, Team as NbaTeam};
pub use types::{GameId, InningsPitched, Score, TeamId};
pub use utils::{format_score, parse_iso8601_date, truncate_string};

use vstd::prelude::*;

verus! {

/// A player identity found in a regional directory.
#[derive(Debug, Clone)]
pub struct Player {
    pub nickname: String,
    pub account_id: u32,
}

/// A directory search response.
#[derive(Debug)]
pub struct UserSearch {
    pub status: String,
    pub data: Vec<Player>,
}

#[derive(Debug, Clone)]
pub struct EmblemURL {
    pub portal: String,
}

#[derive(Debug, Clone)]
pub struct Emblems {
    pub x64: EmblemURL,
}

/// The clan that a player belongs to.
#[derive(Debug)]
pub struct PlayerClanInfo {
    pub members_count: u32,
    pub name: String,
    pub color: String,
    pub created_at: u64,
    pub tag: String,
    pub emblems: Emblems,
    pub clan_id: u32,
}

/// A player's clan membership.
#[derive(Debug)]
pub struct PlayerAccountInfo {
    pub clan: PlayerClanInfo,
    pub account_id: u32,
    pub role_i18n: String,
    pub joined_at: u64,
    pub role: String,
    pub account_name: String,
}

/// A clan-membership response: its map from account id (as text) to
/// membership, as a list of entries with distinct keys.
#[derive(Debug)]
pub struct ClanInfoResponse {
    pub status: String,
    pub data: Vec<(String, Option<PlayerAccountInfo>)>,
}

impl ClanInfoResponse {
    /// Its keys are distinct, as those of the JSON map it holds.
    pub open spec fn wf(&self) -> bool {
        crate::resolve::keys_distinct(self.data@)
    }
}

/// Lifetime statistics of a player. `tier` and `win_rate` are in hundredths.
#[derive(Debug, Clone)]
pub struct OverallData {
    pub server: String,
    pub id: u32,
    pub battles: u32,
    pub wn8: u32,
    pub tier: i64,
    pub win_rate: i64,
    pub dpg: u32,
}

/// Totals of one window of recent play. `tier` and `winrate` are in hundredths.
#[derive(Debug, Clone, Copy)]
pub struct OverallStats {
    pub battles: u32,
    pub wn8: u32,
    pub tier: i64,
    pub winrate: i64,
    pub dpg: u32,
}

/// One tank's row in a window. `kpg` and `win_rate` are in hundredths.
#[derive(Debug, Clone)]
pub struct TankStats {
    pub id: u32,
    pub name: String,
    pub tier: u32,
    pub battles: u32,
    pub wn8: u32,
    pub dpg: u32,
    pub kpg: i64,
    pub win_rate: i64,
}

/// One window of recent play: its totals and its per-tank rows.
#[derive(Debug, Clone)]
pub struct TimeFrame {
    pub overall: OverallStats,
    pub tank_stats: Vec<TankStats>,
}

/// The seven windows of recent play.
#[derive(Debug, Clone)]
pub struct RecentsData {
    pub recent24hr: TimeFrame,
    pub recent3days: TimeFrame,
    pub recent7days: TimeFrame,
    pub recent30days: TimeFrame,
    pub recent60days: TimeFrame,
    pub recent1000battles: TimeFrame,
    pub recent100battles: TimeFrame,
}

} // verus!

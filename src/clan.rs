use vstd::prelude::*;
use crate::player::Emblems;

verus! {

/// A clan search response; `None` when the upstream gave no list.
#[derive(Debug)]
pub struct ClanIdResponse {
    pub data: Option<Vec<ClanId>>,
}

#[derive(Debug, Clone, Copy)]
pub struct ClanId {
    pub clan_id: u32,
}

/// A clan's profile. The skill ratings and win rates are in hundredths.
#[derive(Debug, Clone)]
pub struct TomatoClan {
    pub name: String,
    pub tag: String,
    pub color: String,
    pub motto: String,
    pub emblems: Emblems,
    pub overall_wn8: i64,
    pub overall_winrate: i64,
    pub recent_wn8: i64,
    pub recent_winrate: i64,
    pub members_count: u32,
}

/// A global-map response: clan id (as text) to record, as entries with
/// distinct keys.
#[derive(Debug)]
pub struct GlobalResponse {
    pub data: Vec<(String, GlobalClanData)>,
}

impl GlobalResponse {
    /// Its keys are distinct, as those of the JSON map it holds.
    pub open spec fn wf(&self) -> bool {
        crate::resolve::keys_distinct(self.data@)
    }
}

#[derive(Debug, Clone, Copy)]
pub struct GlobalClanData {
    pub statistics: GlobalStatistics,
}

#[derive(Debug, Clone, Copy)]
pub struct GlobalStatistics {
    pub battles_10_level: u32,
    pub wins_10_level: u32,
    pub provinces_count: u32,
}

/// A clan-rating response: clan id (as text) to record, as entries with
/// distinct keys.
#[derive(Debug)]
pub struct RatingResponse {
    pub data: Vec<(String, RatingClanData)>,
}

impl RatingResponse {
    /// Its keys are distinct, as those of the JSON map it holds.
    pub open spec fn wf(&self) -> bool {
        crate::resolve::keys_distinct(self.data@)
    }
}

#[derive(Debug, Clone, Copy)]
pub struct RatingClanData {
    pub efficiency: RatingValue,
    pub battles_count_avg_daily: RatingValue,
    pub global_rating_weighted_avg: RatingValue,
    pub fb_elo_rating_10: RatingValue,
    pub fb_elo_rating_8: RatingValue,
    pub fb_elo_rating_6: RatingValue,
    pub gm_elo_rating_10: RatingValue,
}

/// A rating value, in hundredths.
#[derive(Debug, Clone, Copy)]
pub struct RatingValue {
    pub value: i64,
}

/// The three clan blocks; each is absent when its upstream failed.
#[derive(Debug, Clone)]
pub struct ClanData {
    pub rating: Option<RatingClanData>,
    pub global: Option<GlobalClanData>,
    pub tomato: Option<TomatoClan>,
}

} // verus!

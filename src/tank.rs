use vstd::prelude::*;

verus! {

/// The status block of a marks or mastery response.
#[derive(Debug)]
pub struct MetaData {
    pub status: String,
}

/// A marks-of-excellence or mastery response.
#[derive(Debug)]
pub struct MarkResponse {
    pub meta: MetaData,
    pub data: Vec<Tank>,
}

#[derive(Debug)]
pub struct Images {
    pub big_icon: String,
}

impl Clone for Images {
    fn clone(&self) -> (r: Images)
        ensures
            r == *self,
    {
        Images { big_icon: self.big_icon.clone() }
    }
}

/// A tank with its marks-of-excellence and mastery thresholds.
#[derive(Debug)]
pub struct Tank {
    pub id: u32,
    pub nation: String,
    pub is_prem: bool,
    pub class: String,
    pub name: String,
    pub tier: u32,
    pub pct_65: u32,
    pub pct_85: u32,
    pub pct_95: u32,
    pub pct_100: u32,
    pub first: u32,
    pub second: u32,
    pub third: u32,
    pub ace: u32,
    pub images: Images,
}

/// Economics of one tank. Earnings and profits are signed.
#[derive(Debug, Clone, Copy)]
pub struct TankEconomics {
    pub id: u32,
    pub battles: u32,
    pub avg_earnings: i32,
    pub avg_profit: i32,
    pub avg_ammo_cost: u32,
    pub cost_per_shot: u32,
    pub earnings_per_minute: u32,
    pub profit_per_minute: i32,
}

#[derive(Debug)]
pub struct TankEconomicsResponse {
    pub data: Vec<TankEconomics>,
}

/// Server-wide statistics of one tank over a recent window. `winrate` is in
/// hundredths.
#[derive(Debug, Clone)]
pub struct RecentTankStats {
    pub tank_id: u32,
    pub name: String,
    pub nation: String,
    pub tier: u32,
    pub class: String,
    pub battles: u32,
    pub winrate: i64,
    pub damage: u32,
    pub spotting_assist: u32,
    pub tracking_assist: u32,
    pub wn8: u32,
    pub is_prem: bool,
}

} // verus!

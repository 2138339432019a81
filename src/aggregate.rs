use vstd::prelude::*;
use crate::clan::ClanData;
use crate::period::Period;
use crate::player::{OverallData, Player, PlayerAccountInfo, RecentsData, TimeFrame};
use crate::region::Region;

verus! {

/// Why an upstream call gave no value.
#[derive(Debug, PartialEq, Eq, Structural, Clone, Copy)]
pub enum FetchFailure {
    /// The upstream could not be reached or timed out.
    Transport,
    /// The response did not decode.
    Decode,
}

/// Everything known about one player during one command.
#[derive(Debug)]
pub struct PlayerData {
    pub player_clan: Option<PlayerAccountInfo>,
    pub clan: Option<ClanData>,
    pub player: Player,
    pub region: Region,
    pub overall: Option<OverallData>,
    pub recents: Option<RecentsData>,
    pub is_in_clan: bool,
}

/// The window of `r` that a period selects.
pub open spec fn window_of(r: RecentsData, p: Period) -> TimeFrame {
    match p {
        Period::R24HR => r.recent24hr,
        Period::R3DAYS => r.recent3days,
        Period::R7DAYS => r.recent7days,
        Period::R30DAYS => r.recent30days,
        Period::R60DAYS => r.recent60days,
        Period::R1000BATTLES => r.recent1000battles,
        Period::R100BATTLES => r.recent100battles,
    }
}

/// A field after the fast wave: what the upstream returned, or nothing on failure.
pub open spec fn first_wave_value<T>(r: Result<Option<T>, FetchFailure>) -> Option<T> {
    match r {
        Ok(v) => v,
        Err(_) => None,
    }
}

/// A field after the authoritative wave: replaced only by a value that came back.
pub open spec fn second_wave_value<T>(old: Option<T>, r: Result<Option<T>, FetchFailure>) -> Option<T> {
    match r {
        Ok(Some(v)) => Some(v),
        _ => old,
    }
}

/// The aggregate after the fast wave.
pub open spec fn after_first_wave(
    d: PlayerData,
    overall: Result<Option<OverallData>, FetchFailure>,
    recents: Result<Option<RecentsData>, FetchFailure>,
    clan: Result<Option<PlayerAccountInfo>, FetchFailure>,
) -> PlayerData {
    PlayerData {
        overall: first_wave_value(overall),
        recents: first_wave_value(recents),
        player_clan: first_wave_value(clan),
        is_in_clan: first_wave_value(clan) is Some,
        ..d
    }
}

/// The clan aggregate after the authoritative wave.
pub open spec fn clan_after(old: Option<ClanData>, r: Option<ClanData>) -> Option<ClanData> {
    match r {
        Some(c) => Some(c),
        None => old,
    }
}

/// The aggregate after the authoritative wave.
pub open spec fn after_second_wave(
    d: PlayerData,
    overall: Result<Option<OverallData>, FetchFailure>,
    recents: Result<Option<RecentsData>, FetchFailure>,
    clan: Option<ClanData>,
) -> PlayerData {
    PlayerData {
        overall: second_wave_value(d.overall, overall),
        recents: second_wave_value(d.recents, recents),
        clan: clan_after(d.clan, clan),
        ..d
    }
}

impl PlayerData {
    /// A fresh aggregate for a resolved player, with nothing fetched yet.
    pub fn new(player: Player, region: Region) -> (r: PlayerData)
        ensures
            r.player == player,
            r.region == region,
            r.overall is None,
            r.recents is None,
            r.player_clan is None,
            r.clan is None,
            !r.is_in_clan,
    {
        PlayerData {
            player_clan: None,
            clan: None,
            player,
            region,
            overall: None,
            recents: None,
            is_in_clan: false,
        }
    }

    /// Whether the membership flag agrees with the membership record.
    pub open spec fn wf(&self) -> bool {
        self.is_in_clan ==> self.player_clan is Some
    }

    pub fn get_period_data(&self, period: Period) -> (r: Option<&TimeFrame>)
        ensures
            self.recents is None ==> r is None,
            self.recents matches Some(rec) ==> r matches Some(t) && *t == window_of(rec, period),
    {
        match &self.recents {
            None => None,
            Some(recents) => match period {
                Period::R24HR => Some(&recents.recent24hr),
                Period::R3DAYS => Some(&recents.recent3days),
                Period::R7DAYS => Some(&recents.recent7days),
                Period::R30DAYS => Some(&recents.recent30days),
                Period::R60DAYS => Some(&recents.recent60days),
                Period::R1000BATTLES => Some(&recents.recent1000battles),
                Period::R100BATTLES => Some(&recents.recent100battles),
            },
        }
    }

    /// Records the fast wave: each result that came back is stored, each
    /// failure leaves its field absent.
    pub fn record_first_wave(
        &mut self,
        overall: Result<Option<OverallData>, FetchFailure>,
        recents: Result<Option<RecentsData>, FetchFailure>,
        clan: Result<Option<PlayerAccountInfo>, FetchFailure>,
    )
        ensures
            *final(self) == after_first_wave(*old(self), overall, recents, clan),
            final(self).wf(),
    {
        self.overall = match overall {
            Ok(v) => v,
            Err(_) => None,
        };
        self.recents = match recents {
            Ok(v) => v,
            Err(_) => None,
        };
        self.player_clan = match clan {
            Ok(v) => v,
            Err(_) => None,
        };
        self.is_in_clan = self.player_clan.is_some();
    }

    /// Records the authoritative wave: a value that came back replaces the
    /// fast one, a failure or an empty answer keeps it.
    pub fn record_second_wave(
        &mut self,
        overall: Result<Option<OverallData>, FetchFailure>,
        recents: Result<Option<RecentsData>, FetchFailure>,
        clan: Option<ClanData>,
    )
        requires
            old(self).wf(),
        ensures
            *final(self) == after_second_wave(*old(self), overall, recents, clan),
            final(self).wf(),
    {
        match overall {
            Ok(Some(v)) => {
                self.overall = Some(v);
            },
            _ => {},
        }
        match recents {
            Ok(Some(v)) => {
                self.recents = Some(v);
            },
            _ => {},
        }
        match clan {
            Some(c) => {
                self.clan = Some(c);
            },
            None => {},
        }
    }

    /// The clan whose full aggregate the authoritative wave fetches, if the
    /// player is in one.
    pub fn clan_to_fetch(&self) -> (r: Option<u32>)
        ensures
            self.player_clan is None ==> r is None,
            self.player_clan matches Some(c) ==> r == Some(c.clan.clan_id),
    {
        match &self.player_clan {
            Some(c) => Some(c.clan.clan_id),
            None => None,
        }
    }
}

/// A value that the fast wave stored survives an authoritative failure, and
/// a value that the authoritative wave brings replaces whatever the fast wave
/// left; the same holds of the recent statistics.
pub proof fn lemma_two_wave_overwrite(
    d: PlayerData,
    v1: OverallData,
    v2: OverallData,
    w1: RecentsData,
    w2: RecentsData,
    e: FetchFailure,
    c1: Result<Option<PlayerAccountInfo>, FetchFailure>,
    c2: Option<ClanData>,
)
    ensures
        after_second_wave(after_first_wave(d, Ok(Some(v1)), Ok(Some(w1)), c1), Err(e), Err(e), c2).overall
            == Some(v1),
        after_second_wave(after_first_wave(d, Ok(Some(v1)), Ok(Some(w1)), c1), Err(e), Err(e), c2).recents
            == Some(w1),
        after_second_wave(after_first_wave(d, Err(e), Err(e), c1), Ok(Some(v2)), Ok(Some(w2)), c2).overall
            == Some(v2),
        after_second_wave(after_first_wave(d, Err(e), Err(e), c1), Ok(Some(v2)), Ok(Some(w2)), c2).recents
            == Some(w2),
        after_second_wave(after_first_wave(d, Ok(Some(v1)), Ok(Some(w1)), c1), Ok(Some(v2)), Ok(Some(w2)), c2).overall
            == Some(v2),
{
}

} // verus!

use vstd::prelude::*;
use crate::card::owned;
use crate::region::{extension_of, Region};
use crate::text::{decimal, push_decimal};

verus! {

/// The query that asks an upstream for its cached, possibly stale answer.
pub open spec fn cache_suffix(cached: bool) -> Seq<char> {
    if cached {
        "?cache=true"@
    } else {
        Seq::empty()
    }
}

pub open spec fn wot_host(region: Region) -> Seq<char> {
    "https://api.worldoftanks."@ + extension_of(region)
}

/// The directory search for a player name.
pub fn player_search_url(region: Region, name: &str) -> (r: String)
    ensures
        r@ == wot_host(region) + "/wot/account/list/?language=en&application_id=42d1c07ba19a98fcbfdf5f3492bff972&search="@ + name@,
{
    let mut s = owned("https://api.worldoftanks.");
    s.append(region.extension());
    s.append("/wot/account/list/?language=en&application_id=42d1c07ba19a98fcbfdf5f3492bff972&search=");
    s.append(name);
    s
}

/// The clan membership of an account.
pub fn clan_membership_url(region: Region, account_id: u32) -> (r: String)
    ensures
        r@ == wot_host(region) + "/wot/clans/accountinfo/?application_id=20e1e0e4254d98635796fc71f2dfe741&account_id="@ + decimal(account_id as nat),
{
    let mut s = owned("https://api.worldoftanks.");
    s.append(region.extension());
    s.append("/wot/clans/accountinfo/?application_id=20e1e0e4254d98635796fc71f2dfe741&account_id=");
    push_decimal(&mut s, account_id as u128);
    s
}

/// The clan search for a tag.
pub fn clan_search_url(region: Region, clan: &str) -> (r: String)
    ensures
        r@ == wot_host(region) + "/wot/clans/list/?application_id=20e1e0e4254d98635796fc71f2dfe741&search="@ + clan@,
{
    let mut s = owned("https://api.worldoftanks.");
    s.append(region.extension());
    s.append("/wot/clans/list/?application_id=20e1e0e4254d98635796fc71f2dfe741&search=");
    s.append(clan);
    s
}

/// The global-map record of a clan.
pub fn global_map_url(region: Region, clan_id: u32) -> (r: String)
    ensures
        r@ == wot_host(region) + "/wot/globalmap/claninfo/?application_id=20e1e0e4254d98635796fc71f2dfe741&clan_id="@ + decimal(clan_id as nat),
{
    let mut s = owned("https://api.worldoftanks.");
    s.append(region.extension());
    s.append("/wot/globalmap/claninfo/?application_id=20e1e0e4254d98635796fc71f2dfe741&clan_id=");
    push_decimal(&mut s, clan_id as u128);
    s
}

/// The rating record of a clan.
pub fn clan_rating_url(region: Region, clan_id: u32) -> (r: String)
    ensures
        r@ == wot_host(region) + "/wot/clanratings/clans/?application_id=20e1e0e4254d98635796fc71f2dfe741&clan_id="@ + decimal(clan_id as nat),
{
    let mut s = owned("https://api.worldoftanks.");
    s.append(region.extension());
    s.append("/wot/clanratings/clans/?application_id=20e1e0e4254d98635796fc71f2dfe741&clan_id=");
    push_decimal(&mut s, clan_id as u128);
    s
}

/// The profile of a clan.
pub fn tomato_clan_url(region: Region, clan_id: u32) -> (r: String)
    ensures
        r@ == "https://api.tomato.gg/api/clan/"@ + extension_of(region) + "/"@ + decimal(clan_id as nat),
{
    let mut s = owned("https://api.tomato.gg/api/clan/");
    s.append(region.extension());
    s.append("/");
    push_decimal(&mut s, clan_id as u128);
    s
}

/// The overall statistics of an account.
pub fn overall_url(region: Region, account_id: u32, cached: bool) -> (r: String)
    ensures
        r@ == "https://api.tomato.gg/dev/api-v2/overall/"@ + extension_of(region) + "/"@ + decimal(account_id as nat) + cache_suffix(cached),
{
    let mut s = owned("https://api.tomato.gg/dev/api-v2/overall/");
    s.append(region.extension());
    s.append("/");
    push_decimal(&mut s, account_id as u128);
    if cached {
        s.append("?cache=true");
    }
    proof {
        if !cached {
            assert(s@ =~= s@ + cache_suffix(cached));
        }
    }
    s
}

/// The recent statistics of an account.
pub fn recents_url(region: Region, account_id: u32, cached: bool) -> (r: String)
    ensures
        r@ == "https://api.tomato.gg/dev/api-v2/recents/"@ + extension_of(region) + "/"@ + decimal(account_id as nat) + cache_suffix(cached),
{
    let mut s = owned("https://api.tomato.gg/dev/api-v2/recents/");
    s.append(region.extension());
    s.append("/");
    push_decimal(&mut s, account_id as u128);
    if cached {
        s.append("?cache=true");
    }
    proof {
        if !cached {
            assert(s@ =~= s@ + cache_suffix(cached));
        }
    }
    s
}

/// The marks-of-excellence list of a region.
pub fn moe_url(region: Region) -> (r: String)
    ensures
        r@ == "https://api.tomato.gg/dev/api-v2/moe/"@ + extension_of(region),
{
    let mut s = owned("https://api.tomato.gg/dev/api-v2/moe/");
    s.append(region.extension());
    s
}

/// The mastery list of a region.
pub fn mastery_url(region: Region) -> (r: String)
    ensures
        r@ == "https://api.tomato.gg/dev/api-v2/mastery/"@ + extension_of(region),
{
    let mut s = owned("https://api.tomato.gg/dev/api-v2/mastery/");
    s.append(region.extension());
    s
}

/// The server-wide recent statistics of a region's tanks.
pub fn recent_tank_stats_url(region: Region) -> (r: String)
    ensures
        r@ == "https://api.tomato.gg/dev/api-v2/all-tanks-server-stats-wr-range/"@ + extension_of(region) + "/0/100?cache=true"@,
{
    let mut s = owned("https://api.tomato.gg/dev/api-v2/all-tanks-server-stats-wr-range/");
    s.append(region.extension());
    s.append("/0/100?cache=true");
    s
}

/// The global economics list.
pub fn economics_url() -> (r: String)
    ensures
        r@ == "https://api.tomato.gg/dev/api-v2/tank-economics"@,
{
    owned("https://api.tomato.gg/dev/api-v2/tank-economics")
}

} // verus!

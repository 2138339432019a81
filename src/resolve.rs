use vstd::prelude::*;
use crate::aggregate::{first_wave_value, FetchFailure};
use crate::clan::ClanIdResponse;
use crate::player::{ClanInfoResponse, Player, PlayerAccountInfo, UserSearch};
use crate::region::Region;
use crate::text::{decimal, decimal_text};

verus! {

/// The match of a directory search: its first record, if any.
pub fn first_player(search: UserSearch) -> (r: Option<Player>)
    ensures
        search.data@.len() == 0 ==> r is None,
        search.data@.len() > 0 ==> r == Some(search.data@[0]),
{
    let mut data = search.data;
    if data.len() == 0 {
        None
    } else {
        Some(data.remove(0))
    }
}

/// The player found by a lookup in one given region: a failed lookup finds
/// no one.
pub fn player_in_region(lookup: Result<Option<Player>, FetchFailure>) -> (r: Option<Player>)
    ensures
        r == first_wave_value(lookup),
{
    match lookup {
        Ok(p) => p,
        Err(_) => None,
    }
}

/// The region and player found by lookups in all three regions: the first
/// region, in the order NA, EU, ASIA, whose lookup found a player.
pub open spec fn chosen_region(
    na: Result<Option<Player>, FetchFailure>,
    eu: Result<Option<Player>, FetchFailure>,
    asia: Result<Option<Player>, FetchFailure>,
) -> Option<(Region, Player)> {
    if first_wave_value(na) is Some {
        Some((Region::NA, first_wave_value(na)->0))
    } else if first_wave_value(eu) is Some {
        Some((Region::EU, first_wave_value(eu)->0))
    } else if first_wave_value(asia) is Some {
        Some((Region::ASIA, first_wave_value(asia)->0))
    } else {
        None
    }
}

pub fn choose_region(
    na: Result<Option<Player>, FetchFailure>,
    eu: Result<Option<Player>, FetchFailure>,
    asia: Result<Option<Player>, FetchFailure>,
) -> (r: Option<(Region, Player)>)
    ensures
        r == chosen_region(na, eu, asia),
        first_wave_value(na) is Some ==> r.unwrap().0 == Region::NA,
        first_wave_value(na) is None && first_wave_value(eu) is Some ==> r.unwrap().0 == Region::EU,
        first_wave_value(na) is None && first_wave_value(eu) is None && first_wave_value(asia) is Some
            ==> r.unwrap().0 == Region::ASIA,
        first_wave_value(na) is None && first_wave_value(eu) is None && first_wave_value(asia) is None
            ==> r is None,
{
    if let Ok(Some(p)) = na {
        return Some((Region::NA, p));
    }
    if let Ok(Some(p)) = eu {
        return Some((Region::EU, p));
    }
    if let Ok(Some(p)) = asia {
        return Some((Region::ASIA, p));
    }
    None
}


/// Whether no two entries share a key, as in the upstream's JSON maps.
pub open spec fn keys_distinct<T>(entries: Seq<(String, T)>) -> bool {
    forall|i: int, j: int|
        0 <= i < entries.len() && 0 <= j < entries.len() && i != j ==> (#[trigger] entries[i]).0@
            != (#[trigger] entries[j]).0@
}

/// The value stored under the decimal text of `id` in a keyed response.
pub fn take_keyed<T>(entries: Vec<(String, T)>, id: u32) -> (r: Option<T>)
    ensures
        (forall|i: int| 0 <= i < entries@.len() ==> (#[trigger] entries@[i]).0@ != decimal(id as nat))
            ==> r is None,
        forall|i: int|
            0 <= i < entries@.len() && (#[trigger] entries@[i]).0@ == decimal(id as nat) && (forall|
                j: int,
            | 0 <= j < i ==> (#[trigger] entries@[j]).0@ != decimal(id as nat)) ==> r == Some(
                entries@[i].1,
            ),
        keys_distinct(entries@) ==> forall|i: int| 0 <= i < entries@.len() && (#[trigger] entries@[i]).0@ == decimal(id as nat) ==> r == Some(entries@[i].1),
{
    let key = decimal_text(id as u128);
    let ghost orig = entries@;
    let mut rest = entries;
    let mut i: usize = 0;
    while i < rest.len()
        invariant
            rest@ == orig,
            orig == entries@,
            i <= rest@.len(),
            key@ == decimal(id as nat),
            forall|j: int| 0 <= j < i ==> (#[trigger] rest@[j]).0@ != decimal(id as nat),
        decreases rest@.len() - i,
    {
        if rest[i].0 == key {
            assert(orig[i as int].0@ == decimal(id as nat));
            assert(keys_distinct(orig) ==> forall|k: int| 0 <= k < orig.len() && (#[trigger] orig[k]).0@ == decimal(id as nat) ==> k == i);
            let (_, v) = rest.remove(i);
            assert(v == orig[i as int].1);
            assert forall|k: int|
                0 <= k < orig.len() && (#[trigger] orig[k]).0@ == decimal(id as nat) && (forall|j: int|
                    0 <= j < k ==> (#[trigger] orig[j]).0@ != decimal(id as nat)) implies k == i by {
                if k > i {
                    assert(orig[i as int].0@ != decimal(id as nat));
                }
            }
            return Some(v);
        }
        i = i + 1;
    }
    None
}

/// The clan id of a clan search: its first record, if any.
pub fn first_clan_id(resp: &ClanIdResponse) -> (r: Option<u32>)
    ensures
        resp.data is None ==> r is None,
        resp.data matches Some(d) ==> (d@.len() == 0 ==> r is None) && (d@.len() > 0 ==> r == Some(
            d@[0].clan_id,
        )),
{
    match &resp.data {
        None => None,
        Some(d) => {
            if d.len() == 0 {
                None
            } else {
                Some(d[0].clan_id)
            }
        },
    }
}

/// The clan membership of an account in a membership response; an account
/// missing from the response is in no clan.
pub fn membership_of(resp: ClanInfoResponse, account_id: u32) -> (r: Option<PlayerAccountInfo>)
    ensures
        (forall|i: int| 0 <= i < resp.data@.len() ==> (#[trigger] resp.data@[i]).0@ != decimal(account_id as nat)) ==> r is None,
        forall|i: int| 0 <= i < resp.data@.len() && (#[trigger] resp.data@[i]).0@ == decimal(account_id as nat) && (forall|j: int| 0 <= j < i ==> (#[trigger] resp.data@[j]).0@ != decimal(account_id as nat)) ==> r == resp.data@[i].1,
        resp.wf() ==> forall|i: int| 0 <= i < resp.data@.len() && (#[trigger] resp.data@[i]).0@ == decimal(account_id as nat) ==> r == resp.data@[i].1,
{
    match take_keyed(resp.data, account_id) {
        Some(m) => m,
        None => None,
    }
}

/// The reply when no directory holds the name: with a region given, or
/// after searching all three.
pub fn no_player_message(region_given: bool) -> (r: &'static str)
    ensures
        region_given ==> r@ == "No player found with that name"@,
        !region_given ==> r@ == "No Player found with that name"@,
{
    if region_given {
        "No player found with that name"
    } else {
        "No Player found with that name"
    }
}

/// The reply when the clan search finds nothing.
pub fn no_clan_message() -> (r: &'static str)
    ensures
        r@ == "Couldn't find a clan with that name"@,
{
    "Couldn't find a clan with that name"
}

} // verus!

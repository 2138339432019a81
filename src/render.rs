use vstd::prelude::*;
use crate::aggregate::{window_of, PlayerData};
use crate::card::{field_is, footer_icon, footer_text, owned, Card, CardField, CardFooter};
use crate::period::{nice_name_of, Period};
use crate::player::{OverallStats, TankStats};
use crate::ranking::{is_top_ranking, top_tanks, TOP_TANKS};
use crate::rating::{get_short_position, get_wn8_color, short_role, wn8_color};
use crate::region::name_of;
use crate::text::{decimal, hundredths_text, push_decimal, push_hundredths};

verus! {

/// A period card cannot be drawn.
#[derive(Debug, PartialEq, Eq, Structural, Clone, Copy)]
pub enum CreatePeriodEmbedError {
    MissingRecentsError,
}

/// The main player card cannot be drawn.
#[derive(Debug, PartialEq, Eq, Structural, Clone, Copy)]
pub enum CreateMainStatEmbedError {
    MissingRecentsError,
    MissingOverallError,
}

impl CreatePeriodEmbedError {
    pub fn message(&self) -> (r: &'static str)
        ensures
            r@ == "Missing Required Recents Data"@,
    {
        "Missing Required Recents Data"
    }
}

impl CreateMainStatEmbedError {
    pub fn message(&self) -> (r: &'static str)
        ensures
            *self == CreateMainStatEmbedError::MissingRecentsError ==> r@
                == "Missing Required Recents Data"@,
            *self == CreateMainStatEmbedError::MissingOverallError ==> r@
                == "Missing Required Overall Data"@,
    {
        match self {
            CreateMainStatEmbedError::MissingRecentsError => "Missing Required Recents Data",
            CreateMainStatEmbedError::MissingOverallError => "Missing Required Overall Data",
        }
    }
}

/// The text of a statistics pane: battles, skill rating, win rate (hundredths)
/// and average tier (hundredths).
pub open spec fn pane_text(battles: u32, wn8: u32, winrate: i64, tier: i64) -> Seq<char> {
    "Battles: `"@ + decimal(battles as nat) + "`\nWN8: `"@ + decimal(wn8 as nat) + "`\nWinRate: `"@
        + hundredths_text(winrate as int) + "%`\nAvgTier: `"@ + hundredths_text(tier as int) + "`"@
}

/// The pane text of a window's totals.
pub open spec fn totals_text(o: OverallStats) -> Seq<char> {
    pane_text(o.battles, o.wn8, o.winrate, o.tier)
}

/// The text of one tank row of a period card.
pub open spec fn tank_row_text(t: TankStats) -> Seq<char> {
    "Battles: `"@ + decimal(t.battles as nat) + "`\nWin Rate: `"@ + hundredths_text(t.win_rate as int)
        + "%`\n WN8: `"@ + decimal(t.wn8 as nat) + "`\n DPG: `"@ + decimal(t.dpg as nat) + "`"@
}

/// The title of a player's cards.
pub open spec fn stats_title(nick: Seq<char>) -> Seq<char> {
    nick + "'s Stats"@
}

/// The description of a period card.
pub open spec fn period_description(p: Period) -> Seq<char> {
    "**Last "@ + nice_name_of(p) + " Stats**"@
}

/// The profile link of the main card.
pub open spec fn profile_url(region: Seq<char>, nick: Seq<char>, id: u32) -> Seq<char> {
    "https://tomato.gg/stats/"@ + region + "/"@ + nick + "="@ + decimal(id as nat)
}

/// The description of the main card for a clan member.
pub open spec fn membership_text(role: Seq<char>, tag: Seq<char>) -> Seq<char> {
    "**"@ + short_role(role) + " at ["@ + tag + "]**"@
}

pub fn pane(battles: u32, wn8: u32, winrate: i64, tier: i64) -> (r: String)
    ensures
        r@ == pane_text(battles, wn8, winrate, tier),
{
    let mut s = owned("Battles: `");
    push_decimal(&mut s, battles as u128);
    s.append("`\nWN8: `");
    push_decimal(&mut s, wn8 as u128);
    s.append("`\nWinRate: `");
    push_hundredths(&mut s, winrate);
    s.append("%`\nAvgTier: `");
    push_hundredths(&mut s, tier);
    s.append("`");
    assert(s@ =~= pane_text(battles, wn8, winrate, tier));
    s
}

fn tank_row(t: &TankStats) -> (r: String)
    ensures
        r@ == tank_row_text(*t),
{
    let mut s = owned("Battles: `");
    push_decimal(&mut s, t.battles as u128);
    s.append("`\nWin Rate: `");
    push_hundredths(&mut s, t.win_rate);
    s.append("%`\n WN8: `");
    push_decimal(&mut s, t.wn8 as u128);
    s.append("`\n DPG: `");
    push_decimal(&mut s, t.dpg as u128);
    s.append("`");
    assert(s@ =~= tank_row_text(*t));
    s
}

fn title_for(nick: &String) -> (r: String)
    ensures
        r@ == stats_title(nick@),
{
    let s = nick.clone();
    s.concat("'s Stats")
}

/// A period card for the given window: its totals, then its rows with the
/// most battles.
pub open spec fn is_period_card(c: Card, nick: Seq<char>, p: Period, tf: crate::player::TimeFrame) -> bool {
    &&& c.title@ == stats_title(nick)
    &&& c.description matches Some(d) && d@ == period_description(p)
    &&& c.color matches Some(x) && x as int == wn8_color(tf.overall.wn8 as int)
    &&& c.url is None
    &&& c.thumbnail is None
    &&& c.footer is None
    &&& c.fields@.len() >= 1
    &&& field_is(c.fields@[0], "Totals"@, totals_text(tf.overall), true)
    &&& exists|idx: Seq<usize>|
        {
            &&& is_top_ranking(tf.tank_stats@, idx, TOP_TANKS as nat)
            &&& c.fields@.len() == idx.len() + 1
            &&& forall|k: int|
                0 <= k < idx.len() ==> field_is(
                    #[trigger] c.fields@[k + 1],
                    tf.tank_stats@[idx[k] as int].name@,
                    tank_row_text(tf.tank_stats@[idx[k] as int]),
                    true,
                )
        }
}

/// A period card over a window of six or more tanks shows exactly five tank
/// rows: the five with the most battles, most first, ties in input order.
pub proof fn lemma_period_card_top_five(c: Card, nick: Seq<char>, p: Period, tf: crate::player::TimeFrame)
    requires
        is_period_card(c, nick, p, tf),
        tf.tank_stats@.len() >= 6,
    ensures
        c.fields@.len() == 6,
        exists|idx: Seq<usize>|
            {
                &&& is_top_ranking(tf.tank_stats@, idx, TOP_TANKS as nat)
                &&& idx.len() == 5
                &&& forall|k: int|
                    0 <= k < 5 ==> field_is(
                        #[trigger] c.fields@[k + 1],
                        tf.tank_stats@[idx[k] as int].name@,
                        tank_row_text(tf.tank_stats@[idx[k] as int]),
                        true,
                    )
            },
{
}

pub fn generate_period_embed(player_data: &PlayerData, period: Period) -> (r: Result<
    Card,
    CreatePeriodEmbedError,
>)
    ensures
        player_data.recents is None ==> r == Err::<Card, _>(CreatePeriodEmbedError::MissingRecentsError),
        player_data.recents matches Some(rec) ==> r matches Ok(c) && is_period_card(
            c,
            player_data.player.nickname@,
            period,
            window_of(rec, period),
        ),
{
    let data = match player_data.get_period_data(period) {
        Some(d) => d,
        None => {
            return Err(CreatePeriodEmbedError::MissingRecentsError);
        },
    };
    let mut card = Card::titled(title_for(&player_data.player.nickname));
    let mut desc = owned("**Last ");
    desc.append(period.nice_name());
    desc.append(" Stats**");
    assert(desc@ =~= period_description(period));
    card.description = Some(desc);
    card.fields.push(
        CardField::new(
            owned("Totals"),
            pane(data.overall.battles, data.overall.wn8, data.overall.winrate, data.overall.tier),
            true,
        ),
    );
    card.color = Some(get_wn8_color(data.overall.wn8));
    proof {
        reveal_strlit("Totals");
    }
    let order = top_tanks(&data.tank_stats);
    let mut k: usize = 0;
    while k < order.len()
        invariant
            is_top_ranking(data.tank_stats@, order@, TOP_TANKS as nat),
            k <= order@.len(),
            card.fields@.len() == k + 1,
            card.title@ == stats_title(player_data.player.nickname@),
            card.description matches Some(d) && d@ == period_description(period),
            card.color matches Some(x) && x as int == wn8_color(data.overall.wn8 as int),
            card.url is None,
            card.thumbnail is None,
            card.footer is None,
            field_is(card.fields@[0], "Totals"@, totals_text(data.overall), true),
            forall|j: int|
                0 <= j < k ==> field_is(
                    #[trigger] card.fields@[j + 1],
                    data.tank_stats@[order@[j] as int].name@,
                    tank_row_text(data.tank_stats@[order@[j] as int]),
                    true,
                ),
        decreases order@.len() - k,
    {
        let t = &data.tank_stats[order[k]];
        card.fields.push(CardField::new(t.name.clone(), tank_row(t), true));
        k = k + 1;
    }
    Ok(card)
}

/// The six panes of the main card, by name and text.
pub open spec fn main_panes(d: PlayerData) -> Seq<(Seq<char>, Seq<char>)> {
    let o = d.overall->0;
    let r = d.recents->0;
    seq![
        ("**Overall**"@, pane_text(o.battles, o.wn8, o.win_rate, o.tier)),
        ("**24 Hours**"@, totals_text(r.recent24hr.overall)),
        ("**7 Days**"@, totals_text(r.recent7days.overall)),
        ("**30 Days**"@, totals_text(r.recent30days.overall)),
        ("**60 Days**"@, totals_text(r.recent60days.overall)),
        ("**1000 Battles**"@, totals_text(r.recent1000battles.overall)),
    ]
}

/// The main card of a player whose overall and recent statistics are known.
pub open spec fn is_main_card(c: Card, d: PlayerData) -> bool {
    &&& c.title@ == stats_title(d.player.nickname@)
    &&& c.url matches Some(u) && u@ == profile_url(
        name_of(d.region),
        d.player.nickname@,
        d.player.account_id,
    )
    &&& c.color matches Some(x) && x as int == wn8_color(d.overall->0.wn8 as int)
    &&& c.footer matches Some(f) && f.text@ == footer_text() && f.icon_url@ == footer_icon()
    &&& c.fields@.len() == 6
    &&& forall|k: int|
        0 <= k < 6 ==> field_is(#[trigger] c.fields@[k], main_panes(d)[k].0, main_panes(d)[k].1, true)
    &&& d.player_clan is None ==> c.thumbnail is None && c.description is None
    &&& d.player_clan matches Some(ci) ==> {
        &&& c.thumbnail matches Some(t) && t@ == ci.clan.emblems.x64.portal@
        &&& c.description matches Some(s) && s@ == membership_text(ci.role@, ci.clan.tag@)
    }
}

fn recents_field(name: &str, o: &OverallStats) -> (r: CardField)
    ensures
        field_is(r, name@, totals_text(*o), true),
{
    CardField::new(owned(name), pane(o.battles, o.wn8, o.winrate, o.tier), true)
}

pub fn generate_main_stat_embed(data: &PlayerData) -> (r: Result<Card, CreateMainStatEmbedError>)
    ensures
        data.overall is None ==> r == Err::<Card, _>(CreateMainStatEmbedError::MissingOverallError),
        data.overall is Some && data.recents is None ==> r == Err::<Card, _>(
            CreateMainStatEmbedError::MissingRecentsError,
        ),
        data.overall is Some && data.recents is Some ==> (r matches Ok(c) && is_main_card(c, *data)),
{
    let overall = match &data.overall {
        Some(o) => o,
        None => {
            return Err(CreateMainStatEmbedError::MissingOverallError);
        },
    };
    let recents = match &data.recents {
        Some(r) => r,
        None => {
            return Err(CreateMainStatEmbedError::MissingRecentsError);
        },
    };
    let mut card = Card::titled(title_for(&data.player.nickname));
    let mut url = owned("https://tomato.gg/stats/");
    url.append(data.region.name());
    url.append("/");
    url.append(data.player.nickname.as_str());
    url.append("=");
    push_decimal(&mut url, data.player.account_id as u128);
    assert(url@ =~= profile_url(name_of(data.region), data.player.nickname@, data.player.account_id));
    card.url = Some(url);
    card.fields.push(
        CardField::new(
            owned("**Overall**"),
            pane(overall.battles, overall.wn8, overall.win_rate, overall.tier),
            true,
        ),
    );
    card.fields.push(recents_field("**24 Hours**", &recents.recent24hr.overall));
    card.fields.push(recents_field("**7 Days**", &recents.recent7days.overall));
    card.fields.push(recents_field("**30 Days**", &recents.recent30days.overall));
    card.fields.push(recents_field("**60 Days**", &recents.recent60days.overall));
    card.fields.push(recents_field("**1000 Battles**", &recents.recent1000battles.overall));
    card.footer = Some(CardFooter::attribution());
    card.color = Some(get_wn8_color(overall.wn8));
    match &data.player_clan {
        Some(info) => {
            card.thumbnail = Some(info.clan.emblems.x64.portal.clone());
            let mut desc = owned("**");
            desc.append(get_short_position(info.role.as_str()));
            desc.append(" at [");
            desc.append(info.clan.tag.as_str());
            desc.append("]**");
            assert(desc@ =~= membership_text(info.role@, info.clan.tag@));
            card.description = Some(desc);
        },
        None => {},
    }
    assert(is_main_card(card, *data));
    Ok(card)
}

} // verus!

use vstd::prelude::*;
use crate::card::{field_is, owned, Card, CardField};
use crate::clan::{ClanData, GlobalStatistics, RatingClanData, TomatoClan, RatingValue};
use crate::hex::{parse_hex_color, parsed_color};
use crate::text::{
    decimal, digit_char, push_decimal, push_signed, push_tenths, round_centi, round_hundredths,
    signed_decimal, tenths_text,
};

verus! {

/// A rating value rounded to a whole number, as text.
pub open spec fn rounded_text(v: RatingValue) -> Seq<char> {
    signed_decimal(round_hundredths(v.value as int))
}

/// The global-map win rate: wins per hundred battles with one decimal, or
/// "NaN%" when there were no battles.
pub open spec fn global_wr_text(wins: u32, battles: u32) -> Seq<char> {
    if battles == 0 {
        "NaN%"@
    } else {
        let t: nat = ((2000 * wins + battles) / (2 * battles)) as nat;
        decimal(t / 10) + seq!['.', digit_char((t % 10) as int)] + "%"@
    }
}

pub open spec fn player_block_text(t: TomatoClan) -> Seq<char> {
    "Overall WN8: `"@ + signed_decimal(round_hundredths(t.overall_wn8 as int)) + "`\nOverall WR: `"@
        + tenths_text(t.overall_winrate as int) + "%`\nRecent WN8: `"@ + signed_decimal(
        round_hundredths(t.recent_wn8 as int),
    ) + "`\nRecent WR: `"@ + tenths_text(t.recent_winrate as int) + "`"@
}

/// The player block when the clan profile is missing.
pub open spec fn blank_player_block_text() -> Seq<char> {
    "Overall WN8: `0`\nOverall WR: `0.0%`\nRecent WN8: `0`\nRecent WR: `0.0`"@
}

pub open spec fn general_block_text(r: RatingClanData, members: u32) -> Seq<char> {
    "Clan Rating: `"@ + rounded_text(r.efficiency) + "`\nAvg. Daily Battles: `"@ + rounded_text(
        r.battles_count_avg_daily,
    ) + "`\nAvg. PR: `"@ + rounded_text(r.global_rating_weighted_avg) + "`\nPlayers: `"@ + decimal(
        members as nat,
    ) + "`"@
}

pub open spec fn stronghold_block_text(r: RatingClanData) -> Seq<char> {
    "SH Tier X ELO: `"@ + rounded_text(r.fb_elo_rating_10) + "`\nSH Tier VIII ELO: `"@ + rounded_text(
        r.fb_elo_rating_8,
    ) + "`\nSH Tier VI ELO: `"@ + rounded_text(r.fb_elo_rating_6) + "`"@
}

pub open spec fn global_block_text(r: RatingClanData, g: GlobalStatistics) -> Seq<char> {
    "Global Map ELO: `"@ + rounded_text(r.gm_elo_rating_10) + "`\nGlobal Map WR: `"@ + global_wr_text(
        g.wins_10_level,
        g.battles_10_level,
    ) + "`\nProvinces: `"@ + decimal(g.provinces_count as nat) + "`"@
}

pub open spec fn zero_rating() -> RatingClanData {
    RatingClanData {
        efficiency: RatingValue { value: 0 },
        battles_count_avg_daily: RatingValue { value: 0 },
        global_rating_weighted_avg: RatingValue { value: 0 },
        fb_elo_rating_10: RatingValue { value: 0 },
        fb_elo_rating_8: RatingValue { value: 0 },
        fb_elo_rating_6: RatingValue { value: 0 },
        gm_elo_rating_10: RatingValue { value: 0 },
    }
}

pub open spec fn zero_global() -> GlobalStatistics {
    GlobalStatistics { battles_10_level: 0, wins_10_level: 0, provinces_count: 0 }
}

pub open spec fn rating_or_zero(r: Option<RatingClanData>) -> RatingClanData {
    match r {
        Some(x) => x,
        None => zero_rating(),
    }
}

pub open spec fn global_or_zero(g: Option<crate::clan::GlobalClanData>) -> GlobalStatistics {
    match g {
        Some(x) => x.statistics,
        None => zero_global(),
    }
}

/// The clan card: missing blocks count as zeros.
pub open spec fn is_clan_card(c: Card, d: ClanData) -> bool {
    let r = rating_or_zero(d.rating);
    let g = global_or_zero(d.global);
    &&& c.url is None
    &&& c.footer is None
    &&& c.fields@.len() == 4
    &&& field_is(
        c.fields@[1],
        "General Stats"@,
        general_block_text(
            r,
            match d.tomato {
                Some(t) => t.members_count,
                None => 0,
            },
        ),
        true,
    )
    &&& field_is(c.fields@[2], "Stronghold Stats"@, stronghold_block_text(r), true)
    &&& field_is(c.fields@[3], "Global Map Stats"@, global_block_text(r, g), true)
    &&& match d.tomato {
        Some(t) => {
            &&& c.title@ == "["@ + t.tag@ + "] "@ + t.name@
            &&& c.thumbnail matches Some(x) && x@ == t.emblems.x64.portal@
            &&& c.description matches Some(x) && x@ == t.motto@
            &&& field_is(c.fields@[0], "Player Stats"@, player_block_text(t), true)
            &&& match parsed_color(t.color@) {
                Some(v) => c.color matches Some(x) && x as int == v,
                None => c.color is None,
            }
        },
        None => {
            &&& c.title@ == "[] "@
            &&& c.thumbnail is None
            &&& c.description is None
            &&& c.color is None
            &&& field_is(c.fields@[0], "Player Stats"@, blank_player_block_text(), true)
        },
    }
}

fn push_rounded(out: &mut String, v: RatingValue)
    ensures
        final(out)@ == old(out)@ + rounded_text(v),
{
    push_signed(out, round_centi(v.value));
}

fn player_block(t: &TomatoClan) -> (r: String)
    ensures
        r@ == player_block_text(*t),
{
    let mut s = owned("Overall WN8: `");
    push_signed(&mut s, round_centi(t.overall_wn8));
    s.append("`\nOverall WR: `");
    push_tenths(&mut s, t.overall_winrate);
    s.append("%`\nRecent WN8: `");
    push_signed(&mut s, round_centi(t.recent_wn8));
    s.append("`\nRecent WR: `");
    push_tenths(&mut s, t.recent_winrate);
    s.append("`");
    assert(s@ =~= player_block_text(*t));
    s
}

fn general_block(r: &RatingClanData, members: u32) -> (s: String)
    ensures
        s@ == general_block_text(*r, members),
{
    let mut s = owned("Clan Rating: `");
    push_rounded(&mut s, r.efficiency);
    s.append("`\nAvg. Daily Battles: `");
    push_rounded(&mut s, r.battles_count_avg_daily);
    s.append("`\nAvg. PR: `");
    push_rounded(&mut s, r.global_rating_weighted_avg);
    s.append("`\nPlayers: `");
    push_decimal(&mut s, members as u128);
    s.append("`");
    assert(s@ =~= general_block_text(*r, members));
    s
}

fn stronghold_block(r: &RatingClanData) -> (s: String)
    ensures
        s@ == stronghold_block_text(*r),
{
    let mut s = owned("SH Tier X ELO: `");
    push_rounded(&mut s, r.fb_elo_rating_10);
    s.append("`\nSH Tier VIII ELO: `");
    push_rounded(&mut s, r.fb_elo_rating_8);
    s.append("`\nSH Tier VI ELO: `");
    push_rounded(&mut s, r.fb_elo_rating_6);
    s.append("`");
    assert(s@ =~= stronghold_block_text(*r));
    s
}

/// Appends the global-map win rate.
pub fn push_global_wr(out: &mut String, wins: u32, battles: u32)
    ensures
        final(out)@ == old(out)@ + global_wr_text(wins, battles),
{
    if battles == 0 {
        out.append("NaN%");
    } else {
        let w = wins as u64;
        let b = battles as u64;
        let t: u64 = (2000 * w + b) / (2 * b);
        push_decimal(out, (t / 10) as u128);
        proof {
            reveal_strlit(".");
        }
        out.append(".");
        push_decimal(out, (t % 10) as u128);
        out.append("%");
        assert(decimal((t % 10) as nat) == seq![digit_char((t % 10) as int)]);
        assert(final(out)@ =~= old(out)@ + global_wr_text(wins, battles));
    }
}

fn global_block(r: &RatingClanData, g: &GlobalStatistics) -> (s: String)
    ensures
        s@ == global_block_text(*r, *g),
{
    let mut s = owned("Global Map ELO: `");
    push_rounded(&mut s, r.gm_elo_rating_10);
    s.append("`\nGlobal Map WR: `");
    push_global_wr(&mut s, g.wins_10_level, g.battles_10_level);
    s.append("`\nProvinces: `");
    push_decimal(&mut s, g.provinces_count as u128);
    s.append("`");
    assert(s@ =~= global_block_text(*r, *g));
    s
}

pub fn generate_clan_embed(data: &ClanData) -> (c: Card)
    ensures
        is_clan_card(c, *data),
{
    let zero = RatingValue { value: 0 };
    let rating = match data.rating {
        Some(r) => r,
        None => RatingClanData {
            efficiency: zero,
            battles_count_avg_daily: zero,
            global_rating_weighted_avg: zero,
            fb_elo_rating_10: zero,
            fb_elo_rating_8: zero,
            fb_elo_rating_6: zero,
            gm_elo_rating_10: zero,
        },
    };
    let global = match data.global {
        Some(g) => g.statistics,
        None => GlobalStatistics { battles_10_level: 0, wins_10_level: 0, provinces_count: 0 },
    };
    let mut card;
    match &data.tomato {
        Some(t) => {
            let mut title = owned("[");
            title.append(t.tag.as_str());
            title.append("] ");
            title.append(t.name.as_str());
            card = Card::titled(title);
            card.thumbnail = Some(t.emblems.x64.portal.clone());
            card.description = Some(t.motto.clone());
            card.fields.push(CardField::new(owned("Player Stats"), player_block(t), true));
            card.fields.push(
                CardField::new(owned("General Stats"), general_block(&rating, t.members_count), true),
            );
            card.color = parse_hex_color(t.color.as_str());
        },
        None => {
            card = Card::titled(owned("[] "));
            card.fields.push(
                CardField::new(
                    owned("Player Stats"),
                    owned("Overall WN8: `0`\nOverall WR: `0.0%`\nRecent WN8: `0`\nRecent WR: `0.0`"),
                    true,
                ),
            );
            card.fields.push(CardField::new(owned("General Stats"), general_block(&rating, 0), true));
        },
    }
    card.fields.push(CardField::new(owned("Stronghold Stats"), stronghold_block(&rating), true));
    card.fields.push(CardField::new(owned("Global Map Stats"), global_block(&rating, &global), true));
    card
}

} // verus!

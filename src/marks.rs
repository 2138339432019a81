use vstd::prelude::*;
use fuzzywuzzy::{fuzz, process, utils};
use crate::card::{field_is, footer_icon, footer_text, owned, Card, CardField, CardFooter};
use crate::cache::{table_get, RegionTable};
use crate::merge::{economics_of, is_economics_for, is_recent_for, recent_stats_of, tank_named};
use crate::rating::{get_wn8_color, wn8_color};
use crate::region::{name_of, Region};
use crate::tank::{RecentTankStats, Tank, TankEconomics};
use crate::text::{
    decimal, hundredths_text, push_decimal, push_hundredths, push_signed, signed_decimal, text_eq,
};

verus! {

/// The score that the fuzzy matcher gives a candidate name for a query, after
/// both are normalised (lower case, alphanumerics only, trimmed).
pub uninterp spec fn wratio_of(query: Seq<char>, choice: Seq<char>) -> u8;

/// Relies on fuzzywuzzy's `process::extract_one` with `utils::full_process`,
/// `fuzz::wratio` and a cutoff of 0: every choice is scored and kept, and the
/// first choice with the highest score is returned; `None` only when there
/// are no choices.
#[verifier::external_body]
fn best_match(query: &str, choices: &Vec<String>) -> (r: Option<(String, u8)>)
    ensures
        r is None <==> choices@.len() == 0,
        r matches Some(m) ==> exists|i: int| 0 <= i < choices@.len() && choices@[i]@ == m.0@ && m.1 == wratio_of(query@, choices@[i]@) && (forall|j: int| 0 <= j < choices@.len() ==> wratio_of(query@, (#[trigger] choices@[j])@) <= m.1) && (forall|j: int| 0 <= j < i ==> wratio_of(query@, (#[trigger] choices@[j])@) < m.1),
{
    process::extract_one(query, choices, &utils::full_process, &fuzz::wratio, 0)
}

/// Whether `name` is the name of the tank at `i`, the first tank whose score
/// for `query` is highest.
pub open spec fn is_best_name(tanks: Seq<Tank>, query: Seq<char>, i: int) -> bool {
    &&& 0 <= i < tanks.len()
    &&& forall|j: int| 0 <= j < tanks.len() ==> wratio_of(query, (#[trigger] tanks[j]).name@) <= wratio_of(query, tanks[i].name@)
    &&& forall|j: int| 0 <= j < i ==> wratio_of(query, (#[trigger] tanks[j]).name@) < wratio_of(query, tanks[i].name@)
}

/// The name of the tank that best matches a user's text; `None` when there
/// are no tanks.
pub fn fuzzy_find_tank(input: &str, tanks: &Vec<Tank>) -> (r: Option<String>)
    ensures
        tanks@.len() == 0 <==> r is None,
        r matches Some(n) ==> exists|i: int| is_best_name(tanks@, input@, i) && tanks@[i].name@ == n@,
{
    let mut names: Vec<String> = Vec::new();
    let mut i: usize = 0;
    while i < tanks.len()
        invariant
            i <= tanks@.len(),
            names@.len() == i,
            forall|k: int| 0 <= k < i ==> (#[trigger] names@[k])@ == tanks@[k].name@,
        decreases tanks@.len() - i,
    {
        names.push(tanks[i].name.clone());
        i = i + 1;
    }
    match best_match(input, &names) {
        Some(m) => {
            proof {
                let i = choose|i: int| 0 <= i < names@.len() && names@[i]@ == m.0@ && m.1 == wratio_of(input@, names@[i]@) && (forall|j: int| 0 <= j < names@.len() ==> wratio_of(input@, (#[trigger] names@[j])@) <= m.1) && (forall|j: int| 0 <= j < i ==> wratio_of(input@, (#[trigger] names@[j])@) < m.1);
                assert forall|j: int| 0 <= j < tanks@.len() implies wratio_of(
                    input@,
                    (#[trigger] tanks@[j]).name@,
                ) <= wratio_of(input@, tanks@[i].name@) by {
                    assert(names@[j]@ == tanks@[j].name@);
                }
                assert forall|j: int| 0 <= j < i implies wratio_of(
                    input@,
                    (#[trigger] tanks@[j]).name@,
                ) < wratio_of(input@, tanks@[i].name@) by {
                    assert(names@[j]@ == tanks@[j].name@);
                }
                assert(names@[i]@ == tanks@[i].name@);
                assert(is_best_name(tanks@, input@, i));
            }
            Some(m.0)
        },
        None => None,
    }
}

/// Whether `t` is the first tank named like the best match for `query`.
pub open spec fn is_picked_tank(tanks: Seq<Tank>, query: Seq<char>, t: Tank) -> bool {
    exists|i: int, k: int|
        {
            &&& is_best_name(tanks, query, i)
            &&& 0 <= k < tanks.len()
            &&& t == tanks[k]
            &&& tanks[k].name@ == tanks[i].name@
            &&& forall|j: int| 0 <= j < k ==> (#[trigger] tanks[j]).name@ != tanks[i].name@
        }
}

/// The tank that best matches a user's text, if there is any tank.
pub fn find_tank<'a>(input: &str, tanks: &'a Vec<Tank>) -> (r: Option<&'a Tank>)
    ensures
        tanks@.len() == 0 <==> r is None,
        r matches Some(t) ==> exists|i: int| is_best_name(tanks@, input@, i) && tanks@[i].name@ == t.name@,
        r matches Some(t) ==> is_picked_tank(tanks@, input@, *t),
{
    match fuzzy_find_tank(input, tanks) {
        Some(name) => {
            let t = tank_named(tanks, name.as_str());
            proof {
                let i = choose|i: int| is_best_name(tanks@, input@, i) && tanks@[i].name@ == name@;
                if t is None {
                    assert(tanks@[i].name@ != name@);
                } else {
                    let k = choose|k: int|
                        0 <= k < tanks@.len() && *t->0 == tanks@[k] && t->0.name@ == name@ && forall|j: int|
                            0 <= j < k ==> (#[trigger] tanks@[j]).name@ != name@;
                    assert(is_best_name(tanks@, input@, i) && 0 <= k < tanks@.len() && *t->0 == tanks@[k]
                        && tanks@[k].name@ == tanks@[i].name@);
                }
            }
            t
        },
        None => None,
    }
}

/// How a JSON scalar arrived.
#[derive(Debug, PartialEq, Eq, Structural, Clone, Copy)]
pub enum Scalar {
    /// A number that fits a `u64`.
    Unsigned(u64),
    /// Any other number.
    OtherNumber,
    /// A string.
    Text,
    /// Anything else.
    Other,
}

/// Why a scalar could not be read as a count.
#[derive(Debug, PartialEq, Eq, Structural, Clone, Copy)]
pub enum ScalarError {
    /// A number that is not an unsigned integer.
    NotUnsigned,
    /// Neither a number nor a string.
    WrongKind,
}

/// The count that a tolerant field holds: an unsigned number (cut to 32 bits),
/// or 0 for any string.
pub open spec fn lenient_value(s: Scalar) -> Result<u32, ScalarError> {
    match s {
        Scalar::Unsigned(v) => Ok(v as u32),
        Scalar::Text => Ok(0),
        Scalar::OtherNumber => Err(ScalarError::NotUnsigned),
        Scalar::Other => Err(ScalarError::WrongKind),
    }
}

pub fn lenient_u32(s: Scalar) -> (r: Result<u32, ScalarError>)
    ensures
        r == lenient_value(s),
{
    match s {
        Scalar::Unsigned(v) => Ok(v as u32),
        Scalar::Text => Ok(0),
        Scalar::OtherNumber => Err(ScalarError::NotUnsigned),
        Scalar::Other => Err(ScalarError::WrongKind),
    }
}

/// A JSON value of serde_json, carried through opaquely.
#[verifier::external_type_specification]
#[verifier::external_body]
pub struct ExJsonValue(serde_json::Value);

/// How serde_json classifies a JSON value: an unsigned number with its value,
/// another number, a string, or anything else.
pub uninterp spec fn scalar_kind(v: serde_json::Value) -> Scalar;

/// Relies on serde_json's `Value` variants and `Number::as_u64`: tells a
/// number that fits a `u64` (with its value), another number, a string and
/// anything else apart.
#[verifier::external_body]
fn scalar_of(v: &serde_json::Value) -> (r: Scalar)
    ensures
        r == scalar_kind(*v),
{
    match v {
        serde_json::Value::Number(n) => match n.as_u64() {
            Some(u) => Scalar::Unsigned(u),
            None => Scalar::OtherNumber,
        },
        serde_json::Value::String(_) => Scalar::Text,
        _ => Scalar::Other,
    }
}

/// Reads a count that the upstream sends as a number, or as a string when
/// the value is missing.
pub fn deserialize_str_to_u32(v: &serde_json::Value) -> (r: Result<u32, ScalarError>)
    ensures
        r == lenient_value(scalar_kind(*v)),
{
    lenient_u32(scalar_of(v))
}

/// The glyph of a vehicle class; premium vehicles have their own set.
pub open spec fn class_glyph(is_prem: bool, class: Seq<char>) -> Seq<char> {
    if is_prem {
        if class == "MT"@ {
            "<:premMT:1188064479020339241>"@
        } else if class == "LT"@ {
            "<:premLT:1188064478282137602>"@
        } else if class == "HT"@ {
            "<:premHT:1188064474989592647>"@
        } else if class == "SPG"@ {
            "<:premSPG:1188064475870416896>"@
        } else if class == "TD"@ {
            "<:premTD:1188064477405528134>"@
        } else {
            "Error"@
        }
    } else {
        if class == "MT"@ {
            "<:MT:1188064483134951474>"@
        } else if class == "LT"@ {
            "<:LT:1188064513061290035>"@
        } else if class == "HT"@ {
            "<:HT:1188064482153467954>"@
        } else if class == "SPG"@ {
            "<:SPG:1188064481050370048>"@
        } else if class == "TD"@ {
            "<:TD:1188064486490378260>"@
        } else {
            "Error"@
        }
    }
}

/// The flag glyph of a nation.
pub open spec fn nation_glyph(nation: Seq<char>) -> Seq<char> {
    if nation == "france"@ {
        "<:France:1188231544800813106>"@
    } else if nation == "ussr"@ {
        "<:USSR:1188231683397406772>"@
    } else if nation == "germany"@ {
        "<:Germany:1188231546340122654>"@
    } else if nation == "china"@ {
        "<:China:1188231542452011038>"@
    } else if nation == "poland"@ {
        "<:Poland:1188231549938827365>"@
    } else if nation == "uk"@ {
        "<:UK:1188231586550915163>"@
    } else if nation == "usa"@ {
        "<:USA:1188231554502250596>"@
    } else if nation == "sweden"@ {
        "<:Sweden:1188231551285219348>"@
    } else if nation == "japan"@ {
        "<:Japan:1188231548751855696>"@
    } else if nation == "italy"@ {
        "<:Italy:1188231547246088222>"@
    } else if nation == "czech"@ {
        "<:Czech:1188231543328604191>"@
    } else {
        "Emoji Error"@
    }
}

pub fn get_class_emoji(is_prem: bool, class: &str) -> (r: &'static str)
    ensures
        r@ == class_glyph(is_prem, class@),
{
    if is_prem {
        if text_eq(class, "MT") {
            "<:premMT:1188064479020339241>"
        } else if text_eq(class, "LT") {
            "<:premLT:1188064478282137602>"
        } else if text_eq(class, "HT") {
            "<:premHT:1188064474989592647>"
        } else if text_eq(class, "SPG") {
            "<:premSPG:1188064475870416896>"
        } else if text_eq(class, "TD") {
            "<:premTD:1188064477405528134>"
        } else {
            "Error"
        }
    } else {
        if text_eq(class, "MT") {
            "<:MT:1188064483134951474>"
        } else if text_eq(class, "LT") {
            "<:LT:1188064513061290035>"
        } else if text_eq(class, "HT") {
            "<:HT:1188064482153467954>"
        } else if text_eq(class, "SPG") {
            "<:SPG:1188064481050370048>"
        } else if text_eq(class, "TD") {
            "<:TD:1188064486490378260>"
        } else {
            "Error"
        }
    }
}

pub fn get_nation_emoji(nation: &str) -> (r: &'static str)
    ensures
        r@ == nation_glyph(nation@),
{
    if text_eq(nation, "france") {
        "<:France:1188231544800813106>"
    } else if text_eq(nation, "ussr") {
        "<:USSR:1188231683397406772>"
    } else if text_eq(nation, "germany") {
        "<:Germany:1188231546340122654>"
    } else if text_eq(nation, "china") {
        "<:China:1188231542452011038>"
    } else if text_eq(nation, "poland") {
        "<:Poland:1188231549938827365>"
    } else if text_eq(nation, "uk") {
        "<:UK:1188231586550915163>"
    } else if text_eq(nation, "usa") {
        "<:USA:1188231554502250596>"
    } else if text_eq(nation, "sweden") {
        "<:Sweden:1188231551285219348>"
    } else if text_eq(nation, "japan") {
        "<:Japan:1188231548751855696>"
    } else if text_eq(nation, "italy") {
        "<:Italy:1188231547246088222>"
    } else if text_eq(nation, "czech") {
        "<:Czech:1188231543328604191>"
    } else {
        "Emoji Error"
    }
}

/// The description of a tank card: its nation's flag, then its class glyph.
pub open spec fn tank_description(t: Tank) -> Seq<char> {
    nation_glyph(t.nation@) + " "@ + class_glyph(t.is_prem, t.class@)
}

pub fn create_tank_embed_description(tank: &Tank) -> (r: String)
    ensures
        r@ == tank_description(*tank),
{
    let mut s = owned(get_nation_emoji(tank.nation.as_str()));
    s.append(" ");
    s.append(get_class_emoji(tank.is_prem, tank.class.as_str()));
    s
}

/// The text of a field whose source data has not been fetched yet.
pub open spec fn pending_text() -> Seq<char> {
    "Not available yet"@
}

pub open spec fn marks_text(t: Tank) -> Seq<char> {
    "100: `"@ + decimal(t.pct_100 as nat) + "`\n<:mark_3:1188009637291765801>: `"@ + decimal(t.pct_95 as nat)
        + "`\n <:mark_2:1188009640777236514>: `"@ + decimal(t.pct_85 as nat)
        + "`\n <:mark_1:1188009633772736563>: `"@ + decimal(t.pct_65 as nat) + "`"@
}

pub open spec fn mastery_text(t: Tank) -> Seq<char> {
    "<:masteryIcon:1188009638420037652>: `"@ + decimal(t.ace as nat)
        + "`\n<:firstClassIcon:1188009639820935240>: `"@ + decimal(t.first as nat)
        + "`\n<:2ndClassIcon:1188009636398387260>: `"@ + decimal(t.second as nat)
        + "`\n<:3rdClassIcon:1188009635014246441>: `"@ + decimal(t.third as nat) + "`"@
}

pub open spec fn economics_text(e: TankEconomics) -> Seq<char> {
    "Avg. Profit: `"@ + signed_decimal(e.avg_profit as int) + "`<:credits:1188059891395477585>\nAvg. Revenue: `"@
        + signed_decimal(e.avg_earnings as int) + "`<:credits:1188059891395477585>\n Avg. Ammo Cost: `"@
        + decimal(e.avg_ammo_cost as nat) + "`<:credits:1188059891395477585>\n Profit/Min: `"@
        + signed_decimal(e.profit_per_minute as int) + "`<:credits:1188059891395477585>"@
}

pub open spec fn recent_text(r: RecentTankStats) -> Seq<char> {
    "WN8: `"@ + decimal(r.wn8 as nat) + "`\nWinRate: `"@ + hundredths_text(r.winrate as int) + "%`\n Damage: `"@
        + decimal(r.damage as nat) + "`\n Assist: `"@ + decimal((r.spotting_assist + r.tracking_assist) as nat)
        + "`"@
}

/// The tank-marks card; a block whose source is not cached yet shows a
/// placeholder, and the color then stays the default.
pub open spec fn is_mark_card(c: Card, t: Tank, region: Region, e: Option<TankEconomics>, r: Option<RecentTankStats>) -> bool {
    &&& c.title@ == t.name@ + " "@ + name_of(region)
    &&& c.url matches Some(u) && u@ == "https://tomato.gg/tanks/"@ + name_of(region) + "/"@ + decimal(t.id as nat)
    &&& c.description matches Some(d) && d@ == tank_description(t)
    &&& c.thumbnail matches Some(x) && x@ == t.images.big_icon@
    &&& c.footer matches Some(f) && f.text@ == footer_text() && f.icon_url@ == footer_icon()
    &&& c.fields@.len() == 4
    &&& field_is(c.fields@[0], "MoE Reqs"@, marks_text(t), true)
    &&& field_is(c.fields@[1], "Mastery(XP)"@, mastery_text(t), true)
    &&& field_is(c.fields@[2], "Economics"@, match e { Some(x) => economics_text(x), None => pending_text() }, true)
    &&& field_is(c.fields@[3], "30 Days Stats"@, match r { Some(x) => recent_text(x), None => pending_text() }, true)
    &&& match r {
        Some(x) => c.color matches Some(k) && k as int == wn8_color(x.wn8 as int),
        None => c.color is None,
    }
}

fn marks_block(t: &Tank) -> (s: String)
    ensures
        s@ == marks_text(*t),
{
    let mut s = owned("100: `");
    push_decimal(&mut s, t.pct_100 as u128);
    s.append("`\n<:mark_3:1188009637291765801>: `");
    push_decimal(&mut s, t.pct_95 as u128);
    s.append("`\n <:mark_2:1188009640777236514>: `");
    push_decimal(&mut s, t.pct_85 as u128);
    s.append("`\n <:mark_1:1188009633772736563>: `");
    push_decimal(&mut s, t.pct_65 as u128);
    s.append("`");
    assert(s@ =~= marks_text(*t));
    s
}

fn mastery_block(t: &Tank) -> (s: String)
    ensures
        s@ == mastery_text(*t),
{
    let mut s = owned("<:masteryIcon:1188009638420037652>: `");
    push_decimal(&mut s, t.ace as u128);
    s.append("`\n<:firstClassIcon:1188009639820935240>: `");
    push_decimal(&mut s, t.first as u128);
    s.append("`\n<:2ndClassIcon:1188009636398387260>: `");
    push_decimal(&mut s, t.second as u128);
    s.append("`\n<:3rdClassIcon:1188009635014246441>: `");
    push_decimal(&mut s, t.third as u128);
    s.append("`");
    assert(s@ =~= mastery_text(*t));
    s
}

fn economics_block(e: &TankEconomics) -> (s: String)
    ensures
        s@ == economics_text(*e),
{
    let mut s = owned("Avg. Profit: `");
    push_signed(&mut s, e.avg_profit as i64);
    s.append("`<:credits:1188059891395477585>\nAvg. Revenue: `");
    push_signed(&mut s, e.avg_earnings as i64);
    s.append("`<:credits:1188059891395477585>\n Avg. Ammo Cost: `");
    push_decimal(&mut s, e.avg_ammo_cost as u128);
    s.append("`<:credits:1188059891395477585>\n Profit/Min: `");
    push_signed(&mut s, e.profit_per_minute as i64);
    s.append("`<:credits:1188059891395477585>");
    assert(s@ =~= economics_text(*e));
    s
}

fn recent_block(r: &RecentTankStats) -> (s: String)
    ensures
        s@ == recent_text(*r),
{
    let mut s = owned("WN8: `");
    push_decimal(&mut s, r.wn8 as u128);
    s.append("`\nWinRate: `");
    push_hundredths(&mut s, r.winrate);
    s.append("%`\n Damage: `");
    push_decimal(&mut s, r.damage as u128);
    s.append("`\n Assist: `");
    push_decimal(&mut s, r.spotting_assist as u128 + r.tracking_assist as u128);
    s.append("`");
    assert(s@ =~= recent_text(*r));
    s
}

pub fn generate_mark_embed(
    tank: &Tank,
    region: &Region,
    tank_economics: Option<&TankEconomics>,
    recent_tank_stats: Option<&RecentTankStats>,
) -> (c: Card)
    ensures
        is_mark_card(
            c,
            *tank,
            *region,
            match tank_economics {
                Some(e) => Some(*e),
                None => None,
            },
            match recent_tank_stats {
                Some(r) => Some(*r),
                None => None,
            },
        ),
{
    let mut title = tank.name.clone();
    title.append(" ");
    title.append(region.name());
    let mut card = Card::titled(title);
    let mut url = owned("https://tomato.gg/tanks/");
    url.append(region.name());
    url.append("/");
    push_decimal(&mut url, tank.id as u128);
    card.url = Some(url);
    card.description = Some(create_tank_embed_description(tank));
    card.fields.push(CardField::new(owned("MoE Reqs"), marks_block(tank), true));
    card.fields.push(CardField::new(owned("Mastery(XP)"), mastery_block(tank), true));
    let econ = match tank_economics {
        Some(e) => economics_block(e),
        None => owned("Not available yet"),
    };
    card.fields.push(CardField::new(owned("Economics"), econ, true));
    let recent = match recent_tank_stats {
        Some(r) => recent_block(r),
        None => owned("Not available yet"),
    };
    card.fields.push(CardField::new(owned("30 Days Stats"), recent, true));
    card.color = match recent_tank_stats {
        Some(r) => Some(get_wn8_color(r.wn8)),
        None => None,
    };
    card.thumbnail = Some(tank.images.big_icon.clone());
    card.footer = Some(CardFooter::attribution());
    assert(card.url.unwrap()@ =~= "https://tomato.gg/tanks/"@ + name_of(*region) + "/"@ + decimal(tank.id as nat));
    card
}

/// The rows of a region in a table, none when the table lacks the region.
pub open spec fn region_rows<T>(t: RegionTable<T>, region: Region) -> Seq<T> {
    match table_get(t, region) {
        Some(v) => v@,
        None => Seq::empty(),
    }
}

/// The tank-marks card for a user's text in a region: the best-matching
/// tank with its economics and recent statistics from the cached
/// snapshots; `None` while the region has no tanks.
pub fn marks_card(
    input: &str,
    region: Region,
    tanks: &RegionTable<Tank>,
    economics: &Vec<TankEconomics>,
    recent: &RegionTable<RecentTankStats>,
) -> (r: Option<Card>)
    ensures
        r is None <==> region_rows(*tanks, region).len() == 0,
        r matches Some(c) ==> exists|t: Tank, e: Option<TankEconomics>, s: Option<RecentTankStats>|
            {
                &&& is_picked_tank(region_rows(*tanks, region), input@, t)
                &&& is_economics_for(economics@, t.id, e)
                &&& is_recent_for(region_rows(*recent, region), t.id, s)
                &&& is_mark_card(c, t, region, e, s)
            },
{
    let list = match tanks.get(region) {
        Some(l) => l,
        None => {
            return None;
        },
    };
    let tank = match find_tank(input, list) {
        Some(t) => t,
        None => {
            return None;
        },
    };
    let econ = economics_of(economics, tank.id);
    let stats = match recent.get(region) {
        Some(rows) => recent_stats_of(rows, tank.id),
        None => None,
    };
    let ghost s = match stats {
        Some(x) => Some(*x),
        None => None,
    };
    let card = generate_mark_embed(
        tank,
        &region,
        match &econ {
            Some(e) => Some(e),
            None => None,
        },
        stats,
    );
    assert(is_mark_card(card, *tank, region, econ, s));
    Some(card)
}

} // verus!

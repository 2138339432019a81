use tankstats::aggregate::FetchFailure;
use tankstats::cache::{CacheCell, RegionTable};
use tankstats::clan::{
    ClanData, ClanId, ClanIdResponse, GlobalClanData, GlobalStatistics, RatingClanData, RatingValue,
    TomatoClan,
};
use tankstats::clan_card::{generate_clan_embed, push_global_wr};
use tankstats::marks::{
    create_tank_embed_description, deserialize_str_to_u32, find_tank, marks_card, fuzzy_find_tank,
    generate_mark_embed, get_class_emoji, get_nation_emoji, lenient_u32, Scalar, ScalarError,
};
use tankstats::merge::{economics_of, merge_tank_lists, recent_stats_of, tank_named};
use tankstats::player::{EmblemURL, Emblems};
use tankstats::region::Region;
use tankstats::resolve::{first_clan_id, no_clan_message};
use tankstats::session::combine_clan_blocks;
use tankstats::tank::{Images, RecentTankStats, Tank, TankEconomics};
use tankstats::urls::{overall_url, player_search_url, recents_url, tomato_clan_url};

fn tomato(color: &str) -> TomatoClan {
    TomatoClan {
        name: "Relic".to_string(),
        tag: "RELIC".to_string(),
        color: color.to_string(),
        motto: "Stay frosty".to_string(),
        emblems: Emblems { x64: EmblemURL { portal: "https://emblem/x64.png".to_string() } },
        overall_wn8: 249950,
        overall_winrate: 5555,
        recent_wn8: 300049,
        recent_winrate: 6012,
        members_count: 90,
    }
}

fn v(x: i64) -> RatingValue {
    RatingValue { value: x }
}

fn rating() -> RatingClanData {
    RatingClanData {
        efficiency: v(150050),
        battles_count_avg_daily: v(1240),
        global_rating_weighted_avg: v(700000),
        fb_elo_rating_10: v(120000),
        fb_elo_rating_8: v(110000),
        fb_elo_rating_6: v(100000),
        gm_elo_rating_10: v(130049),
    }
}

fn global(battles: u32, wins: u32) -> GlobalClanData {
    GlobalClanData { statistics: GlobalStatistics { battles_10_level: battles, wins_10_level: wins, provinces_count: 3 } }
}

fn tank(id: u32, name: &str, nation: &str, class: &str) -> Tank {
    Tank {
        id,
        nation: nation.to_string(),
        is_prem: false,
        class: class.to_string(),
        name: name.to_string(),
        tier: 10,
        pct_65: 1000,
        pct_85: 2000,
        pct_95: 3000,
        pct_100: 4000,
        first: 0,
        second: 0,
        third: 0,
        ace: 0,
        images: Images { big_icon: String::new() },
    }
}

fn mastery(id: u32, third: u32) -> Tank {
    let mut t = tank(id, "", "", "");
    t.first = 11;
    t.second = 22;
    t.third = third;
    t.ace = 44;
    t.images = Images { big_icon: format!("icon{}", id) };
    t
}

fn economics(id: u32) -> TankEconomics {
    TankEconomics {
        id,
        battles: 5,
        avg_earnings: 60000,
        avg_profit: -1500,
        avg_ammo_cost: 9000,
        cost_per_shot: 1200,
        earnings_per_minute: 15000,
        profit_per_minute: -300,
    }
}

fn recent(id: u32) -> RecentTankStats {
    RecentTankStats {
        tank_id: id,
        name: "Obj. 140".to_string(),
        nation: "ussr".to_string(),
        tier: 10,
        class: "MT".to_string(),
        battles: 1000,
        winrate: 5150,
        damage: 3100,
        spotting_assist: 400,
        tracking_assist: 150,
        wn8: 2100,
        is_prem: false,
    }
}

#[test]
fn s3_clan_card_color_from_hex() {
    let data = ClanData { rating: Some(rating()), global: Some(global(40, 30)), tomato: Some(tomato("#ff9900")) };
    let c = generate_clan_embed(&data);
    assert_eq!(c.color, Some(0xFF9900));
    assert_eq!(c.title, "[RELIC] Relic");
    assert_eq!(c.description.as_deref(), Some("Stay frosty"));
    assert_eq!(c.thumbnail.as_deref(), Some("https://emblem/x64.png"));
    assert_eq!(c.fields.len(), 4);
    assert_eq!(
        c.fields[0].value,
        "Overall WN8: `2500`\nOverall WR: `55.6%`\nRecent WN8: `3000`\nRecent WR: `60.1`"
    );
    assert_eq!(
        c.fields[1].value,
        "Clan Rating: `1501`\nAvg. Daily Battles: `12`\nAvg. PR: `7000`\nPlayers: `90`"
    );
    assert_eq!(c.fields[2].value, "SH Tier X ELO: `1200`\nSH Tier VIII ELO: `1100`\nSH Tier VI ELO: `1000`");
    assert_eq!(c.fields[3].value, "Global Map ELO: `1300`\nGlobal Map WR: `75.0%`\nProvinces: `3`");
}

#[test]
fn s6_clan_card_with_missing_profile() {
    let data = ClanData { rating: None, global: None, tomato: None };
    let c = generate_clan_embed(&data);
    assert_eq!(c.color, None);
    assert_eq!(c.fields[0].name, "Player Stats");
    assert_eq!(c.fields[0].value, "Overall WN8: `0`\nOverall WR: `0.0%`\nRecent WN8: `0`\nRecent WR: `0.0`");
    assert_eq!(c.fields[1].value, "Clan Rating: `0`\nAvg. Daily Battles: `0`\nAvg. PR: `0`\nPlayers: `0`");
    assert_eq!(c.fields[2].value, "SH Tier X ELO: `0`\nSH Tier VIII ELO: `0`\nSH Tier VI ELO: `0`");
    assert_eq!(c.fields[3].value, "Global Map ELO: `0`\nGlobal Map WR: `NaN%`\nProvinces: `0`");
}

#[test]
fn clan_card_bad_color_uses_default() {
    let data = ClanData { rating: None, global: None, tomato: Some(tomato("#nothex")) };
    assert_eq!(generate_clan_embed(&data).color, None);
}

#[test]
fn global_win_rate_text() {
    let mut s = String::new();
    push_global_wr(&mut s, 2, 3);
    assert_eq!(s, "66.7%");
    let mut s = String::new();
    push_global_wr(&mut s, 0, 0);
    assert_eq!(s, "NaN%");
}

#[test]
fn clan_blocks_combine() {
    assert!(combine_clan_blocks(Err(FetchFailure::Transport), Err(FetchFailure::Transport), Err(FetchFailure::Decode)).is_none());
    let c = combine_clan_blocks(Ok(Some(rating())), Ok(None), Err(FetchFailure::Transport)).unwrap();
    assert!(c.rating.is_some() && c.global.is_none() && c.tomato.is_none());
}

#[test]
fn clan_search_first_record() {
    let r = ClanIdResponse { data: Some(vec![ClanId { clan_id: 500012345 }, ClanId { clan_id: 2 }]) };
    assert_eq!(first_clan_id(&r), Some(500012345));
    assert_eq!(first_clan_id(&ClanIdResponse { data: Some(vec![]) }), None);
    assert_eq!(first_clan_id(&ClanIdResponse { data: None }), None);
    assert_eq!(no_clan_message(), "Couldn't find a clan with that name");
}

#[test]
fn tank_lists_merge_by_id() {
    let moe = vec![tank(1, "A", "ussr", "MT"), tank(2, "B", "usa", "HT"), tank(3, "C", "uk", "LT")];
    let mast = vec![mastery(3, 33), mastery(1, 31), mastery(1, 99)];
    let merged = merge_tank_lists(&moe, &mast);
    assert_eq!(merged.len(), 2);
    assert_eq!((merged[0].id, merged[0].name.as_str(), merged[0].third, merged[0].ace), (1, "A", 31, 44));
    assert_eq!(merged[0].images.big_icon, "icon1");
    assert_eq!(merged[0].pct_100, 4000);
    assert_eq!((merged[1].id, merged[1].third), (3, 33));
}

#[test]
fn s4_fuzzy_pick_and_mark_card() {
    let tanks = vec![
        tank(1, "IS-7", "ussr", "HT"),
        tank(16897, "Obj. 140", "ussr", "MT"),
        tank(3, "T-62A", "ussr", "MT"),
    ];
    assert_eq!(fuzzy_find_tank("obj 140", &tanks).as_deref(), Some("Obj. 140"));
    let t = find_tank("obj 140", &tanks).unwrap();
    assert_eq!(t.tier, 10);
    assert!(fuzzy_find_tank("obj 140", &vec![]).is_none());
    let econ = vec![economics(5), economics(16897)];
    let e = economics_of(&econ, t.id).unwrap();
    let rec = vec![recent(16897)];
    let r = recent_stats_of(&rec, t.id).unwrap();
    let c = generate_mark_embed(t, &Region::NA, Some(&e), Some(r));
    assert_eq!(c.title, "Obj. 140 NA");
    assert_eq!(c.url.as_deref(), Some("https://tomato.gg/tanks/NA/16897"));
    assert_eq!(c.description.as_deref(), Some("<:USSR:1188231683397406772> <:MT:1188064483134951474>"));
    assert_eq!(c.color, Some(0x3972C6));
    assert_eq!(c.fields[3].value, "WN8: `2100`\nWinRate: `51.50%`\n Damage: `3100`\n Assist: `550`");
    assert!(c.fields[2].value.starts_with("Avg. Profit: `-1500`"));
}

#[test]
fn mark_card_with_cache_miss() {
    let t = tank(7, "Leopard 1", "germany", "MT");
    let c = generate_mark_embed(&t, &Region::EU, None, None);
    assert_eq!(c.fields[2].value, "Not available yet");
    assert_eq!(c.fields[3].value, "Not available yet");
    assert_eq!(c.color, None);
    assert!(economics_of(&vec![economics(1)], 7).is_none());
}

#[test]
fn glyphs() {
    assert_eq!(get_class_emoji(true, "TD"), "<:premTD:1188064477405528134>");
    assert_eq!(get_class_emoji(false, "XX"), "Error");
    assert_eq!(get_nation_emoji("czech"), "<:Czech:1188231543328604191>");
    assert_eq!(get_nation_emoji("mars"), "Emoji Error");
    let t = tank(1, "X", "france", "SPG");
    assert_eq!(create_tank_embed_description(&t), "<:France:1188231544800813106> <:SPG:1188064481050370048>");
    assert!(tank_named(&vec![t], "Y").is_none());
}

#[test]
fn tolerant_decode_of_third_class() {
    let empty = serde_json::Value::String(String::new());
    assert_eq!(deserialize_str_to_u32(&empty), Ok(0));
    let n = serde_json::Value::from(1234u64);
    assert_eq!(deserialize_str_to_u32(&n), Ok(1234));
    assert_eq!(deserialize_str_to_u32(&serde_json::Value::Bool(true)), Err(ScalarError::WrongKind));
    assert_eq!(deserialize_str_to_u32(&serde_json::Value::from(-3i64)), Err(ScalarError::NotUnsigned));
    assert_eq!(lenient_u32(Scalar::Text), Ok(0));
    assert_eq!(lenient_u32(Scalar::Unsigned(7)), Ok(7));
}

#[test]
fn cache_refresh_replaces_whole_or_nothing() {
    let mut cell: CacheCell<RegionTable<u32>> = CacheCell::new(RegionTable::empty());
    assert!(cell.read().get(Region::NA).is_none());
    let fresh = RegionTable::from_fetches(Ok(vec![1, 2]), Ok(vec![3]), Ok(vec![]));
    assert!(cell.refresh(fresh));
    assert_eq!(cell.read().get(Region::NA), Some(&vec![1, 2]));
    let failed = RegionTable::from_fetches(Ok(vec![9]), Err(FetchFailure::Transport), Ok(vec![9]));
    assert!(failed.is_err());
    assert!(!cell.refresh(failed));
    assert_eq!(cell.read().get(Region::NA), Some(&vec![1, 2]));
    assert_eq!(cell.read().get(Region::EU), Some(&vec![3]));
    assert_eq!(cell.refreshes, 1);
}

#[test]
fn upstream_urls() {
    assert_eq!(overall_url(Region::NA, 1001234567, true), "https://api.tomato.gg/dev/api-v2/overall/com/1001234567?cache=true");
    assert_eq!(recents_url(Region::EU, 5, false), "https://api.tomato.gg/dev/api-v2/recents/eu/5");
    assert_eq!(tomato_clan_url(Region::ASIA, 500012345), "https://api.tomato.gg/api/clan/asia/500012345");
    assert!(player_search_url(Region::NA, "Relyk").ends_with("&search=Relyk"));
}

#[test]
fn s4_marks_card_from_snapshots() {
    let tanks = RegionTable::from_fetches(
        Ok(vec![tank(1, "IS-7", "ussr", "HT"), tank(16897, "Obj. 140", "ussr", "MT")]),
        Ok(vec![]),
        Ok(vec![tank(2, "Obj. 140", "ussr", "MT")]),
    )
    .unwrap();
    let econ = vec![economics(1), economics(16897)];
    let recent = RegionTable::from_fetches(Ok(vec![recent(1), recent(16897)]), Ok(vec![]), Ok(vec![])).unwrap();
    let c = marks_card("obj 140", Region::NA, &tanks, &econ, &recent).unwrap();
    assert_eq!(c.title, "Obj. 140 NA");
    assert_eq!(c.url.as_deref(), Some("https://tomato.gg/tanks/NA/16897"));
    assert!(c.fields[2].value.starts_with("Avg. Profit: `-1500`"));
    assert_eq!(c.fields[3].value, "WN8: `2100`\nWinRate: `51.50%`\n Damage: `3100`\n Assist: `550`");
    assert!(marks_card("obj 140", Region::EU, &tanks, &econ, &recent).is_none());
    let c = marks_card("obj 140", Region::ASIA, &tanks, &econ, &recent).unwrap();
    assert_eq!(c.fields[2].value, "Not available yet");
    assert_eq!(c.fields[3].value, "Not available yet");
    assert!(marks_card("obj", Region::NA, &RegionTable::empty(), &econ, &recent).is_none());
}

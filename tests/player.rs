use tankstats::aggregate::{FetchFailure, PlayerData};
use tankstats::card::Card;
use tankstats::period::Period;
use tankstats::player::{
    ClanInfoResponse, EmblemURL, Emblems, OverallData, OverallStats, Player, PlayerAccountInfo,
    PlayerClanInfo, RecentsData, TankStats, TimeFrame, UserSearch,
};
use tankstats::ranking::top_tanks;
use tankstats::region::Region;
use tankstats::render::{
    generate_main_stat_embed, generate_period_embed, CreateMainStatEmbedError,
    CreatePeriodEmbedError,
};
use tankstats::resolve::{
    choose_region, first_player, membership_of, no_player_message, player_in_region, take_keyed,
};

fn player(nick: &str, id: u32) -> Player {
    Player { nickname: nick.to_string(), account_id: id }
}

fn totals(battles: u32, wn8: u32) -> OverallStats {
    OverallStats { battles, wn8, tier: 850, winrate: 5512, dpg: 2000 }
}

fn tank(id: u32, name: &str, battles: u32) -> TankStats {
    TankStats { id, name: name.to_string(), tier: 10, battles, wn8: 2000, dpg: 3000, kpg: 100, win_rate: 5500 }
}

fn frame(battles: u32, wn8: u32, tanks: Vec<TankStats>) -> TimeFrame {
    TimeFrame { overall: totals(battles, wn8), tank_stats: tanks }
}

fn recents(h24: TimeFrame, d30: TimeFrame) -> RecentsData {
    RecentsData {
        recent24hr: h24,
        recent3days: frame(3, 1000, vec![]),
        recent7days: frame(7, 1100, vec![]),
        recent30days: d30,
        recent60days: frame(60, 1300, vec![]),
        recent1000battles: frame(1000, 1400, vec![]),
        recent100battles: frame(100, 1500, vec![]),
    }
}

fn overall(battles: u32, wn8: u32) -> OverallData {
    OverallData { server: "com".to_string(), id: 1001234567, battles, wn8, tier: 812, win_rate: 5600, dpg: 2100 }
}

fn membership(role: &str, tag: &str) -> PlayerAccountInfo {
    PlayerAccountInfo {
        clan: PlayerClanInfo {
            members_count: 90,
            name: "Relic".to_string(),
            color: "#ff9900".to_string(),
            created_at: 0,
            tag: tag.to_string(),
            emblems: Emblems { x64: EmblemURL { portal: "https://emblem/x64.png".to_string() } },
            clan_id: 500012345,
        },
        account_id: 1001234567,
        role_i18n: "Combat Officer".to_string(),
        joined_at: 0,
        role: role.to_string(),
        account_name: "Relyk".to_string(),
    }
}

fn field_names(c: &Card) -> Vec<String> {
    c.fields.iter().map(|f| f.name.clone()).collect()
}

#[test]
fn resolver_prefers_na_then_eu_then_asia() {
    let r = choose_region(Ok(Some(player("a", 1))), Ok(Some(player("a", 2))), Ok(Some(player("a", 3))));
    assert_eq!(r.map(|(g, p)| (g, p.account_id)), Some((Region::NA, 1)));
    let r = choose_region(Ok(None), Ok(Some(player("a", 2))), Ok(Some(player("a", 3))));
    assert_eq!(r.map(|(g, p)| (g, p.account_id)), Some((Region::EU, 2)));
    let r = choose_region(Err(FetchFailure::Transport), Ok(None), Ok(Some(player("a", 3))));
    assert_eq!(r.map(|(g, p)| (g, p.account_id)), Some((Region::ASIA, 3)));
}

#[test]
fn resolver_finds_no_one() {
    let r = choose_region(Ok(None), Ok(None), Ok(None));
    assert!(r.is_none());
    assert_eq!(no_player_message(false), "No Player found with that name");
    assert_eq!(no_player_message(true), "No player found with that name");
    assert!(player_in_region(Err(FetchFailure::Decode)).is_none());
    assert_eq!(player_in_region(Ok(Some(player("Relyk", 1001234567)))).unwrap().account_id, 1001234567);
}

#[test]
fn directory_first_record_wins() {
    let s = UserSearch { status: "ok".to_string(), data: vec![player("Relyk", 1001234567), player("Relyk2", 7)] };
    assert_eq!(first_player(s).unwrap().account_id, 1001234567);
    let s = UserSearch { status: "ok".to_string(), data: vec![] };
    assert!(first_player(s).is_none());
}

#[test]
fn keyed_lookup_and_membership() {
    let entries = vec![("12".to_string(), 'a'), ("1001234567".to_string(), 'b')];
    assert_eq!(take_keyed(entries, 1001234567), Some('b'));
    let entries = vec![("12".to_string(), 'a')];
    assert_eq!(take_keyed(entries, 13), None);
    let entries = vec![("7".to_string(), 'x'), ("7".to_string(), 'y')];
    assert_eq!(take_keyed(entries, 7), Some('x'));
    let resp = ClanInfoResponse {
        status: "ok".to_string(),
        data: vec![("1001234567".to_string(), Some(membership("combat_officer", "RELIC")))],
    };
    assert_eq!(membership_of(resp, 1001234567).unwrap().clan.tag, "RELIC");
    let resp = ClanInfoResponse { status: "ok".to_string(), data: vec![("1001234567".to_string(), None)] };
    assert!(membership_of(resp, 1001234567).is_none());
    let resp = ClanInfoResponse { status: "ok".to_string(), data: vec![] };
    assert!(membership_of(resp, 1001234567).is_none());
}

#[test]
fn wave_two_failure_keeps_wave_one() {
    let mut d = PlayerData::new(player("Relyk", 1001234567), Region::NA);
    d.record_first_wave(Ok(Some(overall(50000, 2500))), Ok(None), Ok(None));
    d.record_second_wave(Err(FetchFailure::Transport), Err(FetchFailure::Decode), None);
    assert_eq!(d.overall.as_ref().unwrap().battles, 50000);
    assert!(d.recents.is_none());
}

#[test]
fn wave_two_success_replaces_wave_one() {
    let mut d = PlayerData::new(player("Relyk", 1001234567), Region::NA);
    d.record_first_wave(Err(FetchFailure::Transport), Ok(None), Ok(None));
    assert!(d.overall.is_none());
    d.record_second_wave(Ok(Some(overall(50010, 2500))), Ok(None), None);
    assert_eq!(d.overall.as_ref().unwrap().battles, 50010);
}

#[test]
fn s1_first_render_then_silent_upgrade() {
    let mut d = PlayerData::new(player("Relyk", 1001234567), Region::NA);
    d.record_first_wave(
        Ok(Some(overall(50000, 2500))),
        Ok(Some(recents(frame(100, 3100, vec![]), frame(30, 1200, vec![])))),
        Ok(Some(membership("combat_officer", "RELIC"))),
    );
    assert!(d.is_in_clan);
    assert_eq!(d.clan_to_fetch(), Some(500012345));
    let c = generate_main_stat_embed(&d).unwrap();
    assert_eq!(c.color, Some(0x6844D4));
    assert_eq!(c.description.as_deref(), Some("**CO at [RELIC]**"));
    assert_eq!(c.title, "Relyk's Stats");
    assert_eq!(c.url.as_deref(), Some("https://tomato.gg/stats/NA/Relyk=1001234567"));
    assert_eq!(c.thumbnail.as_deref(), Some("https://emblem/x64.png"));
    assert_eq!(
        field_names(&c),
        vec!["**Overall**", "**24 Hours**", "**7 Days**", "**30 Days**", "**60 Days**", "**1000 Battles**"]
    );
    assert_eq!(c.fields[0].value, "Battles: `50000`\nWN8: `2500`\nWinRate: `56.00%`\nAvgTier: `8.12`");
    assert_eq!(c.fields[1].value, "Battles: `100`\nWN8: `3100`\nWinRate: `55.12%`\nAvgTier: `8.50`");
    assert_eq!(c.footer.as_ref().unwrap().text, "Powered by Tomato.gg");
    d.record_second_wave(Ok(Some(overall(50010, 2500))), Err(FetchFailure::Transport), None);
    let c = generate_main_stat_embed(&d).unwrap();
    assert!(c.fields[0].value.starts_with("Battles: `50010`"));
    assert_eq!(c.fields[1].value, "Battles: `100`\nWN8: `3100`\nWinRate: `55.12%`\nAvgTier: `8.50`");
}

#[test]
fn main_card_errors() {
    let d = PlayerData::new(player("Relyk", 1), Region::EU);
    assert_eq!(generate_main_stat_embed(&d).unwrap_err(), CreateMainStatEmbedError::MissingOverallError);
    let mut d = PlayerData::new(player("Relyk", 1), Region::EU);
    d.record_first_wave(Ok(Some(overall(1, 1))), Ok(None), Ok(None));
    assert_eq!(generate_main_stat_embed(&d).unwrap_err(), CreateMainStatEmbedError::MissingRecentsError);
    assert_eq!(CreateMainStatEmbedError::MissingOverallError.message(), "Missing Required Overall Data");
    assert_eq!(generate_period_embed(&d, Period::R24HR).unwrap_err(), CreatePeriodEmbedError::MissingRecentsError);
    assert_eq!(CreatePeriodEmbedError::MissingRecentsError.message(), "Missing Required Recents Data");
}

#[test]
fn main_card_without_clan() {
    let mut d = PlayerData::new(player("Solo", 5), Region::ASIA);
    d.record_first_wave(
        Ok(Some(overall(10, 0))),
        Ok(Some(recents(frame(1, 1, vec![]), frame(2, 2, vec![])))),
        Ok(None),
    );
    let c = generate_main_stat_embed(&d).unwrap();
    assert!(c.description.is_none() && c.thumbnail.is_none());
    assert_eq!(c.color, Some(0x808080));
}

#[test]
fn top_tanks_is_stable_descending_prefix() {
    let tanks = vec![
        tank(1, "A", 10),
        tank(2, "B", 50),
        tank(3, "C", 10),
        tank(4, "D", 70),
        tank(5, "E", 50),
        tank(6, "F", 5),
        tank(7, "G", 10),
    ];
    assert_eq!(top_tanks(&tanks), vec![3, 1, 4, 0, 2]);
    assert_eq!(top_tanks(&vec![tank(1, "A", 1), tank(2, "B", 2)]), vec![1, 0]);
    assert!(top_tanks(&vec![]).is_empty());
}

#[test]
fn period_card_shows_five_top_tanks() {
    let tanks = vec![
        tank(1, "A", 10),
        tank(2, "B", 50),
        tank(3, "C", 10),
        tank(4, "D", 70),
        tank(5, "E", 50),
        tank(6, "F", 5),
    ];
    let mut d = PlayerData::new(player("Relyk", 1001234567), Region::NA);
    d.record_first_wave(
        Ok(Some(overall(50000, 2500))),
        Ok(Some(recents(frame(100, 3100, vec![]), frame(300, 1800, tanks)))),
        Ok(None),
    );
    let c = generate_period_embed(&d, Period::R30DAYS).unwrap();
    assert_eq!(c.description.as_deref(), Some("**Last 30 Days Stats**"));
    assert_eq!(c.color, Some(0x4099BF));
    assert_eq!(field_names(&c), vec!["Totals", "D", "B", "E", "A", "C"]);
    assert_eq!(c.fields[1].value, "Battles: `70`\nWin Rate: `55.00%`\n WN8: `2000`\n DPG: `3000`");
    assert!(c.fields.iter().all(|f| f.inline));
}

#[test]
fn period_card_with_no_tanks() {
    let mut d = PlayerData::new(player("Relyk", 1), Region::NA);
    d.record_first_wave(Ok(None), Ok(Some(recents(frame(100, 3100, vec![]), frame(0, 0, vec![])))), Ok(None));
    let c = generate_period_embed(&d, Period::R24HR).unwrap();
    assert_eq!(field_names(&c), vec!["Totals"]);
    assert_eq!(c.color, Some(0x522B99));
    assert_eq!(c.description.as_deref(), Some("**Last 24 Hours Stats**"));
}

#[test]
fn period_selects_its_own_window() {
    let mut d = PlayerData::new(player("Relyk", 1), Region::NA);
    assert!(d.get_period_data(Period::R7DAYS).is_none());
    d.record_first_wave(Ok(None), Ok(Some(recents(frame(100, 3100, vec![]), frame(30, 1, vec![])))), Ok(None));
    assert_eq!(d.get_period_data(Period::R7DAYS).unwrap().overall.battles, 7);
    assert_eq!(d.get_period_data(Period::R3DAYS).unwrap().overall.battles, 3);
    assert_eq!(d.get_period_data(Period::R100BATTLES).unwrap().overall.battles, 100);
}

use tankstats::hex::parse_hex_color;
use tankstats::period::Period;
use tankstats::rating::{get_short_position, get_wn8_color};
use tankstats::region::Region;
use tankstats::text::{decimal_text, push_hundredths, push_signed, push_tenths, round_centi};

#[test]
fn wn8_color_boundaries() {
    assert_eq!(get_wn8_color(0), 0x808080);
    assert_eq!(get_wn8_color(1), 0x930D0D);
    assert_eq!(get_wn8_color(300), 0x930D0D);
    assert_eq!(get_wn8_color(301), 0xCD3333);
    assert_eq!(get_wn8_color(4700), 0x310D59);
    assert_eq!(get_wn8_color(4701), 0x24073D);
    assert_eq!(get_wn8_color(u32::MAX), 0x24073D);
}

#[test]
fn wn8_color_every_band() {
    let rows: [(u32, u32, i32); 13] = [
        (1, 300, 0x930D0D),
        (301, 450, 0xCD3333),
        (451, 650, 0xCC7A00),
        (651, 900, 0xCCB800),
        (901, 1200, 0x849B24),
        (1201, 1600, 0x4D7326),
        (1601, 2000, 0x4099BF),
        (2001, 2450, 0x3972C6),
        (2451, 2900, 0x6844D4),
        (2901, 3400, 0x522B99),
        (3401, 4000, 0x411D73),
        (4001, 4700, 0x310D59),
        (4701, u32::MAX, 0x24073D),
    ];
    for (lo, hi, c) in rows {
        assert_eq!(get_wn8_color(lo), c);
        assert_eq!(get_wn8_color(hi), c);
    }
}

#[test]
fn short_role_table() {
    let rows = [
        ("commander", "CDR"),
        ("executive_officer", "XO"),
        ("personnel_officer", "PO"),
        ("combat_officer", "CO"),
        ("recruitment_officer", "RO"),
        ("intelligence_officer", "IO"),
        ("quartermaster", "QM"),
        ("junior_officer", "JO"),
        ("private", "PVT"),
        ("recruit", "RCT"),
        ("reservist", "RES"),
    ];
    for (role, short) in rows {
        assert_eq!(get_short_position(role), short);
    }
}

#[test]
fn short_role_unknown_is_err() {
    assert_eq!(get_short_position(""), "Err");
    assert_eq!(get_short_position("Commander"), "Err");
    assert_eq!(get_short_position("commander "), "Err");
    assert_eq!(get_short_position("general"), "Err");
}

#[test]
fn region_extensions_and_names() {
    assert_eq!(Region::NA.extension(), "com");
    assert_eq!(Region::EU.extension(), "eu");
    assert_eq!(Region::ASIA.extension(), "asia");
    assert_eq!(Region::ASIA.name(), "ASIA");
    assert_eq!(Region::default(), Region::NA);
}

#[test]
fn period_names_round_trip() {
    let all = Period::all();
    assert_eq!(all.len(), 7);
    for p in all {
        assert_eq!(Period::from_name(p.name()), Some(p));
    }
    assert_eq!(Period::R1000BATTLES.nice_name(), "1000 Battles");
    assert_eq!(Period::from_name("R30DAYS"), Some(Period::R30DAYS));
    assert_eq!(Period::from_name("30 Days"), None);
}

#[test]
fn decimal_and_fixed_point_text() {
    assert_eq!(decimal_text(0), "0");
    assert_eq!(decimal_text(1001234567), "1001234567");
    let mut s = String::new();
    push_hundredths(&mut s, 5234);
    assert_eq!(s, "52.34");
    let mut s = String::new();
    push_hundredths(&mut s, -5);
    assert_eq!(s, "-0.05");
    let mut s = String::new();
    push_tenths(&mut s, 5235);
    assert_eq!(s, "52.4");
    let mut s = String::new();
    push_signed(&mut s, i64::MIN);
    assert_eq!(s, "-9223372036854775808");
    assert_eq!(round_centi(249950), 2500);
    assert_eq!(round_centi(-150), -2);
    assert_eq!(round_centi(149), 1);
}

#[test]
fn hex_colors() {
    assert_eq!(parse_hex_color("#ff9900"), Some(0xFF9900));
    assert_eq!(parse_hex_color("FF9900"), Some(0xFF9900));
    assert_eq!(parse_hex_color("#"), None);
    assert_eq!(parse_hex_color(""), None);
    assert_eq!(parse_hex_color("#zz9900"), None);
    assert_eq!(parse_hex_color("#7fffffff"), Some(i32::MAX));
    assert_eq!(parse_hex_color("#80000000"), None);
}

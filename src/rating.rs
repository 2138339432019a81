use vstd::prelude::*;
use crate::text::text_eq;

verus! {

/// The card color (0xRRGGBB) for a skill rating, by band.
pub open spec fn wn8_color(w: int) -> int {
    if w <= 0 {
        0x808080
    } else if w <= 300 {
        0x930D0D
    } else if w <= 450 {
        0xCD3333
    } else if w <= 650 {
        0xCC7A00
    } else if w <= 900 {
        0xCCB800
    } else if w <= 1200 {
        0x849B24
    } else if w <= 1600 {
        0x4D7326
    } else if w <= 2000 {
        0x4099BF
    } else if w <= 2450 {
        0x3972C6
    } else if w <= 2900 {
        0x6844D4
    } else if w <= 3400 {
        0x522B99
    } else if w <= 4000 {
        0x411D73
    } else if w <= 4700 {
        0x310D59
    } else {
        0x24073D
    }
}

/// The short form of a clan role; "Err" for a role outside the table.
pub open spec fn short_role(p: Seq<char>) -> Seq<char> {
    if p == "commander"@ {
        "CDR"@
    } else if p == "executive_officer"@ {
        "XO"@
    } else if p == "personnel_officer"@ {
        "PO"@
    } else if p == "combat_officer"@ {
        "CO"@
    } else if p == "recruitment_officer"@ {
        "RO"@
    } else if p == "intelligence_officer"@ {
        "IO"@
    } else if p == "quartermaster"@ {
        "QM"@
    } else if p == "junior_officer"@ {
        "JO"@
    } else if p == "private"@ {
        "PVT"@
    } else if p == "recruit"@ {
        "RCT"@
    } else if p == "reservist"@ {
        "RES"@
    } else {
        "Err"@
    }
}

pub fn get_short_position(position: &str) -> (r: &'static str)
    ensures
        r@ == short_role(position@),
{
    if text_eq(position, "commander") {
        "CDR"
    } else if text_eq(position, "executive_officer") {
        "XO"
    } else if text_eq(position, "personnel_officer") {
        "PO"
    } else if text_eq(position, "combat_officer") {
        "CO"
    } else if text_eq(position, "recruitment_officer") {
        "RO"
    } else if text_eq(position, "intelligence_officer") {
        "IO"
    } else if text_eq(position, "quartermaster") {
        "QM"
    } else if text_eq(position, "junior_officer") {
        "JO"
    } else if text_eq(position, "private") {
        "PVT"
    } else if text_eq(position, "recruit") {
        "RCT"
    } else if text_eq(position, "reservist") {
        "RES"
    } else {
        "Err"
    }
}

pub fn get_wn8_color(wn8: u32) -> (r: i32)
    ensures
        r as int == wn8_color(wn8 as int),
{
    if wn8 == 0 {
        0x808080
    } else if wn8 <= 300 {
        0x930D0D
    } else if wn8 <= 450 {
        0xCD3333
    } else if wn8 <= 650 {
        0xCC7A00
    } else if wn8 <= 900 {
        0xCCB800
    } else if wn8 <= 1200 {
        0x849B24
    } else if wn8 <= 1600 {
        0x4D7326
    } else if wn8 <= 2000 {
        0x4099BF
    } else if wn8 <= 2450 {
        0x3972C6
    } else if wn8 <= 2900 {
        0x6844D4
    } else if wn8 <= 3400 {
        0x522B99
    } else if wn8 <= 4000 {
        0x411D73
    } else if wn8 <= 4700 {
        0x310D59
    } else {
        0x24073D
    }
}

} // verus!

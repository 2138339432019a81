use vstd::prelude::*;
use crate::text::text_eq;

verus! {

/// A window of recent play.
#[derive(Debug, PartialEq, Eq, Structural, Clone, Copy)]
pub enum Period {
    R24HR,
    R3DAYS,
    R7DAYS,
    R30DAYS,
    R60DAYS,
    R1000BATTLES,
    R100BATTLES,
}

/// The label shown for a period.
pub open spec fn nice_name_of(p: Period) -> Seq<char> {
    match p {
        Period::R24HR => "24 Hours"@,
        Period::R3DAYS => "3 Days"@,
        Period::R7DAYS => "7 Days"@,
        Period::R30DAYS => "30 Days"@,
        Period::R60DAYS => "60 Days"@,
        Period::R1000BATTLES => "1000 Battles"@,
        Period::R100BATTLES => "100 Battles"@,
    }
}

/// The canonical name of a period, used as the select-menu value.
pub open spec fn canonical_name_of(p: Period) -> Seq<char> {
    match p {
        Period::R24HR => "R24HR"@,
        Period::R3DAYS => "R3DAYS"@,
        Period::R7DAYS => "R7DAYS"@,
        Period::R30DAYS => "R30DAYS"@,
        Period::R60DAYS => "R60DAYS"@,
        Period::R1000BATTLES => "R1000BATTLES"@,
        Period::R100BATTLES => "R100BATTLES"@,
    }
}

/// The period with a given canonical name.
pub open spec fn period_named(s: Seq<char>) -> Option<Period> {
    if s == "R24HR"@ {
        Some(Period::R24HR)
    } else if s == "R3DAYS"@ {
        Some(Period::R3DAYS)
    } else if s == "R7DAYS"@ {
        Some(Period::R7DAYS)
    } else if s == "R30DAYS"@ {
        Some(Period::R30DAYS)
    } else if s == "R60DAYS"@ {
        Some(Period::R60DAYS)
    } else if s == "R1000BATTLES"@ {
        Some(Period::R1000BATTLES)
    } else if s == "R100BATTLES"@ {
        Some(Period::R100BATTLES)
    } else {
        None
    }
}

/// All periods, in declaration order.
pub open spec fn all_periods() -> Seq<Period> {
    seq![
        Period::R24HR,
        Period::R3DAYS,
        Period::R7DAYS,
        Period::R30DAYS,
        Period::R60DAYS,
        Period::R1000BATTLES,
        Period::R100BATTLES,
    ]
}

impl Period {
    pub fn nice_name(&self) -> (r: &'static str)
        ensures
            r@ == nice_name_of(*self),
    {
        match self {
            Period::R24HR => "24 Hours",
            Period::R3DAYS => "3 Days",
            Period::R7DAYS => "7 Days",
            Period::R30DAYS => "30 Days",
            Period::R60DAYS => "60 Days",
            Period::R1000BATTLES => "1000 Battles",
            Period::R100BATTLES => "100 Battles",
        }
    }

    pub fn name(&self) -> (r: &'static str)
        ensures
            r@ == canonical_name_of(*self),
    {
        match self {
            Period::R24HR => "R24HR",
            Period::R3DAYS => "R3DAYS",
            Period::R7DAYS => "R7DAYS",
            Period::R30DAYS => "R30DAYS",
            Period::R60DAYS => "R60DAYS",
            Period::R1000BATTLES => "R1000BATTLES",
            Period::R100BATTLES => "R100BATTLES",
        }
    }

    /// The period whose canonical name is `s`, if any.
    pub fn from_name(s: &str) -> (r: Option<Period>)
        ensures
            r == period_named(s@),
    {
        if text_eq(s, "R24HR") {
            Some(Period::R24HR)
        } else if text_eq(s, "R3DAYS") {
            Some(Period::R3DAYS)
        } else if text_eq(s, "R7DAYS") {
            Some(Period::R7DAYS)
        } else if text_eq(s, "R30DAYS") {
            Some(Period::R30DAYS)
        } else if text_eq(s, "R60DAYS") {
            Some(Period::R60DAYS)
        } else if text_eq(s, "R1000BATTLES") {
            Some(Period::R1000BATTLES)
        } else if text_eq(s, "R100BATTLES") {
            Some(Period::R100BATTLES)
        } else {
            None
        }
    }

    /// All periods, in declaration order.
    pub fn all() -> (r: Vec<Period>)
        ensures
            r@ == all_periods(),
    {
        let v = vec![
            Period::R24HR,
            Period::R3DAYS,
            Period::R7DAYS,
            Period::R30DAYS,
            Period::R60DAYS,
            Period::R1000BATTLES,
            Period::R100BATTLES,
        ];
        assert(v@ =~= all_periods());
        v
    }
}

} // verus!

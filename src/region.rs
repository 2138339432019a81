use vstd::prelude::*;

verus! {

/// A game server region.
#[derive(Debug, PartialEq, Eq, Structural, Hash, Clone, Copy)]
pub enum Region {
    NA,
    EU,
    ASIA,
}

/// The domain extension of a region's API hosts.
pub open spec fn extension_of(r: Region) -> Seq<char> {
    match r {
        Region::NA => "com"@,
        Region::EU => "eu"@,
        Region::ASIA => "asia"@,
    }
}

/// The display name of a region.
pub open spec fn name_of(r: Region) -> Seq<char> {
    match r {
        Region::NA => "NA"@,
        Region::EU => "EU"@,
        Region::ASIA => "ASIA"@,
    }
}

impl Region {
    pub fn extension(&self) -> (r: &'static str)
        ensures
            r@ == extension_of(*self),
    {
        match self {
            Region::NA => "com",
            Region::EU => "eu",
            Region::ASIA => "asia",
        }
    }

    pub fn name(&self) -> (r: &'static str)
        ensures
            r@ == name_of(*self),
    {
        match self {
            Region::NA => "NA",
            Region::EU => "EU",
            Region::ASIA => "ASIA",
        }
    }
}

impl Default for Region {
    fn default() -> (r: Region)
        ensures
            r == Region::NA,
    {
        Region::NA
    }
}

} // verus!

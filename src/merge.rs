use vstd::prelude::*;
use crate::tank::{RecentTankStats, Tank, TankEconomics};

verus! {

/// The index of the first tank of `s` with the given id; `s.len()` if none.
pub open spec fn first_with_id(s: Seq<Tank>, id: u32) -> int
    decreases s.len(),
{
    if s.len() == 0 {
        0
    } else if s[0].id == id {
        0
    } else {
        1 + first_with_id(s.subrange(1, s.len() as int), id)
    }
}

/// A marks record completed with the mastery fields of its counterpart.
pub open spec fn merged_tank(m: Tank, x: Tank) -> Tank {
    Tank { first: x.first, second: x.second, third: x.third, ace: x.ace, images: x.images, ..m }
}

/// The marks records that have a mastery counterpart, in their order, each
/// completed from the first mastery record with its id.
pub open spec fn merged_tanks(moe: Seq<Tank>, mastery: Seq<Tank>) -> Seq<Tank>
    decreases moe.len(),
{
    if moe.len() == 0 {
        Seq::empty()
    } else {
        let rest = merged_tanks(moe.drop_last(), mastery);
        let j = first_with_id(mastery, moe.last().id);
        if j < mastery.len() {
            rest.push(merged_tank(moe.last(), mastery[j]))
        } else {
            rest
        }
    }
}

proof fn lemma_first_with_id(s: Seq<Tank>, id: u32, i: int)
    requires
        0 <= i <= s.len(),
        forall|k: int| 0 <= k < i ==> (#[trigger] s[k]).id != id,
        i == s.len() || s[i].id == id,
    ensures
        first_with_id(s, id) == i,
    decreases s.len(),
{
    if s.len() > 0 && i > 0 {
        let t = s.subrange(1, s.len() as int);
        assert(s[0].id != id);
        assert forall|k: int| 0 <= k < i - 1 implies (#[trigger] t[k]).id != id by {
            assert(t[k] == s[k + 1]);
        }
        if i < s.len() {
            assert(t[i - 1] == s[i]);
        }
        lemma_first_with_id(t, id, i - 1);
    }
}

/// The index of the first tank with the given id, or the length if none.
pub fn find_tank_id(s: &Vec<Tank>, id: u32) -> (r: usize)
    ensures
        r as int == first_with_id(s@, id),
        r <= s@.len(),
{
    let mut i: usize = 0;
    while i < s.len()
        invariant
            i <= s@.len(),
            forall|k: int| 0 <= k < i ==> (#[trigger] s@[k]).id != id,
        decreases s@.len() - i,
    {
        if s[i].id == id {
            proof {
                lemma_first_with_id(s@, id, i as int);
            }
            return i;
        }
        i = i + 1;
    }
    proof {
        lemma_first_with_id(s@, id, i as int);
    }
    i
}

/// Merges the marks and mastery lists of one region by tank id.
pub fn merge_tank_lists(moe: &Vec<Tank>, mastery: &Vec<Tank>) -> (r: Vec<Tank>)
    ensures
        r@ == merged_tanks(moe@, mastery@),
{
    let mut out: Vec<Tank> = Vec::new();
    let mut i: usize = 0;
    while i < moe.len()
        invariant
            i <= moe@.len(),
            out@ == merged_tanks(moe@.subrange(0, i as int), mastery@),
        decreases moe@.len() - i,
    {
        let t1 = &moe[i];
        let j = find_tank_id(mastery, t1.id);
        let ghost pre = moe@.subrange(0, i as int);
        assert(moe@.subrange(0, i + 1).drop_last() =~= pre);
        assert(moe@.subrange(0, i + 1).last() == moe@[i as int]);
        if j < mastery.len() {
            let t2 = &mastery[j];
            let t = Tank {
                id: t1.id,
                nation: t1.nation.clone(),
                is_prem: t1.is_prem,
                class: t1.class.clone(),
                name: t1.name.clone(),
                tier: t1.tier,
                pct_65: t1.pct_65,
                pct_85: t1.pct_85,
                pct_95: t1.pct_95,
                pct_100: t1.pct_100,
                first: t2.first,
                second: t2.second,
                third: t2.third,
                ace: t2.ace,
                images: t2.images.clone(),
            };
            out.push(t);
        }
        i = i + 1;
    }
    assert(moe@.subrange(0, moe@.len() as int) =~= moe@);
    out
}

/// The first tank with the given name.
pub fn tank_named<'a>(tanks: &'a Vec<Tank>, name: &str) -> (r: Option<&'a Tank>)
    ensures
        r is None <==> forall|k: int| 0 <= k < tanks@.len() ==> (#[trigger] tanks@[k]).name@ != name@,
        r matches Some(t) ==> exists|k: int|
            0 <= k < tanks@.len() && *t == tanks@[k] && t.name@ == name@ && forall|j: int|
                0 <= j < k ==> (#[trigger] tanks@[j]).name@ != name@,
{
    let mut i: usize = 0;
    while i < tanks.len()
        invariant
            i <= tanks@.len(),
            forall|k: int| 0 <= k < i ==> (#[trigger] tanks@[k]).name@ != name@,
        decreases tanks@.len() - i,
    {
        if crate::text::text_eq(tanks[i].name.as_str(), name) {
            return Some(&tanks[i]);
        }
        i = i + 1;
    }
    None
}

/// Whether `r` is the first economics row of tank `id`, or `None` when it has none.
pub open spec fn is_economics_for(rows: Seq<TankEconomics>, id: u32, r: Option<TankEconomics>) -> bool {
    match r {
        None => forall|k: int| 0 <= k < rows.len() ==> (#[trigger] rows[k]).id != id,
        Some(e) => exists|k: int|
            0 <= k < rows.len() && e == rows[k] && rows[k].id == id && forall|j: int|
                0 <= j < k ==> (#[trigger] rows[j]).id != id,
    }
}

/// Whether `r` is the first recent-statistics row of tank `id`, or `None`
/// when it has none.
pub open spec fn is_recent_for(rows: Seq<RecentTankStats>, id: u32, r: Option<RecentTankStats>) -> bool {
    match r {
        None => forall|k: int| 0 <= k < rows.len() ==> (#[trigger] rows[k]).tank_id != id,
        Some(e) => exists|k: int|
            0 <= k < rows.len() && e == rows[k] && rows[k].tank_id == id && forall|j: int|
                0 <= j < k ==> (#[trigger] rows[j]).tank_id != id,
    }
}

/// The economics row of a tank.
pub fn economics_of(rows: &Vec<TankEconomics>, id: u32) -> (r: Option<TankEconomics>)
    ensures
        is_economics_for(rows@, id, r),
        r matches Some(e) ==> e.id == id,
{
    let mut i: usize = 0;
    while i < rows.len()
        invariant
            i <= rows@.len(),
            forall|k: int| 0 <= k < i ==> (#[trigger] rows@[k]).id != id,
        decreases rows@.len() - i,
    {
        if rows[i].id == id {
            return Some(rows[i]);
        }
        i = i + 1;
    }
    None
}

/// The recent server-wide statistics of a tank.
pub fn recent_stats_of<'a>(rows: &'a Vec<RecentTankStats>, id: u32) -> (r: Option<&'a RecentTankStats>)
    ensures
        is_recent_for(
            rows@,
            id,
            match r {
                Some(e) => Some(*e),
                None => None,
            },
        ),
        r matches Some(e) ==> e.tank_id == id,
{
    let mut i: usize = 0;
    while i < rows.len()
        invariant
            i <= rows@.len(),
            forall|k: int| 0 <= k < i ==> (#[trigger] rows@[k]).tank_id != id,
        decreases rows@.len() - i,
    {
        if rows[i].tank_id == id {
            return Some(&rows[i]);
        }
        i = i + 1;
    }
    None
}

} // verus!

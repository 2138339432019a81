use vstd::prelude::*;
use crate::player::TankStats;

verus! {

/// How many tank rows a period card shows.
pub const TOP_TANKS: usize = 5;

/// Row `a` comes before row `b`: more battles, or as many and earlier in the input.
pub open spec fn ranked_before(s: Seq<TankStats>, a: int, b: int) -> bool {
    s[a].battles > s[b].battles || (s[a].battles == s[b].battles && a < b)
}

/// `idx` lists the `m` first rows of `s` in the order of most battles first,
/// rows with as many battles keeping their input order.
pub open spec fn is_top_ranking(s: Seq<TankStats>, idx: Seq<usize>, m: nat) -> bool {
    &&& idx.len() == if s.len() < m { s.len() } else { m }
    &&& forall|k: int| 0 <= k < idx.len() ==> (#[trigger] idx[k]) < s.len()
    &&& forall|k: int, l: int|
        0 <= k < l < idx.len() ==> ranked_before(s, #[trigger] idx[k] as int, #[trigger] idx[l] as int)
    &&& forall|j: int, k: int|
        0 <= j < s.len() && 0 <= k < idx.len() && (forall|p: int| 0 <= p < idx.len() ==> idx[p] != j)
            ==> #[trigger] ranked_before(s, idx[k] as int, j)
}

/// Whether `j` occurs in `idx`.
pub open spec fn listed(idx: Seq<usize>, j: int) -> bool {
    exists|k: int| 0 <= k < idx.len() && #[trigger] idx[k] == j
}

/// The indices of the rows with the most battles, at most `TOP_TANKS` of them,
/// most battles first and ties in input order.
pub fn top_tanks(tanks: &Vec<TankStats>) -> (r: Vec<usize>)
    ensures
        is_top_ranking(tanks@, r@, TOP_TANKS as nat),
{
    let n = tanks.len();
    let mut out: Vec<usize> = Vec::new();
    let mut i: usize = 0;
    while i < n
        invariant
            n == tanks@.len(),
            i <= n,
            out@.len() == i,
            forall|k: int| 0 <= k < out@.len() ==> (#[trigger] out@[k]) < i,
            forall|k: int, l: int|
                0 <= k < l < out@.len() ==> ranked_before(
                    tanks@,
                    #[trigger] out@[k] as int,
                    #[trigger] out@[l] as int,
                ),
            forall|j: int| 0 <= j < i ==> #[trigger] listed(out@, j),
        decreases n - i,
    {
        let b = tanks[i].battles;
        let mut pos: usize = 0;
        while pos < out.len() && tanks[out[pos]].battles >= b
            invariant
                n == tanks@.len(),
                i < n,
                b == tanks@[i as int].battles,
                pos <= out@.len(),
                out@.len() == i,
                forall|k: int| 0 <= k < out@.len() ==> (#[trigger] out@[k]) < i,
                forall|k: int| 0 <= k < pos ==> tanks@[(#[trigger] out@[k]) as int].battles >= b,
            decreases out@.len() - pos,
        {
            pos = pos + 1;
        }
        let ghost old_out = out@;
        out.insert(pos, i);
        proof {
            old_out.insert_ensures(pos as int, i);
            assert forall|k: int, l: int| 0 <= k < l < out@.len() implies ranked_before(
                tanks@,
                #[trigger] out@[k] as int,
                #[trigger] out@[l] as int,
            ) by {
                if l < pos {
                    assert(out@[k] == old_out[k] && out@[l] == old_out[l]);
                } else if l == pos {
                    assert(out@[k] == old_out[k]);
                } else if k < pos {
                    assert(out@[k] == old_out[k] && out@[l] == old_out[l - 1]);
                } else if k == pos {
                    assert(out@[l] == old_out[l - 1]);
                    assert(ranked_before(tanks@, old_out[pos as int] as int, old_out[l - 1] as int)
                        || l - 1 == pos);
                } else {
                    assert(out@[k] == old_out[k - 1] && out@[l] == old_out[l - 1]);
                }
            }
            assert forall|j: int| 0 <= j < i + 1 implies #[trigger] listed(out@, j) by {
                if j == i {
                    assert(out@[pos as int] == j);
                } else {
                    assert(listed(old_out, j));
                    let k0 = choose|k: int| 0 <= k < old_out.len() && #[trigger] old_out[k] == j;
                    if k0 < pos {
                        assert(out@[k0] == j);
                    } else {
                        assert(out@[k0 + 1] == j);
                    }
                }
            }
        }
        i = i + 1;
    }
    let ghost full = out@;
    out.truncate(TOP_TANKS);
    proof {
        assert forall|j: int, k: int|
            0 <= j < tanks@.len() && 0 <= k < out@.len() && (forall|p: int|
                0 <= p < out@.len() ==> out@[p] != j) implies #[trigger] ranked_before(
            tanks@,
            out@[k] as int,
            j,
        ) by {
            assert(listed(full, j));
            let q = choose|q: int| 0 <= q < full.len() && #[trigger] full[q] == j;
            if q < out@.len() {
                assert(out@[q] == full[q]);
            } else {
                assert(full[k] == out@[k]);
            }
        }
    }
    out
}

} // verus!

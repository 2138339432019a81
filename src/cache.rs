use vstd::prelude::*;
use crate::aggregate::FetchFailure;
use crate::region::Region;

verus! {

/// One list per region; a region's list is absent until first fetched.
#[derive(Debug)]
pub struct RegionTable<T> {
    pub na: Option<Vec<T>>,
    pub eu: Option<Vec<T>>,
    pub asia: Option<Vec<T>>,
}

/// The list of a region in a table.
pub open spec fn table_get<T>(t: RegionTable<T>, r: Region) -> Option<Vec<T>> {
    match r {
        Region::NA => t.na,
        Region::EU => t.eu,
        Region::ASIA => t.asia,
    }
}

impl<T> RegionTable<T> {
    /// A table before the first refresh.
    pub fn empty() -> (t: RegionTable<T>)
        ensures
            t.na is None && t.eu is None && t.asia is None,
    {
        RegionTable { na: None, eu: None, asia: None }
    }

    pub fn get(&self, region: Region) -> (r: Option<&Vec<T>>)
        ensures
            table_get(*self, region) is None ==> r is None,
            table_get(*self, region) matches Some(v) ==> r == Some(&v),
    {
        match region {
            Region::NA => self.na.as_ref(),
            Region::EU => self.eu.as_ref(),
            Region::ASIA => self.asia.as_ref(),
        }
    }

    /// A fresh table from the three regional fetches; a failure of any of
    /// them fails the whole refresh.
    pub fn from_fetches(
        na: Result<Vec<T>, FetchFailure>,
        eu: Result<Vec<T>, FetchFailure>,
        asia: Result<Vec<T>, FetchFailure>,
    ) -> (r: Result<RegionTable<T>, FetchFailure>)
        ensures
            r is Ok <==> (na is Ok && eu is Ok && asia is Ok),
            r matches Ok(t) ==> t.na == Some(na->Ok_0) && t.eu == Some(eu->Ok_0) && t.asia == Some(
                asia->Ok_0,
            ),
    {
        match (na, eu, asia) {
            (Ok(a), Ok(b), Ok(c)) => Ok(RegionTable { na: Some(a), eu: Some(b), asia: Some(c) }),
            (Err(e), _, _) => Err(e),
            (_, Err(e), _) => Err(e),
            (_, _, Err(e)) => Err(e),
        }
    }
}

/// One cell of the reference cache: the snapshot that readers see, replaced
/// whole by each successful refresh.
#[derive(Debug)]
pub struct CacheCell<S> {
    pub snapshot: S,
    pub refreshes: u64,
}

/// The snapshot after a refresh: the new one in full, or the old one in full
/// when the refresh failed.
pub open spec fn refreshed<S>(old: S, outcome: Result<S, FetchFailure>) -> S {
    match outcome {
        Ok(s) => s,
        Err(_) => old,
    }
}

impl<S> CacheCell<S> {
    pub fn new(initial: S) -> (c: CacheCell<S>)
        ensures
            c.snapshot == initial,
            c.refreshes == 0,
    {
        CacheCell { snapshot: initial, refreshes: 0 }
    }

    /// The current snapshot.
    pub fn read(&self) -> (r: &S)
        ensures
            *r == self.snapshot,
    {
        &self.snapshot
    }

    /// Publishes the outcome of a refresh; a failed refresh leaves the
    /// snapshot as it was. Returns whether the snapshot was replaced.
    pub fn refresh(&mut self, outcome: Result<S, FetchFailure>) -> (replaced: bool)
        ensures
            final(self).snapshot == refreshed(old(self).snapshot, outcome),
            replaced == outcome is Ok,
            final(self).refreshes == if replaced && old(self).refreshes < u64::MAX {
                old(self).refreshes + 1
            } else {
                old(self).refreshes as int
            },
    {
        match outcome {
            Ok(s) => {
                self.snapshot = s;
                if self.refreshes < u64::MAX {
                    self.refreshes = self.refreshes + 1;
                }
                true
            },
            Err(_) => false,
        }
    }
}

/// A reader of a cell sees, after any refresh, either the snapshot from
/// before it or the one it published, each whole: never a mix of the two.
pub proof fn lemma_refresh_is_whole<S>(old: S, outcome: Result<S, FetchFailure>)
    ensures
        refreshed(old, outcome) == old || outcome == Ok::<S, FetchFailure>(refreshed(old, outcome)),
        outcome is Err ==> refreshed(old, outcome) == old,
        outcome matches Ok(s) ==> refreshed(old, outcome) == s,
{
}

} // verus!

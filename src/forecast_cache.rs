use vstd::prelude::*;

use crate::county::County;
use crate::weather_report::{reading_of, WeatherReport, WeatherType};

verus! {

/// The last forecast known for each county. Entries are added or overwritten,
/// never removed.
pub struct ForecastCache {
    entries: Vec<(County, WeatherReport)>,
    model: Ghost<Map<Seq<char>, WeatherReport>>,
}

impl View for ForecastCache {
    type V = Map<Seq<char>, WeatherReport>;

    closed spec fn view(&self) -> Map<Seq<char>, WeatherReport> {
        self.model@
    }
}

/// What `cache` says of `county` on `weather_type`.
pub open spec fn forecast_of(
    cache: Map<Seq<char>, WeatherReport>,
    county: Seq<char>,
    weather_type: WeatherType,
) -> Option<u32> {
    if cache.contains_key(county) {
        Some(reading_of(cache[county], weather_type))
    } else {
        None
    }
}

impl ForecastCache {
    /// The entries hold each county once, and hold exactly the model.
    pub closed spec fn wf(&self) -> bool {
        &&& self.model@.dom().finite()
        &&& self.model@.len() == self.entries@.len()
        &&& forall|i: int|
            0 <= i < self.entries@.len() ==> {
                &&& self.model@.contains_key(#[trigger] self.entries@[i].0@)
                &&& self.model@[self.entries@[i].0@] == self.entries@[i].1
            }
        &&& forall|i: int, j: int|
            0 <= i < j < self.entries@.len() ==> #[trigger] self.entries@[i].0@
                != #[trigger] self.entries@[j].0@
        &&& forall|k: Seq<char>|
            #[trigger] self.model@.contains_key(k) ==> exists|i: int|
                0 <= i < self.entries@.len() && #[trigger] self.entries@[i].0@ == k
    }

    /// An empty cache.
    pub fn new() -> (r: ForecastCache)
        ensures
            r.wf(),
            r@ == Map::<Seq<char>, WeatherReport>::empty(),
    {
        ForecastCache { entries: Vec::new(), model: Ghost(Map::empty()) }
    }

    /// The number of counties with a forecast.
    pub fn len(&self) -> (r: usize)
        requires
            self.wf(),
        ensures
            r == self@.len(),
    {
        self.entries.len()
    }

    /// Where `county` stands among the entries, if it does.
    fn position(&self, county: &County) -> (r: Option<usize>)
        requires
            self.wf(),
        ensures
            match r {
                Some(i) => i < self.entries@.len() && self.entries@[i as int].0@ == county@,
                None => !self@.contains_key(county@),
            },
    {
        let mut i: usize = 0;
        while i < self.entries.len()
            invariant
                self.wf(),
                0 <= i <= self.entries@.len(),
                forall|j: int| 0 <= j < i ==> self.entries@[j].0@ != county@,
            decreases self.entries@.len() - i,
        {
            if self.entries[i].0 == *county {
                return Some(i);
            }
            i = i + 1;
        }
        None
    }

    /// The forecast known for `county`, if any.
    pub fn get(&self, county: &County) -> (r: Option<WeatherReport>)
        requires
            self.wf(),
        ensures
            r == (if self@.contains_key(county@) { Some(self@[county@]) } else { None }),
    {
        match self.position(county) {
            Some(i) => Some(self.entries[i].1),
            None => None,
        }
    }

    /// The reading known for `county` on `weather_type`, if any.
    pub fn forecast_for(&self, county: &County, weather_type: WeatherType) -> (r: Option<u32>)
        requires
            self.wf(),
        ensures
            r == forecast_of(self@, county@, weather_type),
    {
        match self.get(county) {
            Some(report) => Some(report.get(weather_type)),
            None => None,
        }
    }

    /// Records `report` as the forecast for `county`, replacing an earlier one.
    pub fn insert(&mut self, county: County, report: WeatherReport)
        requires
            old(self).wf(),
        ensures
            final(self).wf(),
            final(self)@ == old(self)@.insert(county@, report),
    {
        let ghost key = county@;
        match self.position(&county) {
            Some(i) => {
                self.entries.set(i, (county, report));
                self.model = Ghost(self.model@.insert(key, report));
                assert(self.model@.dom() =~= old(self).model@.dom());
                assert forall|k: Seq<char>| #[trigger] self.model@.contains_key(k) implies exists|
                    j: int,
                |
                    0 <= j < self.entries@.len() && #[trigger] self.entries@[j].0@ == k by {
                    assert(old(self).model@.contains_key(k));
                    let j = choose|j: int|
                        0 <= j < old(self).entries@.len() && #[trigger] old(self).entries@[j].0@
                            == k;
                    assert(self.entries@[j].0@ == k);
                }
            },
            None => {
                self.entries.push((county, report));
                self.model = Ghost(self.model@.insert(key, report));
                let ghost n = old(self).entries@.len();
                assert(self.entries@[n as int].0@ == key);
                assert forall|k: Seq<char>| #[trigger] self.model@.contains_key(k) implies exists|
                    j: int,
                |
                    0 <= j < self.entries@.len() && #[trigger] self.entries@[j].0@ == k by {
                    if k != key {
                        let j = choose|j: int|
                            0 <= j < old(self).entries@.len() && #[trigger] old(
                                self,
                            ).entries@[j].0@ == k;
                        assert(self.entries@[j].0@ == k);
                    }
                }
            },
        }
    }
}

/// Storing a forecast for a county that already has one replaces it and
/// leaves the number of counties as it was.
pub proof fn lemma_refetch_keeps_size(
    cache: Map<Seq<char>, WeatherReport>,
    county: Seq<char>,
    report: WeatherReport,
)
    requires
        cache.dom().finite(),
        cache.contains_key(county),
    ensures
        cache.insert(county, report).len() == cache.len(),
        cache.insert(county, report)[county] == report,
{
    assert(cache.insert(county, report).dom() =~= cache.dom());
}

} // verus!

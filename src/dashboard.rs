use vstd::prelude::*;

use crate::county::County;
use crate::forecast_cache::ForecastCache;
use crate::multiplexer::{result_of, ResponseOutcome, ServerResult};
use crate::weather_report::WeatherReport;

verus! {

/// The cache after `result` was merged into it: a forecast is stored under its
/// county; an error or a missing answer changes nothing.
pub open spec fn merge_result(
    cache: Map<Seq<char>, WeatherReport>,
    result: ServerResult,
) -> Map<Seq<char>, WeatherReport> {
    match result {
        ServerResult::Forecast(county, report) => cache.insert(county@, report),
        _ => cache,
    }
}

/// Merges one result from the multiplexer into the cache; returns whether a
/// forecast was stored.
pub fn receive_weather(server_result: ServerResult, county_weather: &mut ForecastCache) -> (r: bool)
    requires
        old(county_weather).wf(),
    ensures
        final(county_weather).wf(),
        final(county_weather)@ == merge_result(old(county_weather)@, server_result),
        r == (server_result is Forecast),
{
    match server_result {
        ServerResult::Forecast(county, report) => {
            county_weather.insert(county, report);
            true
        },
        _ => false,
    }
}

/// The outstanding requests and the cache after the answers in `answers`
/// (ticket, forecast) came back in that order; an answer under a ticket that
/// is not outstanding is passed over.
pub open spec fn resolve_all(
    outstanding: Map<u64, County>,
    cache: Map<Seq<char>, WeatherReport>,
    answers: Seq<(u64, WeatherReport)>,
) -> (Map<u64, County>, Map<Seq<char>, WeatherReport>)
    decreases answers.len(),
{
    if answers.len() == 0 {
        (outstanding, cache)
    } else {
        let ticket = answers[0].0;
        if outstanding.contains_key(ticket) {
            resolve_all(
                outstanding.remove(ticket),
                merge_result(
                    cache,
                    result_of(outstanding[ticket], ResponseOutcome::Answered(answers[0].1)),
                ),
                answers.drop_first(),
            )
        } else {
            resolve_all(outstanding, cache, answers.drop_first())
        }
    }
}

/// Whether `county` is the county of some request in `outstanding`.
pub open spec fn requested(outstanding: Map<u64, County>, county: Seq<char>) -> bool {
    exists|t: u64| #[trigger] outstanding.contains_key(t) && outstanding[t]@ == county
}

/// When requests for distinct counties are all answered, in any order,
/// nothing is left outstanding, each county holds the forecast that answered
/// its own request, and every other county keeps what it had.
pub proof fn lemma_completion_order_independent(
    outstanding: Map<u64, County>,
    cache: Map<Seq<char>, WeatherReport>,
    answers: Seq<(u64, WeatherReport)>,
)
    requires
        forall|i: int, j: int|
            0 <= i < j < answers.len() ==> #[trigger] answers[i].0 != #[trigger] answers[j].0,
        forall|i: int| 0 <= i < answers.len() ==> outstanding.contains_key(#[trigger] answers[i].0),
        forall|t: u64| #[trigger]
            outstanding.contains_key(t) ==> exists|i: int|
                0 <= i < answers.len() && #[trigger] answers[i].0 == t,
        forall|s: u64, t: u64|
            #[trigger] outstanding.contains_key(s) && #[trigger] outstanding.contains_key(t) && s
                != t ==> outstanding[s]@ != outstanding[t]@,
    ensures
        resolve_all(outstanding, cache, answers).0.dom() == Set::<u64>::empty(),
        forall|i: int|
            0 <= i < answers.len() ==> {
                let county = (#[trigger] outstanding[answers[i].0])@;
                &&& resolve_all(outstanding, cache, answers).1.contains_key(county)
                &&& resolve_all(outstanding, cache, answers).1[county] == answers[i].1
            },
        forall|k: Seq<char>|
            !requested(outstanding, k) ==> {
                &&& (#[trigger] resolve_all(outstanding, cache, answers).1.contains_key(k))
                    == cache.contains_key(k)
                &&& cache.contains_key(k) ==> resolve_all(outstanding, cache, answers).1[k]
                    == cache[k]
            },
    decreases answers.len(),
{
    let result = resolve_all(outstanding, cache, answers);
    if answers.len() == 0 {
        assert(outstanding.dom() =~= Set::<u64>::empty());
    } else {
        let t0 = answers[0].0;
        let county0 = outstanding[t0];
        let o1 = outstanding.remove(t0);
        let c1 = cache.insert(county0@, answers[0].1);
        let rest = answers.drop_first();
        assert(outstanding.contains_key(t0));
        assert(result == resolve_all(o1, c1, rest));
        assert forall|i: int, j: int|
            0 <= i < j < rest.len() implies #[trigger] rest[i].0 != #[trigger] rest[j].0 by {
            assert(rest[i] == answers[i + 1]);
            assert(rest[j] == answers[j + 1]);
        }
        assert forall|i: int| 0 <= i < rest.len() implies o1.contains_key(#[trigger] rest[i].0) by {
            assert(rest[i] == answers[i + 1]);
            assert(outstanding.contains_key(answers[i + 1].0));
        }
        assert forall|t: u64| #[trigger] o1.contains_key(t) implies exists|i: int|
            0 <= i < rest.len() && #[trigger] rest[i].0 == t by {
            assert(outstanding.contains_key(t));
            let i = choose|i: int| 0 <= i < answers.len() && #[trigger] answers[i].0 == t;
            assert(i != 0);
            assert(rest[i - 1] == answers[i]);
        }
        assert forall|s: u64, t: u64|
            #[trigger] o1.contains_key(s) && #[trigger] o1.contains_key(t) && s != t implies o1[s]@
            != o1[t]@ by {
            assert(outstanding.contains_key(s) && outstanding.contains_key(t));
        }
        lemma_completion_order_independent(o1, c1, rest);
        assert(!requested(o1, county0@)) by {
            if requested(o1, county0@) {
                let t = choose|t: u64| #[trigger] o1.contains_key(t) && o1[t]@ == county0@;
                assert(outstanding.contains_key(t) && t != t0);
            }
        }
        assert forall|i: int| 0 <= i < answers.len() implies {
            let county = (#[trigger] outstanding[answers[i].0])@;
            &&& result.1.contains_key(county)
            &&& result.1[county] == answers[i].1
        } by {
            if i == 0 {
                assert(c1.contains_key(county0@));
            } else {
                assert(rest[i - 1] == answers[i]);
                assert(o1.contains_key(rest[i - 1].0));
                assert(o1[rest[i - 1].0] == outstanding[answers[i].0]);
            }
        }
        assert forall|k: Seq<char>| !requested(outstanding, k) implies {
            &&& (#[trigger] result.1.contains_key(k)) == cache.contains_key(k)
            &&& cache.contains_key(k) ==> result.1[k] == cache[k]
        } by {
            assert(k != county0@);
            if requested(o1, k) {
                let t = choose|t: u64| #[trigger] o1.contains_key(t) && o1[t]@ == k;
                assert(outstanding.contains_key(t));
            }
        }
    }
}

/// A request whose response slot is dropped leaves flight, is reported
/// as having no answer, and leaves the cache as it was.
pub proof fn lemma_dropped_response_changes_nothing(
    outstanding: Map<u64, County>,
    cache: Map<Seq<char>, WeatherReport>,
    ticket: u64,
)
    requires
        outstanding.dom().finite(),
        outstanding.contains_key(ticket),
    ensures
        result_of(outstanding[ticket], ResponseOutcome::Dropped) == ServerResult::NoAnswer(
            outstanding[ticket],
        ),
        merge_result(cache, result_of(outstanding[ticket], ResponseOutcome::Dropped)) == cache,
        !outstanding.remove(ticket).contains_key(ticket),
        outstanding.remove(ticket).len() + 1 == outstanding.len(),
{
}

} // verus!

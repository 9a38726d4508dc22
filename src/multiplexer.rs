use vstd::prelude::*;

use crate::county::County;
use crate::weather_report::WeatherReport;

verus! {

/// An error that the server reported instead of a forecast.
#[derive(Clone, Debug, PartialEq, Eq)]
pub struct ServerError {
    pub message: String,
}

/// How the response slot of one request was resolved.
#[derive(Clone, Debug, PartialEq, Eq)]
pub enum ResponseOutcome {
    /// The server sent a forecast.
    Answered(WeatherReport),
    /// The server sent an error.
    Failed(ServerError),
    /// The slot was dropped without a value: the connection was lost.
    Dropped,
}

/// What the multiplexer hands on for one finished request.
#[derive(Clone, Debug, PartialEq, Eq)]
pub enum ServerResult {
    Forecast(County, WeatherReport),
    ServerFailure(County, ServerError),
    NoAnswer(County),
}

/// One thing that happens to the multiplexer.
#[derive(Clone, Debug, PartialEq, Eq)]
pub enum MultiplexerEvent {
    /// The dashboard asked for a county's forecast.
    Submitted(County),
    /// The response slot of the request with this ticket was resolved.
    Resolved(u64, ResponseOutcome),
    /// The dashboard will submit nothing more.
    SubmissionsClosed,
}

/// What the multiplexer asks its driver to do after an event.
#[derive(Clone, Debug, PartialEq, Eq)]
pub enum MultiplexerAction {
    /// Send the county to the connection, with a fresh response slot that
    /// resolves under this ticket.
    SendCommand(u64, County),
    /// Hand this result to the dashboard.
    Deliver(ServerResult),
    /// No ticket is left for this county; it is not sent.
    Refuse(County),
    /// Nothing to do.
    Idle,
}

/// The result handed on when the request for `county` resolved as `outcome`.
pub open spec fn result_of(county: County, outcome: ResponseOutcome) -> ServerResult {
    match outcome {
        ResponseOutcome::Answered(report) => ServerResult::Forecast(county, report),
        ResponseOutcome::Failed(error) => ServerResult::ServerFailure(county, error),
        ResponseOutcome::Dropped => ServerResult::NoAnswer(county),
    }
}

/// A request that was sent and has not been resolved.
#[derive(Clone, Debug, PartialEq, Eq)]
pub struct PendingRequest {
    pub ticket: u64,
    pub county: County,
}

/// Matches responses to the requests they answer, however many are in flight
/// and in whatever order they finish.
pub struct Multiplexer {
    pending: Vec<PendingRequest>,
    next_ticket: u64,
    submissions_closed: bool,
    model: Ghost<Map<u64, County>>,
}

impl Multiplexer {
    /// The requests in flight, by ticket.
    pub closed spec fn outstanding(&self) -> Map<u64, County> {
        self.model@
    }

    /// The ticket that the next request gets.
    pub closed spec fn next_ticket_spec(&self) -> u64 {
        self.next_ticket
    }

    /// Whether the dashboard has stopped submitting.
    pub closed spec fn closed_spec(&self) -> bool {
        self.submissions_closed
    }

    /// Each request in flight is held once, under a ticket below the next one.
    pub closed spec fn wf(&self) -> bool {
        &&& forall|i: int|
            0 <= i < self.pending@.len() ==> {
                &&& self.model@.contains_key(#[trigger] self.pending@[i].ticket)
                &&& self.model@[self.pending@[i].ticket] == self.pending@[i].county
            }
        &&& forall|i: int, j: int|
            0 <= i < j < self.pending@.len() ==> #[trigger] self.pending@[i].ticket
                != #[trigger] self.pending@[j].ticket
        &&& forall|t: u64|
            #[trigger] self.model@.contains_key(t) ==> t < self.next_ticket && exists|i: int|
                0 <= i < self.pending@.len() && #[trigger] self.pending@[i].ticket == t
    }

    /// A multiplexer with nothing in flight.
    pub fn new() -> (r: Multiplexer)
        ensures
            r.wf(),
            r.outstanding() == Map::<u64, County>::empty(),
            r.next_ticket_spec() == 0,
            !r.closed_spec(),
    {
        Multiplexer {
            pending: Vec::new(),
            next_ticket: 0,
            submissions_closed: false,
            model: Ghost(Map::empty()),
        }
    }

    /// The number of requests in flight.
    pub fn outstanding_count(&self) -> (r: usize)
        requires
            self.wf(),
        ensures
            r == 0 <==> self.outstanding() == Map::<u64, County>::empty(),
    {
        if self.pending.len() > 0 {
            assert(self.model@.contains_key(self.pending@[0].ticket));
        } else {
            assert(self.model@ =~= Map::<u64, County>::empty());
        }
        self.pending.len()
    }

    /// Whether the multiplexer is done: nothing more is submitted and nothing
    /// is in flight.
    pub fn is_finished(&self) -> (r: bool)
        requires
            self.wf(),
        ensures
            r == (self.closed_spec() && self.outstanding() == Map::<u64, County>::empty()),
    {
        let n = self.outstanding_count();
        self.submissions_closed && n == 0
    }

    /// Where the request with `ticket` stands among the pending ones, if it
    /// does.
    fn position(&self, ticket: u64) -> (r: Option<usize>)
        requires
            self.wf(),
        ensures
            match r {
                Some(i) => i < self.pending@.len() && self.pending@[i as int].ticket == ticket,
                None => !self.outstanding().contains_key(ticket),
            },
    {
        let mut i: usize = 0;
        while i < self.pending.len()
            invariant
                self.wf(),
                0 <= i <= self.pending@.len(),
                forall|j: int| 0 <= j < i ==> self.pending@[j].ticket != ticket,
            decreases self.pending@.len() - i,
        {
            if self.pending[i].ticket == ticket {
                return Some(i);
            }
            i = i + 1;
        }
        None
    }

    /// Takes the request with `ticket` out of flight and returns its county.
    fn take(&mut self, ticket: u64) -> (r: Option<County>)
        requires
            old(self).wf(),
        ensures
            final(self).wf(),
            final(self).next_ticket == old(self).next_ticket,
            final(self).submissions_closed == old(self).submissions_closed,
            if old(self).outstanding().contains_key(ticket) {
                &&& r == Some(old(self).outstanding()[ticket])
                &&& final(self).outstanding() == old(self).outstanding().remove(ticket)
            } else {
                &&& r is None
                &&& final(self).outstanding() == old(self).outstanding()
            },
    {
        match self.position(ticket) {
            None => None,
            Some(i) => {
                let ghost before = self.pending@;
                let request = self.pending.remove(i);
                self.model = Ghost(self.model@.remove(ticket));
                assert forall|j: int|
                    0 <= j < self.pending@.len() implies self.model@.contains_key(
                    #[trigger] self.pending@[j].ticket,
                ) && self.model@[self.pending@[j].ticket] == self.pending@[j].county by {
                    if j < i {
                        assert(self.pending@[j] == before[j]);
                    } else {
                        assert(self.pending@[j] == before[j + 1]);
                    }
                }
                assert forall|a: int, b: int|
                    0 <= a < b < self.pending@.len() implies #[trigger] self.pending@[a].ticket
                    != #[trigger] self.pending@[b].ticket by {
                    let a0 = if a < i { a } else { a + 1 };
                    let b0 = if b < i { b } else { b + 1 };
                    assert(self.pending@[a] == before[a0]);
                    assert(self.pending@[b] == before[b0]);
                }
                assert forall|t: u64| #[trigger] self.model@.contains_key(t) implies t
                    < self.next_ticket && exists|j: int|
                    0 <= j < self.pending@.len() && #[trigger] self.pending@[j].ticket == t by {
                    let k = choose|k: int|
                        0 <= k < before.len() && #[trigger] before[k].ticket == t;
                    assert(k != i);
                    if k < i {
                        assert(self.pending@[k] == before[k]);
                    } else {
                        assert(self.pending@[k - 1] == before[k]);
                    }
                }
                Some(request.county)
            },
        }
    }

    /// Handles one event and says what to do next.
    pub fn step(&mut self, event: MultiplexerEvent) -> (r: MultiplexerAction)
        requires
            old(self).wf(),
        ensures
            final(self).wf(),
            match event {
                MultiplexerEvent::Submitted(county) => if old(self).next_ticket_spec() < u64::MAX {
                    &&& r == MultiplexerAction::SendCommand(old(self).next_ticket_spec(), county)
                    &&& final(self).outstanding() == old(self).outstanding().insert(
                        old(self).next_ticket_spec(),
                        county,
                    )
                    &&& final(self).next_ticket_spec() == old(self).next_ticket_spec() + 1
                    &&& final(self).closed_spec() == old(self).closed_spec()
                } else {
                    &&& r == MultiplexerAction::Refuse(county)
                    &&& final(self).outstanding() == old(self).outstanding()
                    &&& final(self).next_ticket_spec() == old(self).next_ticket_spec()
                    &&& final(self).closed_spec() == old(self).closed_spec()
                },
                MultiplexerEvent::Resolved(ticket, outcome) => {
                    &&& final(self).next_ticket_spec() == old(self).next_ticket_spec()
                    &&& final(self).closed_spec() == old(self).closed_spec()
                    &&& if old(self).outstanding().contains_key(ticket) {
                        &&& r == MultiplexerAction::Deliver(
                            result_of(old(self).outstanding()[ticket], outcome),
                        )
                        &&& final(self).outstanding() == old(self).outstanding().remove(ticket)
                    } else {
                        &&& r == MultiplexerAction::Idle
                        &&& final(self).outstanding() == old(self).outstanding()
                    }
                },
                MultiplexerEvent::SubmissionsClosed => {
                    &&& r == MultiplexerAction::Idle
                    &&& final(self).outstanding() == old(self).outstanding()
                    &&& final(self).next_ticket_spec() == old(self).next_ticket_spec()
                    &&& final(self).closed_spec()
                },
            },
    {
        match event {
            MultiplexerEvent::Submitted(county) => {
                if self.next_ticket == u64::MAX {
                    return MultiplexerAction::Refuse(county);
                }
                let ticket = self.next_ticket;
                let ghost before = self.pending@;
                self.pending.push(PendingRequest { ticket, county: county.clone() });
                self.model = Ghost(self.model@.insert(ticket, county));
                self.next_ticket = ticket + 1;
                assert(self.pending@[before.len() as int].ticket == ticket);
                assert forall|t: u64| #[trigger] self.model@.contains_key(t) implies t
                    < self.next_ticket && exists|j: int|
                    0 <= j < self.pending@.len() && #[trigger] self.pending@[j].ticket == t by {
                    if t != ticket {
                        let k = choose|k: int|
                            0 <= k < before.len() && #[trigger] before[k].ticket == t;
                        assert(self.pending@[k] == before[k]);
                    }
                }
                MultiplexerAction::SendCommand(ticket, county)
            },
            MultiplexerEvent::Resolved(ticket, outcome) => {
                match self.take(ticket) {
                    Some(county) => MultiplexerAction::Deliver(
                        match outcome {
                            ResponseOutcome::Answered(report) => ServerResult::Forecast(
                                county,
                                report,
                            ),
                            ResponseOutcome::Failed(error) => ServerResult::ServerFailure(
                                county,
                                error,
                            ),
                            ResponseOutcome::Dropped => ServerResult::NoAnswer(county),
                        },
                    ),
                    None => MultiplexerAction::Idle,
                }
            },
            MultiplexerEvent::SubmissionsClosed => {
                self.submissions_closed = true;
                MultiplexerAction::Idle
            },
        }
    }
}

} // verus!

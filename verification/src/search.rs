//! The visual/text search loop: a state machine over wall-clock time.
//!
//! A search walks a fixed order of (screen, candidate) pairs — screens in
//! driver-reported order (or the one explicit screen), candidates in
//! caller-supplied order — issuing one search request per pair.  The first
//! pair whose response holds a match wins; an empty response advances to the
//! next pair, wrapping into a new pass, until the deadline passes.  The
//! caller owns the socket and the clock: it issues the request this machine
//! names, then hands the response and the current time back to
//! [`SearchLoop::on_response`].
//!
//! The deadline is re-checked after every response, never mid-flight, so an
//! in-flight request cannot be aborted: a search may run past its deadline by
//! up to one round trip, and no more.

use vstd::prelude::*;

use crate::geom::BoundingRectangle;
use crate::geom::Point;
use crate::screen::Screen;
use crate::screen::normalize;
use crate::screen::spec_normalize_x;
use crate::screen::spec_normalize_y;

verus! {

/// What a search is looking for; named by the timeout error it can raise.
#[derive(Clone, Copy, Debug, PartialEq, Eq, Structural)]
pub enum SearchKind {
    Image,
    Text,
}

/// What the machine decides after one response.
#[derive(Clone, Copy, Debug, PartialEq, Eq, Structural)]
pub enum SearchStep {
    /// The current pair matched: the search is over, and no request is
    /// issued for any later pair.
    Found(Point),
    /// No match and the deadline has passed: the search fails.
    TimedOut,
    /// No match and time remains: issue the next request.
    Continue,
}

/// The shape of a [`SearchStep`], without the found point: what the machine
/// decided after one response.
#[derive(Clone, Copy, Debug, PartialEq, Eq, Structural)]
pub enum SearchDecision {
    Found,
    TimedOut,
    Continue,
}

/// One in-progress search over `n_screens * n_candidates` pairs.
#[derive(Clone, Copy, Debug, PartialEq, Eq, Structural)]
pub struct SearchLoop {
    pub kind: SearchKind,
    pub n_screens: usize,
    pub n_candidates: usize,
    pub deadline_millis: u64,
    pub screen_idx: usize,
    pub candidate_idx: usize,
}

impl SearchLoop {
    /// The indexes stay inside the pair grid, which is never empty.
    pub open spec fn wf(self) -> bool {
        &&& 1 <= self.n_screens
        &&& 1 <= self.n_candidates
        &&& self.screen_idx < self.n_screens
        &&& self.candidate_idx < self.n_candidates
    }

    /// The pair after `self`'s current one, candidates innermost, wrapping
    /// into a new pass after the last pair.
    pub open spec fn spec_next_pair(self) -> (int, int) {
        if self.candidate_idx + 1 < self.n_candidates {
            (self.screen_idx as int, self.candidate_idx + 1)
        } else if self.screen_idx + 1 < self.n_screens {
            (self.screen_idx + 1, 0)
        } else {
            (0, 0)
        }
    }

    /// Starts a search at the first (screen, candidate) pair.
    pub fn new(kind: SearchKind, n_screens: usize, n_candidates: usize, deadline_millis: u64) -> (r:
        SearchLoop)
        requires
            1 <= n_screens,
            1 <= n_candidates,
        ensures
            r == (SearchLoop {
                kind,
                n_screens,
                n_candidates,
                deadline_millis,
                screen_idx: 0,
                candidate_idx: 0,
            }),
            r.wf(),
    {
        SearchLoop { kind, n_screens, n_candidates, deadline_millis, screen_idx: 0, candidate_idx: 0 }
    }

    /// The screen index of the request to issue next.
    pub fn current_screen(&self) -> (r: usize)
        ensures
            r == self.screen_idx,
    {
        self.screen_idx
    }

    /// The candidate index of the request to issue next.
    pub fn current_candidate(&self) -> (r: usize)
        ensures
            r == self.candidate_idx,
    {
        self.candidate_idx
    }

    /// What the machine decides when the current pair's response holds a
    /// match (`matched`) or not, at time `now`: the first matching pair ends
    /// the search; an empty response past the deadline times it out; an
    /// empty response before the deadline carries on.
    pub open spec fn spec_decision(self, matched: bool, now: u64) -> SearchDecision {
        if matched {
            SearchDecision::Found
        } else if now >= self.deadline_millis {
            SearchDecision::TimedOut
        } else {
            SearchDecision::Continue
        }
    }

    /// The machine after the decision: unchanged unless the search carries
    /// on, in which case it stands at the next pair.
    pub open spec fn spec_after(self, matched: bool, now: u64) -> SearchLoop {
        if self.spec_decision(matched, now) == SearchDecision::Continue {
            SearchLoop {
                screen_idx: self.spec_next_pair().0 as usize,
                candidate_idx: self.spec_next_pair().1 as usize,
                ..self
            }
        } else {
            self
        }
    }

    /// Settles the response for the current pair: the caller hands in the
    /// screen it searched, the locations the driver returned, and the
    /// current time.
    ///
    /// On a match the result carries the best match — the last element, the
    /// list being ordered by ascending confidence — normalized to an
    /// absolute logical point, and the caller issues no request for any
    /// later pair.  On an empty list the machine either times out (the
    /// deadline passed) or names the next pair.
    pub fn on_response(
        &mut self,
        screen: &Screen,
        locations: &Vec<BoundingRectangle>,
        now_millis: u64,
    ) -> (r: SearchStep)
        requires
            old(self).wf(),
            screen@.wf(),
            forall|i: int| 0 <= i < locations@.len() ==> locations@[i].wf(),
        ensures
            *final(self) == old(self).spec_after(locations@.len() > 0, now_millis),
            final(self).wf(),
            match r {
                SearchStep::Found(p) => {
                    &&& old(self).spec_decision(locations@.len() > 0, now_millis)
                        == SearchDecision::Found
                    &&& p.x == spec_normalize_x(screen@, locations@.last())
                    &&& p.y == spec_normalize_y(screen@, locations@.last())
                },
                SearchStep::TimedOut => old(self).spec_decision(locations@.len() > 0, now_millis)
                    == SearchDecision::TimedOut,
                SearchStep::Continue => old(self).spec_decision(locations@.len() > 0, now_millis)
                    == SearchDecision::Continue,
            },
    {
        match select_match(locations) {
            Some(rect) => SearchStep::Found(normalize(screen, &rect)),
            None => {
                if now_millis >= self.deadline_millis {
                    SearchStep::TimedOut
                } else {
                    if self.candidate_idx + 1 < self.n_candidates {
                        self.candidate_idx = self.candidate_idx + 1;
                    } else if self.screen_idx + 1 < self.n_screens {
                        self.candidate_idx = 0;
                        self.screen_idx = self.screen_idx + 1;
                    } else {
                        self.candidate_idx = 0;
                        self.screen_idx = 0;
                    }
                    SearchStep::Continue
                }
            },
        }
    }
}

/// The search times out exactly when its deadline has passed: an empty
/// response at time `now` ends the search in a timeout when `now` is at or
/// past the deadline — never before it — and carries on otherwise, so the
/// machine never keeps searching past the deadline.  The caller re-checks
/// after each response, so a search overruns its deadline by at most one
/// round trip.
pub proof fn lemma_search_deadline(s: SearchLoop, now: u64)
    ensures
        s.spec_decision(false, now) == SearchDecision::TimedOut <==> now >= s.deadline_millis,
        s.spec_decision(false, now) == SearchDecision::Continue <==> now < s.deadline_millis,
        s.spec_decision(false, now) != SearchDecision::Found,
{
}

/// The first (screen, candidate) pair whose response holds a match wins:
/// whatever the time, a matching response ends the search at the current
/// pair, and the machine never names a further pair.
pub proof fn lemma_search_first_match_wins(s: SearchLoop, now: u64)
    ensures
        s.spec_decision(true, now) == SearchDecision::Found,
        s.spec_after(true, now) == s,
{
}

/// The match a response designates: the returned list is ordered by
/// ascending confidence, so the last element is the best match.  `None`
/// exactly when the list is empty.
pub fn select_match(locations: &Vec<BoundingRectangle>) -> (r: Option<BoundingRectangle>)
    ensures
        r is Some <==> locations@.len() > 0,
        r matches Some(rect) ==> rect == locations@.last(),
{
    if locations.len() > 0 {
        Some(locations[locations.len() - 1])
    } else {
        None
    }
}

} // verus!

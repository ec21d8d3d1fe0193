//! The search for the nearest hit among the shapes of a scene.
//!
//! A scene is an ordered collection of shapes without any spatial structure:
//! the search asks one shape after the other. Each shape is asked for a hit
//! inside a window that ends at the nearest hit found so far, so a shape that
//! answers has found a nearer one, and the last answer is the nearest hit of
//! all. The caller intersects the shapes; the window and the bookkeeping are
//! decided here.

use vstd::prelude::*;
use crate::scalar::Scalar;
use crate::interval::Interval;
use crate::ray::Hit;

verus! {

/// The state of a search: the window's lower bound, which stays, its upper
/// bound, which moves in, and the nearest hit so far.
#[derive(Clone, Copy, Debug, PartialEq, Eq, Structural)]
pub struct Scan {
    pub min: Scalar,
    pub closest: Scalar,
    pub hit: Option<Hit>,
}

impl Scan {
    /// The search before any shape was asked.
    pub open spec fn start(hit_interval: Interval) -> Scan {
        Scan { min: hit_interval.min, closest: hit_interval.max, hit: None }
    }

    /// The window in which the next shape is to look.
    pub open spec fn spec_window(&self) -> Interval {
        Interval { min: self.min, max: self.closest }
    }

    /// The search after a shape answered: a hit replaces the nearest so far
    /// and ends the window at its parameter; no hit changes nothing.
    pub open spec fn offered(self, found: Option<Hit>) -> Scan {
        match found {
            Some(hit) => Scan { min: self.min, closest: hit.t, hit: Some(hit) },
            None => self,
        }
    }

    /// The search after the shapes answered one after the other.
    pub open spec fn after(self, answers: Seq<Option<Hit>>) -> Scan
        decreases answers.len(),
    {
        if answers.len() == 0 {
            self
        } else {
            self.after(answers.drop_last()).offered(answers.last())
        }
    }

    /// Whether every hit among the answers lies inside the window that its
    /// shape was asked with.
    pub open spec fn respected(self, answers: Seq<Option<Hit>>) -> bool {
        forall|i: int|
            0 <= i < answers.len() ==> (#[trigger] answers[i] matches Some(hit) ==> self.after(
                answers.take(i),
            ).spec_window().surrounds(hit.t))
    }

    /// Begins a search for hits inside `hit_interval`.
    pub fn new(hit_interval: &Interval) -> (scan: Scan)
        ensures
            scan == Scan::start(*hit_interval),
    {
        Scan { min: hit_interval.min, closest: hit_interval.max, hit: None }
    }

    /// The window in which the next shape is to look: from the lower bound
    /// of the search to the nearest hit so far.
    #[verifier::when_used_as_spec(spec_window)]
    pub fn window(&self) -> (window: Interval)
        ensures
            window == self.spec_window(),
    {
        Interval::new(self.min, self.closest)
    }

    /// Takes a shape's answer. A hit is taken as it comes: that it lies
    /// inside the window is the shape's business.
    pub fn offer(&mut self, found: Option<Hit>)
        ensures
            *final(self) == old(self).offered(found),
    {
        if let Some(hit) = found {
            self.closest = hit.t;
            self.hit = Some(hit);
        }
    }

    /// The nearest hit, if any shape answered with one.
    pub fn finish(self) -> (hit: Option<Hit>)
        ensures
            hit == self.hit,
    {
        self.hit
    }
}

/// A search gives the last hit that a shape answered with, and none where
/// none did; in a scene without shapes no ray hits anything.
pub proof fn lemma_last_answer(hit_interval: Interval, answers: Seq<Option<Hit>>)
    ensures
        Scan::start(hit_interval).after(answers).min == hit_interval.min,
        Scan::start(hit_interval).after(answers).hit is None <==> forall|i: int|
            0 <= i < answers.len() ==> #[trigger] answers[i] is None,
        Scan::start(hit_interval).after(answers).hit matches Some(hit) ==> Scan::start(
            hit_interval,
        ).after(answers).closest == hit.t && exists|i: int|
            0 <= i < answers.len() && #[trigger] answers[i] == Some(hit) && forall|j: int|
                i < j < answers.len() ==> #[trigger] answers[j] is None,
        Scan::start(hit_interval).after(answers).hit is None ==> Scan::start(hit_interval).after(
            answers,
        ).closest == hit_interval.max,
    decreases answers.len(),
{
    let begin = Scan::start(hit_interval);
    if answers.len() > 0 {
        let front = answers.drop_last();
        lemma_last_answer(hit_interval, front);
        assert forall|i: int| 0 <= i < front.len() implies front[i] == answers[i] by {}
        match answers.last() {
            Some(hit) => {
                assert(answers[answers.len() - 1] == Some(hit));
            },
            None => {
                match begin.after(front).hit {
                    Some(hit) => {
                        let i = choose|i: int|
                            0 <= i < front.len() && #[trigger] front[i] == Some(hit) && forall|j: int|
                                i < j < front.len() ==> #[trigger] front[j] is None;
                        assert(answers[i] == Some(hit));
                        assert forall|j: int| i < j < answers.len() implies #[trigger] answers[j] is None by {
                            if j < front.len() {
                                assert(front[j] is None);
                            }
                        }
                    },
                    None => {
                        assert forall|i: int| 0 <= i < answers.len() implies #[trigger] answers[i] is None by {
                            if i < front.len() {
                                assert(front[i] is None);
                            }
                        }
                    },
                }
            },
        }
    }
}

/// The nearest hit wins, whatever the order of the shapes: where every shape
/// kept to the window it was asked with, the hit that the search gives lies
/// inside the interval that the search began with, and no shape answered
/// with a hit nearer than it.
pub proof fn lemma_nearest_wins(hit_interval: Interval, answers: Seq<Option<Hit>>)
    requires
        Scan::start(hit_interval).respected(answers),
    ensures
        Scan::start(hit_interval).after(answers).hit matches Some(nearest) ==> hit_interval.surrounds(
            nearest.t,
        ) && forall|i: int|
            0 <= i < answers.len() ==> (#[trigger] answers[i] matches Some(other)
                ==> nearest.t.at_most(other.t)),
    decreases answers.len(),
{
    let begin = Scan::start(hit_interval);
    if answers.len() > 0 {
        let front = answers.drop_last();
        assert forall|i: int| 0 <= i < front.len() implies front[i] == answers[i] by {}
        assert(begin.respected(front)) by {
            assert forall|i: int| 0 <= i < front.len() implies (#[trigger] front[i] matches Some(
                hit,
            ) ==> begin.after(front.take(i)).spec_window().surrounds(hit.t)) by {
                assert(front.take(i) =~= answers.take(i));
                assert(front[i] == answers[i]);
            }
        }
        lemma_nearest_wins(hit_interval, front);
        lemma_last_answer(hit_interval, front);
        let before = begin.after(front);
        match answers.last() {
            Some(hit) => {
                let last = answers.len() - 1;
                assert(answers.take(last) =~= front);
                assert(answers[last] == Some(hit));
                assert(before.spec_window().surrounds(hit.t));
                assert forall|i: int| 0 <= i < answers.len() implies (
                #[trigger] answers[i] matches Some(other) ==> hit.t.at_most(other.t)) by {
                    if i < last {
                        assert(front[i] == answers[i]);
                    }
                }
            },
            None => {
                assert forall|i: int| 0 <= i < answers.len() implies (
                #[trigger] answers[i] matches Some(other) ==> before.hit matches Some(nearest)
                    && nearest.t.at_most(other.t)) by {
                    if i < front.len() {
                        assert(front[i] == answers[i]);
                    }
                }
            },
        }
    }
}

} // verus!

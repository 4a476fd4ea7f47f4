//! The quiz session state machine: round pool management, randomized round
//! selection without replacement, guess evaluation, scoring, and round
//! transitions.
//!
//! A session moves through the states `NotStarted -> InRound ->
//! (RoundComplete <-> InRound) -> SessionComplete`. Starting a quiz draws a
//! fresh random sample of distinct cities from the catalog; each submitted
//! guess is scored against the active target; advancing pops the next target
//! from the pool or completes the session when the pool is exhausted.

use vstd::prelude::*;

use crate::catalog::{CityCatalog, MAX_CATALOG_LEN};
use crate::evaluate::{eval_spec, evaluate};
use crate::types::{guess_in_bounds, CityRecord, GameState, GeoError, GuessType, Score};
use crate::MAX_POINTS;

verus! {

/// True when no two elements of the sequence are equal.
pub open spec fn distinct_seq<A>(s: Seq<A>) -> bool {
    forall|i: int, j: int| 0 <= i < j < s.len() ==> s[i] != s[j]
}

/// Relies on rand::seq::index::sample: draws exactly `amount` distinct
/// indices from `0..length`, uniformly without replacement; it panics when
/// `amount` exceeds `length`, which the precondition rules out.
#[verifier::external_body]
fn sample_indices(length: usize, amount: usize) -> (r: Vec<usize>)
    requires
        amount <= length,
    ensures
        r@.len() == amount,
        forall|i: int| 0 <= i < r@.len() ==> #[trigger] r@[i] < length,
        forall|i: int, j: int| 0 <= i < j < r@.len() ==> r@[i] != r@[j],
{
    let mut rng = rand::rng();
    rand::seq::index::sample(&mut rng, length, amount).into_vec()
}

/// A quiz in progress: the catalog, the pool of rounds still to be played,
/// the active target, the accumulated score, and the lifecycle state.
#[derive(Debug)]
pub struct QuizSession {
    catalog: CityCatalog,
    /// Indices into the catalog of the rounds still to come; the next target
    /// is popped from the end.
    pool: Vec<usize>,
    /// Index of the city currently being guessed, while a round is open.
    active: Option<usize>,
    score: Score,
    state: GameState,
}

impl QuizSession {
    /// The lifecycle state of the session.
    pub closed spec fn spec_state(&self) -> GameState {
        self.state
    }

    /// The accumulated score of the session.
    pub closed spec fn spec_score(&self) -> Score {
        self.score
    }

    /// The catalog the session quizzes over.
    pub closed spec fn catalog_records(&self) -> Seq<CityRecord> {
        self.catalog@
    }

    /// Catalog indices of the rounds still to come.
    pub closed spec fn pool_idxs(&self) -> Seq<usize> {
        self.pool@
    }

    /// How many rounds besides the active one remain.
    pub open spec fn pool_len(&self) -> nat {
        self.pool_idxs().len()
    }

    /// Catalog indices of the rounds still to come together with the active
    /// target, if any.
    pub closed spec fn drawn_idxs(&self) -> Seq<usize> {
        match self.active {
            Some(i) => self.pool_idxs().push(i),
            None => self.pool_idxs(),
        }
    }

    /// The city currently being guessed, while a round is open.
    pub closed spec fn spec_target(&self) -> Option<CityRecord> {
        match self.active {
            Some(i) => Some(self.catalog@[i as int]),
            None => None,
        }
    }

    /// The cities of the rounds still to come, in pool order.
    pub open spec fn pool_records(&self) -> Seq<CityRecord> {
        self.pool_idxs().map_values(|v: usize| self.catalog_records()[v as int])
    }

    /// The cities of the rounds still to come together with the active
    /// target, if any.
    pub open spec fn drawn_records(&self) -> Seq<CityRecord> {
        self.drawn_idxs().map_values(|v: usize| self.catalog_records()[v as int])
    }

    /// Consistency of a session: the catalog is valid; the drawn indices are
    /// in range and pairwise distinct (sampling without replacement); a
    /// target is active exactly while a round is in progress; a session not
    /// yet started has an empty pool and a zero score; the earned score
    /// never exceeds the available score; and the score stays far from the
    /// integer limit.
    pub closed spec fn wf(&self) -> bool {
        &&& self.catalog.wf()
        &&& forall|k: int|
            0 <= k < self.drawn_idxs().len() ==> (#[trigger] self.drawn_idxs()[k])
                < self.catalog@.len()
        &&& distinct_seq(self.drawn_idxs())
        &&& (self.state is InRound <==> self.active is Some)
        &&& (self.state is NotStarted ==> self.pool@.len() == 0 && self.score == (Score {
            total: 0,
            max: 0,
        }))
        &&& self.score.total <= self.score.max
        &&& self.score.max as int + MAX_POINTS as int * self.drawn_idxs().len() <= MAX_POINTS as int
            * MAX_CATALOG_LEN as int
    }

    /// Create a session over a catalog; no round is started yet.
    pub fn new(catalog: CityCatalog) -> (s: Self)
        requires
            catalog.wf(),
        ensures
            s.wf(),
            s.spec_state() == GameState::NotStarted,
            s.catalog_records() == catalog@,
            s.spec_score() == (Score { total: 0, max: 0 }),
            s.spec_target() is None,
            s.pool_len() == 0,
    {
        QuizSession {
            catalog,
            pool: Vec::new(),
            active: None,
            score: Score { total: 0, max: 0 },
            state: GameState::NotStarted,
        }
    }

    /// Begin a fresh quiz: sample `round_size` distinct cities from the
    /// catalog uniformly at random without replacement (clamped to the
    /// catalog size), make one of them the active target, and reset the
    /// score. Rejects a round size of zero and changes nothing in that case.
    pub fn start(&mut self, round_size: usize) -> (r: Result<(), GeoError>)
        requires
            old(self).wf(),
        ensures
            final(self).wf(),
            final(self).catalog_records() == old(self).catalog_records(),
            round_size == 0 ==> (r matches Err(GeoError::InvalidRoundSize)) && *final(self)
                == *old(self),
            round_size >= 1 ==> ({
                let n = old(self).catalog_records().len() as int;
                let k = if round_size as int <= n {
                    round_size as int
                } else {
                    n
                };
                &&& r is Ok
                &&& final(self).spec_state() == GameState::InRound
                &&& final(self).spec_score() == (Score { total: 0, max: 0 })
                &&& final(self).spec_target() is Some
                &&& final(self).drawn_records().len() == k
                &&& final(self).pool_len() + 1 == k
                &&& forall|kk: int|
                    0 <= kk < final(self).drawn_records().len()
                        ==> old(self).catalog_records().contains(
                        #[trigger] final(self).drawn_records()[kk],
                    )
            }),
    {
        if round_size == 0 {
            return Err(GeoError::InvalidRoundSize);
        }
        let n = self.catalog.len();
        let k = if round_size <= n {
            round_size
        } else {
            n
        };
        let mut idxs = sample_indices(n, k);
        let ghost sampled = idxs@;
        let first = idxs.pop().unwrap();
        self.pool = idxs;
        self.active = Some(first);
        self.score = Score { total: 0, max: 0 };
        self.state = GameState::InRound;
        proof {
            assert(self.drawn_idxs() =~= sampled);
            assert forall|kk: int|
                0 <= kk < self.drawn_records().len() implies self.catalog_records().contains(
                #[trigger] self.drawn_records()[kk],
            ) by {
                let j = self.drawn_idxs()[kk] as int;
                assert(self.drawn_records()[kk] == self.catalog_records()[j]);
            }
        }
        Ok(())
    }

    /// Score a guess against the active target: award the evaluator's points,
    /// add the per-round maximum to the available score, close the round.
    /// While no round is in progress, reports `NoActiveRound` and changes
    /// nothing, the score included.
    pub fn submit_guess(&mut self, guess: &GuessType) -> (r: Result<u32, GeoError>)
        requires
            old(self).wf(),
            guess_in_bounds(*guess),
        ensures
            final(self).wf(),
            final(self).catalog_records() == old(self).catalog_records(),
            !(old(self).spec_state() is InRound) ==> (r matches Err(GeoError::NoActiveRound))
                && *final(self) == *old(self),
            old(self).spec_state() is InRound ==> {
                &&& r matches Ok(p) && p as int == eval_spec(
                    *guess,
                    old(self).spec_target().unwrap(),
                )
                &&& final(self).spec_state() == GameState::RoundComplete
                &&& final(self).spec_target() is None
                &&& final(self).spec_score().total as int == old(self).spec_score().total as int
                    + eval_spec(*guess, old(self).spec_target().unwrap())
                &&& final(self).spec_score().max == old(self).spec_score().max + MAX_POINTS
                &&& final(self).pool_records() == old(self).pool_records()
            },
    {
        match self.state {
            GameState::InRound => {},
            _ => {
                return Err(GeoError::NoActiveRound);
            },
        }
        let i = self.active.unwrap();
        proof {
            assert(self.drawn_idxs().last() == i);
        }
        let target = self.catalog.get(i);
        let pts = evaluate(guess, target);
        self.score = Score { total: self.score.total + pts, max: self.score.max + MAX_POINTS };
        self.active = None;
        self.state = GameState::RoundComplete;
        proof {
            assert(old(self).drawn_idxs() == old(self).pool_idxs().push(i));
            assert(forall|k: int|
                0 <= k < self.pool_idxs().len() ==> self.pool_idxs()[k]
                    == old(self).drawn_idxs()[k]);
        }
        Ok(pts)
    }

    /// Open the next round: pop the next target from the pool, or complete
    /// the session when the pool is exhausted. Valid only once the previous
    /// round was scored.
    pub fn advance_round(&mut self)
        requires
            old(self).wf(),
            old(self).spec_state() is RoundComplete,
        ensures
            final(self).wf(),
            final(self).catalog_records() == old(self).catalog_records(),
            final(self).spec_score() == old(self).spec_score(),
            old(self).pool_len() > 0 ==> {
                &&& final(self).spec_state() == GameState::InRound
                &&& final(self).spec_target() == Some(old(self).pool_records().last())
                &&& final(self).pool_records() == old(self).pool_records().drop_last()
            },
            old(self).pool_len() == 0 ==> {
                &&& final(self).spec_state() == GameState::SessionComplete
                &&& final(self).spec_target() is None
                &&& final(self).pool_len() == 0
            },
    {
        match self.pool.pop() {
            Some(i) => {
                self.active = Some(i);
                self.state = GameState::InRound;
                proof {
                    assert(self.drawn_idxs() =~= old(self).drawn_idxs());
                    assert(self.pool_records() =~= old(self).pool_records().drop_last());
                    assert(old(self).pool_records().last()
                        == old(self).catalog_records()[old(self).pool_idxs().last() as int]);
                }
            },
            None => {
                self.state = GameState::SessionComplete;
            },
        }
    }

    /// The city currently being guessed, for the presentation layer: `Some`
    /// exactly while a round is in progress.
    pub fn current_target(&self) -> (r: Option<&CityRecord>)
        requires
            self.wf(),
        ensures
            match r {
                Some(c) => self.spec_target() == Some(*c),
                None => self.spec_target() is None,
            },
    {
        match &self.active {
            Some(i) => {
                proof {
                    assert(self.drawn_idxs().last() == *i);
                }
                Some(self.catalog.get(*i))
            },
            None => None,
        }
    }

    /// Snapshot of the accumulated score, for the presentation layer.
    pub fn score(&self) -> (s: Score)
        ensures
            s == self.spec_score(),
    {
        self.score
    }

    /// The lifecycle state of the session.
    pub fn state(&self) -> (s: GameState)
        ensures
            s == self.spec_state(),
    {
        self.state
    }
}

/// Law: rounds are sampled without replacement. In a consistent session over
/// a catalog of pairwise-distinct records, the drawn cities (the remaining
/// pool together with the active target) are pairwise distinct, and each is
/// a member of the catalog.
pub proof fn lemma_sampling_without_replacement(s: &QuizSession)
    requires
        s.wf(),
        distinct_seq(s.catalog_records()),
    ensures
        distinct_seq(s.drawn_records()),
        forall|k: int|
            0 <= k < s.drawn_records().len() ==> s.catalog_records().contains(
                #[trigger] s.drawn_records()[k],
            ),
{
    assert forall|i: int, j: int| 0 <= i < j < s.drawn_records().len() implies s.drawn_records()[i]
        != s.drawn_records()[j] by {
        assert(s.drawn_records()[i] == s.catalog_records()[s.drawn_idxs()[i] as int]);
        assert(s.drawn_records()[j] == s.catalog_records()[s.drawn_idxs()[j] as int]);
    }
    assert forall|k: int| 0 <= k < s.drawn_records().len() implies s.catalog_records().contains(
        #[trigger] s.drawn_records()[k],
    ) by {
        let jj = s.drawn_idxs()[k] as int;
        assert(s.drawn_records()[k] == s.catalog_records()[jj]);
    }
}

} // verus!

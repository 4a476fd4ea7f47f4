//! Core of a map-based geography quiz: a Mercator-style projection that
//! places cities on a flat map, a city catalog built from raw survey
//! records, a guess evaluator that scores clicks by proximity and typed
//! names by normalized equality, and the quiz session state machine that
//! draws random rounds and accumulates the score.

pub mod catalog;
pub mod evaluate;
pub mod projection;
pub mod session;
pub mod types;

use vstd::prelude::*;

use crate::catalog::{build_catalog, raw_valid, MAX_CATALOG_LEN};
use crate::session::QuizSession;
use crate::types::{GameState, GeoError, RawCity, Score};

verus! {

/// Scoring ceiling for a single round: a perfect guess earns this many points.
pub const MAX_POINTS: u32 = 100;

/// One-stop assembly of a quiz: builds the catalog from raw dataset records
/// and opens a session over it with the first round already started.
pub struct SetupPlugin {
    /// How many rounds each quiz should have; clamped to the catalog size.
    pub round_size: usize,
}

impl Default for SetupPlugin {
    /// The customary quiz length of ten rounds.
    fn default() -> (s: Self)
        ensures
            s.round_size == 10,
    {
        SetupPlugin { round_size: 10 }
    }
}

impl SetupPlugin {
    /// Assemble the quiz. Fails with `DataLoading` exactly when the records
    /// are unusable, and with `InvalidRoundSize` exactly when the records
    /// are fine but the configured round size is zero; otherwise hands back
    /// a consistent session with a round in progress and a zero score.
    pub fn build(&self, raw: &Vec<RawCity>) -> (r: Result<QuizSession, GeoError>)
        ensures
            ({
                let bad_input = raw@.len() == 0 || raw@.len() > MAX_CATALOG_LEN as int
                    || exists|i: int| 0 <= i < raw@.len() && !raw_valid(#[trigger] raw@[i]);
                match r {
                    Ok(s) => {
                        &&& !bad_input
                        &&& self.round_size >= 1
                        &&& s.wf()
                        &&& s.spec_state() == GameState::InRound
                        &&& s.spec_score() == (Score { total: 0, max: 0 })
                        &&& s.spec_target() is Some
                        &&& s.catalog_records().len() == raw@.len()
                        &&& s.drawn_records().len() == (if self.round_size as int <= raw@.len() {
                            self.round_size as int
                        } else {
                            raw@.len() as int
                        })
                    },
                    Err(e) => {
                        &&& ((e is DataLoading) <==> bad_input)
                        &&& ((e is InvalidRoundSize) <==> (!bad_input && self.round_size == 0))
                        &&& !(e is NoActiveRound)
                    },
                }
            }),
    {
        let catalog = match build_catalog(raw) {
            Ok(c) => c,
            Err(e) => {
                return Err(e);
            },
        };
        let mut session = QuizSession::new(catalog);
        match session.start(self.round_size) {
            Ok(()) => Ok(session),
            Err(e) => Err(e),
        }
    }
}

} // verus!

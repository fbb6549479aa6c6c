//! The per-point lifecycle: setup, optional preparation, measurement,
//! teardown.
//!
//! The machine here decides, step by step, what the sweep does next
//! for one point; the surrounding application code performs each
//! requested phase against the host and reports its outcome. The
//! machine guarantees the ordering contract of the sweep: teardown is
//! performed exactly once for every point whose setup succeeded —
//! even when preparation or measurement fails — and a failure in
//! those phases is still the point's reported error after teardown
//! has run, named with the stage at which it happened. A point whose
//! setup failed is aborted with nothing to tear down.

use vstd::prelude::*;
use crate::errors::Error;

verus! {

/// The stage of the lifecycle at which a failure happened.
#[derive(Clone, Copy, Debug, PartialEq, Eq, Structural)]
pub enum Stage {
    Setup,
    Prep,
    Measure,
    Teardown,
}

/// A failure with the stage at which it happened: the identifying
/// context every propagated error carries upward.
#[derive(Clone, Copy, Debug, PartialEq, Eq, Structural)]
pub struct StageFailure {
    pub stage: Stage,
    pub error: Error,
}

/// Where the lifecycle of one point stands.
#[derive(Clone, Copy, Debug)]
pub enum PointPhase {
    AtSetup,
    AtPrep,
    AtMeasure,
    AtTeardown,
    Finished,
}

/// What the sweep must do next for the point.
#[derive(Clone, Copy, Debug)]
pub enum PointAction {
    RunSetup,
    RunPrep,
    RunMeasure,
    RunTeardown,
    Finish(Result<(), StageFailure>),
}

/// The lifecycle state of one point: the phase, whether a preparation
/// pass is configured, a failure recorded in a run phase and held
/// across teardown, and the final result once finished.
#[derive(Clone, Copy, Debug)]
pub struct PointRun {
    pub phase: PointPhase,
    pub prep_enabled: bool,
    pub pending: Option<StageFailure>,
    pub result: Option<Result<(), StageFailure>>,
}

impl PointRun {
    /// The initial state: about to set up, nothing failed, no result.
    pub open spec fn spec_start(prep_enabled: bool) -> PointRun {
        PointRun { phase: PointPhase::AtSetup, prep_enabled, pending: None, result: None }
    }

    /// The action the current phase asks of the sweep.
    pub open spec fn spec_action(self) -> PointAction {
        match self.phase {
            PointPhase::AtSetup => PointAction::RunSetup,
            PointPhase::AtPrep => PointAction::RunPrep,
            PointPhase::AtMeasure => PointAction::RunMeasure,
            PointPhase::AtTeardown => PointAction::RunTeardown,
            PointPhase::Finished => PointAction::Finish(
                match self.result {
                    Some(r) => r,
                    None => Ok(()),
                },
            ),
        }
    }

    /// The transition taken when the requested phase reports its
    /// outcome. A setup failure aborts the point at once. A
    /// preparation or measurement failure is recorded with its stage
    /// and the machine still moves to teardown; after teardown the
    /// recorded failure — not teardown's own outcome — is the point's
    /// result. Teardown's own failure is surfaced, under its own
    /// stage, only when the phases before it succeeded.
    pub open spec fn spec_next(self, outcome: Result<(), Error>) -> PointRun {
        match self.phase {
            PointPhase::AtSetup => match outcome {
                Ok(_) => PointRun {
                    phase: if self.prep_enabled {
                        PointPhase::AtPrep
                    } else {
                        PointPhase::AtMeasure
                    },
                    ..self
                },
                Err(e) => PointRun {
                    phase: PointPhase::Finished,
                    result: Some(Err(StageFailure { stage: Stage::Setup, error: e })),
                    ..self
                },
            },
            PointPhase::AtPrep => match outcome {
                Ok(_) => PointRun { phase: PointPhase::AtMeasure, ..self },
                Err(e) => PointRun {
                    phase: PointPhase::AtTeardown,
                    pending: Some(StageFailure { stage: Stage::Prep, error: e }),
                    ..self
                },
            },
            PointPhase::AtMeasure => match outcome {
                Ok(_) => PointRun { phase: PointPhase::AtTeardown, pending: None, ..self },
                Err(e) => PointRun {
                    phase: PointPhase::AtTeardown,
                    pending: Some(StageFailure { stage: Stage::Measure, error: e }),
                    ..self
                },
            },
            PointPhase::AtTeardown => PointRun {
                phase: PointPhase::Finished,
                result: Some(
                    match self.pending {
                        Some(f) => Err(f),
                        None => match outcome {
                            Ok(_) => Ok(()),
                            Err(e) => Err(StageFailure { stage: Stage::Teardown, error: e }),
                        },
                    },
                ),
                ..self
            },
            PointPhase::Finished => self,
        }
    }

    /// Begins the lifecycle of one point.
    pub fn start(prep_enabled: bool) -> (r: PointRun)
        ensures
            r == PointRun::spec_start(prep_enabled),
    {
        PointRun { phase: PointPhase::AtSetup, prep_enabled, pending: None, result: None }
    }

    /// Asks what to do next.
    pub fn action(&self) -> (r: PointAction)
        ensures
            r == self.spec_action(),
    {
        match self.phase {
            PointPhase::AtSetup => PointAction::RunSetup,
            PointPhase::AtPrep => PointAction::RunPrep,
            PointPhase::AtMeasure => PointAction::RunMeasure,
            PointPhase::AtTeardown => PointAction::RunTeardown,
            PointPhase::Finished => PointAction::Finish(
                match self.result {
                    Some(r) => r,
                    None => Ok(()),
                },
            ),
        }
    }

    /// Reports the outcome of the phase the machine asked for.
    pub fn report(self, outcome: Result<(), Error>) -> (r: PointRun)
        ensures
            r == self.spec_next(outcome),
    {
        match self.phase {
            PointPhase::AtSetup => match outcome {
                Ok(_) => PointRun {
                    phase: if self.prep_enabled {
                        PointPhase::AtPrep
                    } else {
                        PointPhase::AtMeasure
                    },
                    ..self
                },
                Err(e) => PointRun {
                    phase: PointPhase::Finished,
                    result: Some(Err(StageFailure { stage: Stage::Setup, error: e })),
                    ..self
                },
            },
            PointPhase::AtPrep => match outcome {
                Ok(_) => PointRun { phase: PointPhase::AtMeasure, ..self },
                Err(e) => PointRun {
                    phase: PointPhase::AtTeardown,
                    pending: Some(StageFailure { stage: Stage::Prep, error: e }),
                    ..self
                },
            },
            PointPhase::AtMeasure => match outcome {
                Ok(_) => PointRun { phase: PointPhase::AtTeardown, pending: None, ..self },
                Err(e) => PointRun {
                    phase: PointPhase::AtTeardown,
                    pending: Some(StageFailure { stage: Stage::Measure, error: e }),
                    ..self
                },
            },
            PointPhase::AtTeardown => PointRun {
                phase: PointPhase::Finished,
                result: Some(
                    match self.pending {
                        Some(f) => Err(f),
                        None => match outcome {
                            Ok(_) => Ok(()),
                            Err(e) => Err(StageFailure { stage: Stage::Teardown, error: e }),
                        },
                    },
                ),
                ..self
            },
            PointPhase::Finished => self,
        }
    }
}

/// How many teardowns the machine performs when driven from a state by
/// a sequence of phase outcomes: a teardown is counted each time the
/// teardown phase consumes an outcome.
pub open spec fn spec_teardown_count(s: PointRun, outcomes: Seq<Result<(), Error>>) -> int
    decreases outcomes.len(),
{
    if s.phase is Finished || outcomes.len() == 0 {
        0
    } else {
        (if s.phase is AtTeardown {
            1int
        } else {
            0int
        }) + spec_teardown_count(s.spec_next(outcomes[0]), outcomes.drop_first())
    }
}

/// The point's final result when driven from a state by a sequence of
/// phase outcomes, or nothing if the outcomes run out first.
pub open spec fn spec_final_result(s: PointRun, outcomes: Seq<Result<(), Error>>) -> Option<
    Result<(), StageFailure>,
>
    decreases outcomes.len(),
{
    if s.phase is Finished {
        Some(
            match s.result {
                Some(r) => r,
                None => Ok(()),
            },
        )
    } else if outcomes.len() == 0 {
        None
    } else {
        spec_final_result(s.spec_next(outcomes[0]), outcomes.drop_first())
    }
}

/// Teardown runs exactly once for a point whose setup succeeded —
/// whatever the preparation and measurement outcomes — and never for
/// a point whose setup failed; a preparation or measurement failure
/// is the point's reported result, named with its stage, even though
/// teardown ran after it; and teardown's own outcome, under its own
/// stage, is reported only when every phase before it succeeded.
pub proof fn lemma_teardown_exactly_once(prep: bool, outcomes: Seq<Result<(), Error>>)
    requires
        outcomes.len() >= 4,
    ensures
        outcomes[0] is Ok ==> spec_teardown_count(PointRun::spec_start(prep), outcomes) == 1,
        outcomes[0] is Err ==> spec_teardown_count(PointRun::spec_start(prep), outcomes) == 0,
        outcomes[0] is Err ==> spec_final_result(PointRun::spec_start(prep), outcomes) == Some(
            Err::<(), StageFailure>(
                StageFailure { stage: Stage::Setup, error: outcomes[0]->Err_0 },
            ),
        ),
        outcomes[0] is Ok && prep && outcomes[1] is Err ==> spec_final_result(
            PointRun::spec_start(prep),
            outcomes,
        ) == Some(
            Err::<(), StageFailure>(StageFailure { stage: Stage::Prep, error: outcomes[1]->Err_0 }),
        ),
        outcomes[0] is Ok && prep && outcomes[1] is Ok && outcomes[2] is Err
            ==> spec_final_result(PointRun::spec_start(prep), outcomes) == Some(
            Err::<(), StageFailure>(
                StageFailure { stage: Stage::Measure, error: outcomes[2]->Err_0 },
            ),
        ),
        outcomes[0] is Ok && prep && outcomes[1] is Ok && outcomes[2] is Ok
            ==> spec_final_result(PointRun::spec_start(prep), outcomes) == Some(
            match outcomes[3] {
                Ok(_) => Ok(()),
                Err(e) => Err(StageFailure { stage: Stage::Teardown, error: e }),
            },
        ),
        outcomes[0] is Ok && !prep && outcomes[1] is Err ==> spec_final_result(
            PointRun::spec_start(prep),
            outcomes,
        ) == Some(
            Err::<(), StageFailure>(
                StageFailure { stage: Stage::Measure, error: outcomes[1]->Err_0 },
            ),
        ),
        outcomes[0] is Ok && !prep && outcomes[1] is Ok ==> spec_final_result(
            PointRun::spec_start(prep),
            outcomes,
        ) == Some(
            match outcomes[2] {
                Ok(_) => Ok(()),
                Err(e) => Err(StageFailure { stage: Stage::Teardown, error: e }),
            },
        ),
{
    reveal_with_fuel(spec_teardown_count, 6);
    reveal_with_fuel(spec_final_result, 6);
    let s0 = PointRun::spec_start(prep);
    let t1 = outcomes.drop_first();
    let t2 = t1.drop_first();
    let t3 = t2.drop_first();
    let t4 = t3.drop_first();
    assert(t1.len() == outcomes.len() - 1);
    assert(t2.len() == outcomes.len() - 2);
    assert(t3.len() == outcomes.len() - 3);
    assert(t4.len() == outcomes.len() - 4);
    assert(t1[0] == outcomes[1]);
    assert(t2[0] == outcomes[2]);
    assert(t3[0] == outcomes[3]);
    let s1 = s0.spec_next(outcomes[0]);
    let s2 = s1.spec_next(outcomes[1]);
    let s3 = s2.spec_next(outcomes[2]);
    let s4 = s3.spec_next(outcomes[3]);
    assert(spec_teardown_count(s0, outcomes) == (if s0.phase is AtTeardown {
        1int
    } else {
        0int
    }) + spec_teardown_count(s1, t1));
    if !(s1.phase is Finished) {
        assert(spec_teardown_count(s1, t1) == (if s1.phase is AtTeardown {
            1int
        } else {
            0int
        }) + spec_teardown_count(s2, t2));
        if !(s2.phase is Finished) {
            assert(spec_teardown_count(s2, t2) == (if s2.phase is AtTeardown {
                1int
            } else {
                0int
            }) + spec_teardown_count(s3, t3));
            if !(s3.phase is Finished) {
                assert(spec_teardown_count(s3, t3) == (if s3.phase is AtTeardown {
                    1int
                } else {
                    0int
                }) + spec_teardown_count(s4, t4));
                assert(s4.phase is Finished);
                assert(spec_teardown_count(s4, t4) == 0);
            }
        }
    }
}

} // verus!

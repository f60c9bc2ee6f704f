//! Finite-state controller for the coupled lift/wrist actuator pair.
//!
//! The arm walks the stage cycle `Returning -> Accepting -> Ready -> Scoring
//! -> Releasing -> Returning`. Each stage owns a position setpoint for both
//! actuators, a convergence tolerance pair, and a transition rule; the one
//! escape from the cycle is `Scoring -> Returning` on a `Return` signal.
//!
//! Angles are millidegrees. The hardware boundary samples each motor's last
//! accepted control request and its measured position into a
//! [`MotorFeedback`], hands it to [`Arm::update`] / [`Arm::act`], and
//! dispatches the returned [`ArmCommand`] to the motors; a failed dispatch is
//! non-fatal because the next tick recomputes the same stage output.

use vstd::math::abs;
use vstd::prelude::*;

verus! {

/// Convergence tolerance on the lift while returning or scoring, millidegrees.
pub const LIFT_THRESHOLD: i64 = 4_000;
/// Convergence tolerance on the wrist while returning or scoring, millidegrees.
pub const WRIST_THRESHOLD: i64 = 3_000;
/// Looser wrist tolerance that lets `Ready` hand over early.
pub const READY_WRIST_THRESHOLD: i64 = WRIST_THRESHOLD + 30_000;
/// Loosened lift tolerance for leaving `Releasing`.
pub const RELEASE_LIFT_THRESHOLD: i64 = LIFT_THRESHOLD + 5_000;
/// Loosened wrist tolerance for leaving `Releasing`.
pub const RELEASE_WRIST_THRESHOLD: i64 = WRIST_THRESHOLD + 10_000;

/// Default lift speed cap, motor units.
pub const LIFT_VEL: i32 = 200;
/// Default wrist speed cap, motor units.
pub const WRIST_VEL: i32 = 70;

/// Lift setpoint while accepting a game piece, millidegrees.
pub const ACCEPT_LIFT_POS: i64 = 390_000;
/// Wrist setpoint while accepting a game piece, millidegrees.
pub const ACCEPT_WRIST_POS: i64 = -130_000;
/// Lift setpoint while staged to score, millidegrees.
pub const READY_LIFT_POS: i64 = ACCEPT_LIFT_POS;
/// Wrist setpoint while staged to score, millidegrees.
pub const READY_WRIST_POS: i64 = -50_000;
/// Lift setpoint while scoring, millidegrees.
pub const SCORE_LIFT_POS: i64 = 320_000;
/// Wrist setpoint while scoring, millidegrees.
pub const SCORE_WRIST_POS: i64 = 90_000;
/// Lift setpoint while releasing, millidegrees.
pub const RELEASE_LIFT_POS: i64 = 640_000;
/// Wrist setpoint while releasing, millidegrees.
pub const RELEASE_WRIST_POS: i64 = 100_000;

/// While returning, the wrist must clear this angle before the lift may drop
/// to the accepting height (collision avoidance), millidegrees.
pub const RETURN_WRIST_CLEAR: i64 = 0;
/// While releasing, the wrist stays at the scoring angle until the lift has
/// climbed past this height (collision avoidance), millidegrees.
pub const RELEASE_LIFT_CLEAR: i64 = 590_000;

/// Level-sampled external event input, read once per tick.
#[derive(Clone, Copy, PartialEq, Eq, Structural, Debug)]
pub enum ArmSignal {
    Empty,
    Score,
    Return,
}

/// The control request a motor last accepted, as its feedback reports it.
#[derive(Clone, Copy, PartialEq, Eq, Structural, Debug)]
pub enum MotorTarget {
    /// The motor is holding with a brake behaviour: trivially converged.
    Brake,
    /// The motor is driving toward a position target, millidegrees.
    Position { deg: i64 },
    /// Any other control (velocity, raw voltage): never converged.
    Other,
}

/// One motor's feedback sample: its accepted control request and its measured
/// position in millidegrees. A failed sensor read is represented at the
/// boundary by the defined default reading, not by a fault.
#[derive(Clone, Copy, PartialEq, Eq, Structural, Debug)]
pub struct MotorFeedback {
    pub target: MotorTarget,
    pub position: i64,
}

/// The closed set of stages; exactly one is active at any time.
#[derive(Clone, Copy, PartialEq, Eq, Structural, Debug)]
pub enum ArmStage {
    Returning,
    Accepting,
    Ready,
    Scoring,
    Releasing,
}

/// A position-target request for one motor: setpoint in millidegrees and a
/// speed cap in motor units.
#[derive(Clone, Copy, PartialEq, Eq, Structural, Debug)]
pub struct MotorRequest {
    pub target: i64,
    pub speed: i32,
}

/// The pair of requests a stage issues every tick.
#[derive(Clone, Copy, PartialEq, Eq, Structural, Debug)]
pub struct ArmCommand {
    pub lift: MotorRequest,
    pub wrist: MotorRequest,
}

/// A motor has converged when it brakes, or when it is strictly within
/// `tolerance` of its position target. Feedback exactly at the tolerance
/// boundary does not converge.
pub open spec fn motor_ready_spec(fb: MotorFeedback, tolerance: i64) -> bool {
    match fb.target {
        MotorTarget::Brake => true,
        MotorTarget::Position { deg } => abs(fb.position - deg) < tolerance,
        MotorTarget::Other => false,
    }
}

/// Executable convergence test; total over all feedback values.
pub fn motor_ready(fb: &MotorFeedback, tolerance: i64) -> (r: bool)
    ensures
        r == motor_ready_spec(*fb, tolerance),
{
    match fb.target {
        MotorTarget::Brake => true,
        MotorTarget::Position { deg } => {
            let diff: i128 = fb.position as i128 - deg as i128;
            let mag: i128 = if diff < 0 { -diff } else { diff };
            mag < tolerance as i128
        },
        MotorTarget::Other => false,
    }
}

/// The transition function of the stage graph. Forward steps fire on
/// convergence of both actuators; `Accepting -> Ready` fires only on a
/// `Score` signal; `Scoring -> Returning` fires on a `Return` signal
/// regardless of convergence.
pub open spec fn next_stage(
    stage: ArmStage,
    signal: ArmSignal,
    lift: MotorFeedback,
    wrist: MotorFeedback,
) -> ArmStage {
    match stage {
        ArmStage::Returning => {
            if motor_ready_spec(lift, LIFT_THRESHOLD) && motor_ready_spec(wrist, WRIST_THRESHOLD) {
                ArmStage::Accepting
            } else {
                ArmStage::Returning
            }
        },
        ArmStage::Accepting => {
            if signal is Score {
                ArmStage::Ready
            } else {
                ArmStage::Accepting
            }
        },
        ArmStage::Ready => {
            if motor_ready_spec(wrist, READY_WRIST_THRESHOLD) {
                ArmStage::Scoring
            } else {
                ArmStage::Ready
            }
        },
        ArmStage::Scoring => {
            if signal is Return {
                ArmStage::Returning
            } else if motor_ready_spec(lift, LIFT_THRESHOLD) && motor_ready_spec(
                wrist,
                WRIST_THRESHOLD,
            ) {
                ArmStage::Releasing
            } else {
                ArmStage::Scoring
            }
        },
        ArmStage::Releasing => {
            if motor_ready_spec(lift, RELEASE_LIFT_THRESHOLD) && motor_ready_spec(
                wrist,
                RELEASE_WRIST_THRESHOLD,
            ) {
                ArmStage::Returning
            } else {
                ArmStage::Releasing
            }
        },
    }
}

/// The output each stage commands, given the current measured positions.
/// `Returning` and `Releasing` branch their output (never their transition)
/// on the other axis's position to avoid a collision path.
pub open spec fn stage_output(stage: ArmStage, lift_position: i64, wrist_position: i64) -> ArmCommand {
    match stage {
        ArmStage::Returning => {
            if wrist_position <= RETURN_WRIST_CLEAR {
                ArmCommand {
                    lift: MotorRequest { target: ACCEPT_LIFT_POS, speed: 200 },
                    wrist: MotorRequest { target: ACCEPT_WRIST_POS, speed: 100 },
                }
            } else {
                ArmCommand {
                    lift: MotorRequest { target: RELEASE_LIFT_POS, speed: 200 },
                    wrist: MotorRequest { target: ACCEPT_WRIST_POS, speed: 100 },
                }
            }
        },
        ArmStage::Accepting => ArmCommand {
            lift: MotorRequest { target: ACCEPT_LIFT_POS, speed: LIFT_VEL },
            wrist: MotorRequest { target: ACCEPT_WRIST_POS, speed: WRIST_VEL },
        },
        ArmStage::Ready => ArmCommand {
            lift: MotorRequest { target: READY_LIFT_POS, speed: LIFT_VEL },
            wrist: MotorRequest { target: READY_WRIST_POS, speed: WRIST_VEL },
        },
        ArmStage::Scoring => ArmCommand {
            lift: MotorRequest { target: SCORE_LIFT_POS, speed: LIFT_VEL },
            wrist: MotorRequest { target: SCORE_WRIST_POS, speed: WRIST_VEL },
        },
        ArmStage::Releasing => {
            if lift_position <= RELEASE_LIFT_CLEAR {
                ArmCommand {
                    lift: MotorRequest { target: RELEASE_LIFT_POS, speed: LIFT_VEL },
                    wrist: MotorRequest { target: SCORE_WRIST_POS, speed: 100 },
                }
            } else {
                ArmCommand {
                    lift: MotorRequest { target: RELEASE_LIFT_POS, speed: LIFT_VEL },
                    wrist: MotorRequest { target: RELEASE_WRIST_POS, speed: 100 },
                }
            }
        },
    }
}

/// The display name of a stage.
pub open spec fn stage_name_spec(stage: ArmStage) -> Seq<char> {
    match stage {
        ArmStage::Returning => "returning"@,
        ArmStage::Accepting => "accepting"@,
        ArmStage::Ready => "ready"@,
        ArmStage::Scoring => "scoring"@,
        ArmStage::Releasing => "releasing"@,
    }
}

/// The state machine: owns the single active stage. Transitions are atomic
/// (compute-then-swap); the active stage is observable through
/// [`Arm::state`].
pub struct Arm {
    stage: ArmStage,
}

impl Arm {
    /// The active stage.
    pub closed spec fn current_stage(self) -> ArmStage {
        self.stage
    }

    /// A fresh arm starts in `Returning`, driving toward the accepting pose.
    pub fn new() -> (r: Arm)
        ensures
            r.current_stage() == ArmStage::Returning,
    {
        Arm { stage: ArmStage::Returning }
    }

    /// The position-target pair the active stage commands for the measured
    /// positions. The caller dispatches it to the motors, best-effort.
    pub fn act(&self, lift_position: i64, wrist_position: i64) -> (cmd: ArmCommand)
        ensures
            cmd == stage_output(self.current_stage(), lift_position, wrist_position),
    {
        match self.stage {
            ArmStage::Returning => {
                if wrist_position <= RETURN_WRIST_CLEAR {
                    ArmCommand {
                        lift: MotorRequest { target: ACCEPT_LIFT_POS, speed: 200 },
                        wrist: MotorRequest { target: ACCEPT_WRIST_POS, speed: 100 },
                    }
                } else {
                    ArmCommand {
                        lift: MotorRequest { target: RELEASE_LIFT_POS, speed: 200 },
                        wrist: MotorRequest { target: ACCEPT_WRIST_POS, speed: 100 },
                    }
                }
            },
            ArmStage::Accepting => ArmCommand {
                lift: MotorRequest { target: ACCEPT_LIFT_POS, speed: LIFT_VEL },
                wrist: MotorRequest { target: ACCEPT_WRIST_POS, speed: WRIST_VEL },
            },
            ArmStage::Ready => ArmCommand {
                lift: MotorRequest { target: READY_LIFT_POS, speed: LIFT_VEL },
                wrist: MotorRequest { target: READY_WRIST_POS, speed: WRIST_VEL },
            },
            ArmStage::Scoring => ArmCommand {
                lift: MotorRequest { target: SCORE_LIFT_POS, speed: LIFT_VEL },
                wrist: MotorRequest { target: SCORE_WRIST_POS, speed: WRIST_VEL },
            },
            ArmStage::Releasing => {
                if lift_position <= RELEASE_LIFT_CLEAR {
                    ArmCommand {
                        lift: MotorRequest { target: RELEASE_LIFT_POS, speed: LIFT_VEL },
                        wrist: MotorRequest { target: SCORE_WRIST_POS, speed: 100 },
                    }
                } else {
                    ArmCommand {
                        lift: MotorRequest { target: RELEASE_LIFT_POS, speed: LIFT_VEL },
                        wrist: MotorRequest { target: RELEASE_WRIST_POS, speed: 100 },
                    }
                }
            },
        }
    }

    /// Evaluate the active stage's transition rule against the sampled
    /// feedback and swap in the next stage.
    pub fn update(&mut self, signal: ArmSignal, lift: &MotorFeedback, wrist: &MotorFeedback)
        ensures
            final(self).current_stage() == next_stage(
                old(self).current_stage(),
                signal,
                *lift,
                *wrist,
            ),
    {
        let next = match self.stage {
            ArmStage::Returning => {
                if motor_ready(lift, LIFT_THRESHOLD) && motor_ready(wrist, WRIST_THRESHOLD) {
                    ArmStage::Accepting
                } else {
                    ArmStage::Returning
                }
            },
            ArmStage::Accepting => {
                if matches!(signal, ArmSignal::Score) {
                    ArmStage::Ready
                } else {
                    ArmStage::Accepting
                }
            },
            ArmStage::Ready => {
                if motor_ready(wrist, READY_WRIST_THRESHOLD) {
                    ArmStage::Scoring
                } else {
                    ArmStage::Ready
                }
            },
            ArmStage::Scoring => {
                if matches!(signal, ArmSignal::Return) {
                    ArmStage::Returning
                } else if motor_ready(lift, LIFT_THRESHOLD) && motor_ready(
                    wrist,
                    WRIST_THRESHOLD,
                ) {
                    ArmStage::Releasing
                } else {
                    ArmStage::Scoring
                }
            },
            ArmStage::Releasing => {
                if motor_ready(lift, RELEASE_LIFT_THRESHOLD) && motor_ready(
                    wrist,
                    RELEASE_WRIST_THRESHOLD,
                ) {
                    ArmStage::Returning
                } else {
                    ArmStage::Releasing
                }
            },
        };
        self.stage = next;
    }

    /// The display name of the active stage.
    pub fn state(&self) -> (r: &str)
        ensures
            r@ == stage_name_spec(self.current_stage()),
    {
        match self.stage {
            ArmStage::Returning => "returning",
            ArmStage::Accepting => "accepting",
            ArmStage::Ready => "ready",
            ArmStage::Scoring => "scoring",
            ArmStage::Releasing => "releasing",
        }
    }
}

/// The linear successor of a stage in the cycle.
pub open spec fn cycle_successor(stage: ArmStage) -> ArmStage {
    match stage {
        ArmStage::Returning => ArmStage::Accepting,
        ArmStage::Accepting => ArmStage::Ready,
        ArmStage::Ready => ArmStage::Scoring,
        ArmStage::Scoring => ArmStage::Releasing,
        ArmStage::Releasing => ArmStage::Returning,
    }
}

/// One transition either keeps the active stage, moves to its immediate
/// successor in the cycle, or takes the one escape: `Scoring -> Returning`
/// on a `Return` signal. No transition skips a stage.
pub proof fn lemma_no_stage_skipped(
    stage: ArmStage,
    signal: ArmSignal,
    lift: MotorFeedback,
    wrist: MotorFeedback,
)
    ensures
        next_stage(stage, signal, lift, wrist) == stage || next_stage(stage, signal, lift, wrist)
            == cycle_successor(stage) || (stage is Scoring && signal is Return && next_stage(
            stage,
            signal,
            lift,
            wrist,
        ) is Returning),
{
}

/// `Scoring` is entered only from `Ready` (or kept from `Scoring`).
pub proof fn lemma_scoring_entered_from_ready(
    stage: ArmStage,
    signal: ArmSignal,
    lift: MotorFeedback,
    wrist: MotorFeedback,
)
    requires
        next_stage(stage, signal, lift, wrist) is Scoring,
    ensures
        stage is Ready || stage is Scoring,
{
}

/// `Ready` is entered only from `Accepting`, and only on a `Score` signal
/// (or kept from `Ready`).
pub proof fn lemma_ready_entered_from_accepting(
    stage: ArmStage,
    signal: ArmSignal,
    lift: MotorFeedback,
    wrist: MotorFeedback,
)
    requires
        next_stage(stage, signal, lift, wrist) is Ready,
    ensures
        stage is Accepting || stage is Ready,
        stage is Accepting ==> signal is Score,
{
}

/// While `Scoring`, a `Return` signal forces `Returning` on the very next
/// transition, regardless of convergence.
pub proof fn lemma_scoring_escape(signal: ArmSignal, lift: MotorFeedback, wrist: MotorFeedback)
    requires
        signal is Return,
    ensures
        next_stage(ArmStage::Scoring, signal, lift, wrist) is Returning,
{
}

/// Feedback exactly at `target + tolerance` or `target - tolerance` is not
/// converged: the comparison is strict.
pub proof fn lemma_tolerance_boundary_excluded(fb: MotorFeedback, tolerance: i64)
    requires
        fb.target matches MotorTarget::Position { deg } && (fb.position == deg + tolerance
            || fb.position == deg - tolerance),
    ensures
        !motor_ready_spec(fb, tolerance),
{
}

/// Feedback strictly inside the tolerance band converges; in particular
/// `target + tolerance - 1` and `target - tolerance + 1` do.
pub proof fn lemma_inside_tolerance_converges(fb: MotorFeedback, tolerance: i64)
    requires
        fb.target matches MotorTarget::Position { deg } && deg - tolerance < fb.position < deg
            + tolerance,
    ensures
        motor_ready_spec(fb, tolerance),
{
}

/// One tick's worth of input to the state machine.
#[derive(Clone, Copy, PartialEq, Eq, Structural, Debug)]
pub struct ArmTick {
    pub signal: ArmSignal,
    pub lift: MotorFeedback,
    pub wrist: MotorFeedback,
}

/// The stage reached from `stage` after feeding the machine the given ticks
/// in order.
pub open spec fn run_from(stage: ArmStage, ticks: Seq<ArmTick>) -> ArmStage
    decreases ticks.len(),
{
    if ticks.len() == 0 {
        stage
    } else {
        let prev = run_from(stage, ticks.drop_last());
        next_stage(prev, ticks.last().signal, ticks.last().lift, ticks.last().wrist)
    }
}

/// Any run from `Returning` that ends in `Ready` was in `Accepting` after
/// some proper prefix of the ticks.
pub proof fn lemma_ready_reached_through_accepting(ticks: Seq<ArmTick>)
    requires
        run_from(ArmStage::Returning, ticks) is Ready,
    ensures
        exists|i: int|
            0 <= i < ticks.len() && run_from(ArmStage::Returning, #[trigger] ticks.take(i))
                is Accepting,
    decreases ticks.len(),
{
    let prev = run_from(ArmStage::Returning, ticks.drop_last());
    if prev is Accepting {
        assert(ticks.take(ticks.len() - 1) =~= ticks.drop_last());
        assert(run_from(ArmStage::Returning, ticks.take(ticks.len() - 1)) is Accepting);
    } else {
        lemma_ready_reached_through_accepting(ticks.drop_last());
        let i = choose|i: int|
            0 <= i < ticks.drop_last().len() && run_from(
                ArmStage::Returning,
                #[trigger] ticks.drop_last().take(i),
            ) is Accepting;
        assert(ticks.drop_last().take(i) =~= ticks.take(i));
        assert(run_from(ArmStage::Returning, ticks.take(i)) is Accepting);
    }
}

/// Any run from `Returning` that ends in `Scoring` was in `Ready` after some
/// proper prefix of the ticks.
pub proof fn lemma_scoring_reached_through_ready(ticks: Seq<ArmTick>)
    requires
        run_from(ArmStage::Returning, ticks) is Scoring,
    ensures
        exists|j: int|
            0 <= j < ticks.len() && run_from(ArmStage::Returning, #[trigger] ticks.take(j))
                is Ready,
    decreases ticks.len(),
{
    let prev = run_from(ArmStage::Returning, ticks.drop_last());
    if prev is Ready {
        assert(ticks.take(ticks.len() - 1) =~= ticks.drop_last());
        assert(run_from(ArmStage::Returning, ticks.take(ticks.len() - 1)) is Ready);
    } else {
        lemma_scoring_reached_through_ready(ticks.drop_last());
        let j = choose|j: int|
            0 <= j < ticks.drop_last().len() && run_from(
                ArmStage::Returning,
                #[trigger] ticks.drop_last().take(j),
            ) is Ready;
        assert(ticks.drop_last().take(j) =~= ticks.take(j));
        assert(run_from(ArmStage::Returning, ticks.take(j)) is Ready);
    }
}

/// Reachability in order: a run from `Returning` that ends in `Scoring`
/// passed through `Accepting` and then `Ready` on the way, never skipping
/// either stage.
pub proof fn lemma_scoring_reached_in_order(ticks: Seq<ArmTick>)
    requires
        run_from(ArmStage::Returning, ticks) is Scoring,
    ensures
        exists|i: int, j: int|
            0 <= i < j < ticks.len() && run_from(ArmStage::Returning, #[trigger] ticks.take(i))
                is Accepting && run_from(ArmStage::Returning, #[trigger] ticks.take(j)) is Ready,
{
    lemma_scoring_reached_through_ready(ticks);
    let j = choose|j: int|
        0 <= j < ticks.len() && run_from(ArmStage::Returning, #[trigger] ticks.take(j)) is Ready;
    lemma_ready_reached_through_accepting(ticks.take(j));
    let i = choose|i: int|
        0 <= i < ticks.take(j).len() && run_from(ArmStage::Returning, #[trigger] ticks.take(j).take(i))
            is Accepting;
    assert(ticks.take(j).take(i) =~= ticks.take(i));
    assert(0 <= i < j < ticks.len() && run_from(ArmStage::Returning, ticks.take(i)) is Accepting
        && run_from(ArmStage::Returning, ticks.take(j)) is Ready);
}

} // verus!

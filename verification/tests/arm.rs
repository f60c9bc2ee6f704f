use robot_core::arm::{
    Arm, ArmCommand, ArmSignal, MotorFeedback, MotorTarget, motor_ready, ACCEPT_LIFT_POS,
    ACCEPT_WRIST_POS, LIFT_THRESHOLD, READY_LIFT_POS, READY_WRIST_POS, RELEASE_LIFT_POS,
    RELEASE_WRIST_POS, SCORE_LIFT_POS, SCORE_WRIST_POS, WRIST_THRESHOLD,
};

fn pinned(deg: i64) -> MotorFeedback {
    MotorFeedback { target: MotorTarget::Position { deg }, position: deg }
}

fn off_target(deg: i64, by: i64) -> MotorFeedback {
    MotorFeedback { target: MotorTarget::Position { deg }, position: deg + by }
}

#[test]
fn arm_starts_returning() {
    let arm = Arm::new();
    assert_eq!(arm.state(), "returning");
}

#[test]
fn arm_cycle_never_skips_a_stage() {
    // Monotonically-converging feedback: pinned exactly on target from the
    // start. With no signal the machine must stop at accepting; a score
    // signal moves it through ready, and only then scoring.
    let mut arm = Arm::new();
    let lift = pinned(ACCEPT_LIFT_POS);
    let wrist = pinned(ACCEPT_WRIST_POS);

    arm.update(ArmSignal::Empty, &lift, &wrist);
    assert_eq!(arm.state(), "accepting");

    // No signal: accepting holds no matter how converged the motors are.
    for _ in 0..5 {
        arm.update(ArmSignal::Empty, &lift, &wrist);
        assert_eq!(arm.state(), "accepting");
    }

    arm.update(ArmSignal::Score, &pinned(READY_LIFT_POS), &off_target(READY_WRIST_POS, 40_000));
    assert_eq!(arm.state(), "ready");

    // Wrist still 40 deg off: outside the ready stage's 33 deg window.
    arm.update(ArmSignal::Empty, &pinned(READY_LIFT_POS), &off_target(READY_WRIST_POS, 40_000));
    assert_eq!(arm.state(), "ready");

    arm.update(ArmSignal::Empty, &pinned(READY_LIFT_POS), &pinned(READY_WRIST_POS));
    assert_eq!(arm.state(), "scoring");
}

#[test]
fn arm_full_cycle_returns_home() {
    let mut arm = Arm::new();
    arm.update(ArmSignal::Empty, &pinned(ACCEPT_LIFT_POS), &pinned(ACCEPT_WRIST_POS));
    arm.update(ArmSignal::Score, &pinned(ACCEPT_LIFT_POS), &pinned(ACCEPT_WRIST_POS));
    arm.update(ArmSignal::Empty, &pinned(READY_LIFT_POS), &pinned(READY_WRIST_POS));
    assert_eq!(arm.state(), "scoring");
    arm.update(ArmSignal::Empty, &pinned(SCORE_LIFT_POS), &pinned(SCORE_WRIST_POS));
    assert_eq!(arm.state(), "releasing");
    arm.update(ArmSignal::Empty, &pinned(RELEASE_LIFT_POS), &pinned(RELEASE_WRIST_POS));
    assert_eq!(arm.state(), "returning");
}

#[test]
fn arm_scoring_escape_ignores_convergence() {
    let mut arm = Arm::new();
    arm.update(ArmSignal::Empty, &pinned(ACCEPT_LIFT_POS), &pinned(ACCEPT_WRIST_POS));
    arm.update(ArmSignal::Score, &pinned(ACCEPT_LIFT_POS), &pinned(ACCEPT_WRIST_POS));
    arm.update(ArmSignal::Empty, &pinned(READY_LIFT_POS), &pinned(READY_WRIST_POS));
    assert_eq!(arm.state(), "scoring");

    // Feedback far from every target, and not even position-controlled:
    // the escape must still fire on the very next update.
    let wild = MotorFeedback { target: MotorTarget::Other, position: 9_999_999 };
    arm.update(ArmSignal::Return, &wild, &wild);
    assert_eq!(arm.state(), "returning");
}

#[test]
fn arm_accepting_holds_without_score_signal() {
    let mut arm = Arm::new();
    arm.update(ArmSignal::Empty, &pinned(ACCEPT_LIFT_POS), &pinned(ACCEPT_WRIST_POS));
    assert_eq!(arm.state(), "accepting");
    // A return signal is not a score signal.
    arm.update(ArmSignal::Return, &pinned(ACCEPT_LIFT_POS), &pinned(ACCEPT_WRIST_POS));
    assert_eq!(arm.state(), "accepting");
}

#[test]
fn arm_end_to_end_accepting_to_scoring() {
    // Start in accepting, feedback pinned exactly at the accepting targets.
    let mut arm = Arm::new();
    arm.update(ArmSignal::Empty, &pinned(ACCEPT_LIFT_POS), &pinned(ACCEPT_WRIST_POS));
    assert_eq!(arm.state(), "accepting");

    // Score asserted for a single tick.
    arm.update(ArmSignal::Score, &pinned(ACCEPT_LIFT_POS), &pinned(ACCEPT_WRIST_POS));
    assert_eq!(arm.state(), "ready");

    // Subsequent ticks with no signal, feedback pinned at the ready target.
    arm.update(ArmSignal::Empty, &pinned(READY_LIFT_POS), &pinned(READY_WRIST_POS));
    assert_eq!(arm.state(), "scoring");
}

#[test]
fn arm_tolerance_boundary_is_exclusive() {
    // Exactly at target + tolerance and target - tolerance: not converged.
    assert!(!motor_ready(&off_target(100_000, LIFT_THRESHOLD), LIFT_THRESHOLD));
    assert!(!motor_ready(&off_target(100_000, -LIFT_THRESHOLD), LIFT_THRESHOLD));
    // One millidegree inside the band: converged.
    assert!(motor_ready(&off_target(100_000, LIFT_THRESHOLD - 1), LIFT_THRESHOLD));
    assert!(motor_ready(&off_target(100_000, -(LIFT_THRESHOLD - 1)), LIFT_THRESHOLD));
}

#[test]
fn arm_boundary_feedback_does_not_advance() {
    let mut arm = Arm::new();
    // Wrist exactly at its tolerance boundary: returning must hold.
    arm.update(
        ArmSignal::Empty,
        &pinned(ACCEPT_LIFT_POS),
        &off_target(ACCEPT_WRIST_POS, WRIST_THRESHOLD),
    );
    assert_eq!(arm.state(), "returning");
    // One millidegree inside: returning hands over.
    arm.update(
        ArmSignal::Empty,
        &pinned(ACCEPT_LIFT_POS),
        &off_target(ACCEPT_WRIST_POS, WRIST_THRESHOLD - 1),
    );
    assert_eq!(arm.state(), "accepting");
}

#[test]
fn arm_braking_motor_counts_as_converged() {
    let mut arm = Arm::new();
    let braked = MotorFeedback { target: MotorTarget::Brake, position: 123_456 };
    arm.update(ArmSignal::Empty, &braked, &braked);
    assert_eq!(arm.state(), "accepting");
}

#[test]
fn arm_velocity_controlled_motor_never_converges() {
    let mut arm = Arm::new();
    let other = MotorFeedback { target: MotorTarget::Other, position: ACCEPT_LIFT_POS };
    arm.update(ArmSignal::Empty, &other, &other);
    assert_eq!(arm.state(), "returning");
}

#[test]
fn arm_returning_output_guards_the_wrist() {
    let arm = Arm::new();
    // Wrist not yet clear of the threshold angle: lift is held at the safe
    // intermediate (release-height) target.
    let cmd: ArmCommand = arm.act(0, 50_000);
    assert_eq!(cmd.lift.target, RELEASE_LIFT_POS);
    assert_eq!(cmd.wrist.target, ACCEPT_WRIST_POS);
    // Wrist cleared: the lift may drop to the accepting target.
    let cmd = arm.act(0, -10_000);
    assert_eq!(cmd.lift.target, ACCEPT_LIFT_POS);
    assert_eq!(cmd.wrist.target, ACCEPT_WRIST_POS);
    // The boundary itself counts as cleared.
    let cmd = arm.act(0, 0);
    assert_eq!(cmd.lift.target, ACCEPT_LIFT_POS);
}

#[test]
fn arm_releasing_output_guards_the_lift() {
    let mut arm = Arm::new();
    arm.update(ArmSignal::Empty, &pinned(ACCEPT_LIFT_POS), &pinned(ACCEPT_WRIST_POS));
    arm.update(ArmSignal::Score, &pinned(ACCEPT_LIFT_POS), &pinned(ACCEPT_WRIST_POS));
    arm.update(ArmSignal::Empty, &pinned(READY_LIFT_POS), &pinned(READY_WRIST_POS));
    arm.update(ArmSignal::Empty, &pinned(SCORE_LIFT_POS), &pinned(SCORE_WRIST_POS));
    assert_eq!(arm.state(), "releasing");

    // Lift still low: wrist held at the scoring angle.
    let cmd = arm.act(400_000, SCORE_WRIST_POS);
    assert_eq!(cmd.lift.target, RELEASE_LIFT_POS);
    assert_eq!(cmd.wrist.target, SCORE_WRIST_POS);
    // Lift past the clearance height: wrist follows to the release angle.
    let cmd = arm.act(600_000, SCORE_WRIST_POS);
    assert_eq!(cmd.lift.target, RELEASE_LIFT_POS);
    assert_eq!(cmd.wrist.target, RELEASE_WRIST_POS);
}

#[test]
fn arm_stage_outputs_use_stage_setpoints() {
    let mut arm = Arm::new();
    arm.update(ArmSignal::Empty, &pinned(ACCEPT_LIFT_POS), &pinned(ACCEPT_WRIST_POS));
    let cmd = arm.act(ACCEPT_LIFT_POS, ACCEPT_WRIST_POS);
    assert_eq!(cmd.lift.target, ACCEPT_LIFT_POS);
    assert_eq!(cmd.wrist.target, ACCEPT_WRIST_POS);
    assert_eq!(cmd.lift.speed, 200);
    assert_eq!(cmd.wrist.speed, 70);

    arm.update(ArmSignal::Score, &pinned(ACCEPT_LIFT_POS), &pinned(ACCEPT_WRIST_POS));
    let cmd = arm.act(ACCEPT_LIFT_POS, ACCEPT_WRIST_POS);
    assert_eq!(cmd.lift.target, READY_LIFT_POS);
    assert_eq!(cmd.wrist.target, READY_WRIST_POS);

    arm.update(ArmSignal::Empty, &pinned(READY_LIFT_POS), &pinned(READY_WRIST_POS));
    let cmd = arm.act(READY_LIFT_POS, READY_WRIST_POS);
    assert_eq!(cmd.lift.target, SCORE_LIFT_POS);
    assert_eq!(cmd.wrist.target, SCORE_WRIST_POS);
}

use robot_core::tank_chassis::{BrakeMode, DriveCommand, TankChassis};

fn voltages(chassis: &TankChassis) -> (i64, i64) {
    match chassis.command() {
        DriveCommand::Voltage { left_mv, right_mv } => (left_mv, right_mv),
        DriveCommand::Braking { .. } => panic!("expected a voltage command"),
    }
}

#[test]
fn chassis_starts_coasting() {
    let chassis = TankChassis::new();
    assert_eq!(chassis.command(), DriveCommand::Braking { mode: BrakeMode::Coast });
}

#[test]
fn chassis_tank_within_scale_is_linear() {
    let mut chassis = TankChassis::new();
    chassis.move_tank(500, -250);
    assert_eq!(voltages(&chassis), (6_000, -3_000));
    chassis.move_tank(1_000, 1_000);
    assert_eq!(voltages(&chassis), (12_000, 12_000));
    chassis.move_tank(0, 0);
    assert_eq!(voltages(&chassis), (0, 0));
}

#[test]
fn chassis_tank_saturation_preserves_ratio() {
    let mut chassis = TankChassis::new();
    // 2 : 1 commanded; the dominant side pins at full scale.
    chassis.move_tank(2_000, 1_000);
    assert_eq!(voltages(&chassis), (12_000, 6_000));
    // 1.5 : 1 with a negative dominant side.
    chassis.move_tank(-1_500, 750);
    assert_eq!(voltages(&chassis), (-12_000, 6_000));
    // Just over full throttle still normalizes.
    chassis.move_tank(1_001, 0);
    assert_eq!(voltages(&chassis), (12_000, 0));
}

#[test]
fn chassis_tank_saturation_rounds_toward_zero() {
    let mut chassis = TankChassis::new();
    // 777 * 12000 / 1300 = 7172.3..., truncated to 7172; the cross products
    // 12000 * 777 and 7172 * 1300 then differ by only 400.
    chassis.move_tank(1_300, 777);
    assert_eq!(voltages(&chassis), (12_000, 7_172));
    assert!((12_000_i64 * 777 - 7_172_i64 * 1_300).abs() <= 1_300 + 777);
}

#[test]
fn chassis_arcade_mixes_throttle_and_steer() {
    let mut chassis = TankChassis::new();
    chassis.move_arcade(500, 250);
    // left = throttle - steer, right = throttle + steer.
    assert_eq!(voltages(&chassis), (3_000, 9_000));
}

#[test]
fn chassis_arcade_clamps_before_mixing() {
    let mut chassis = TankChassis::new();
    // Throttle clamps to 1000, steer to 500: tank(500, 1500) normalizes.
    chassis.move_arcade(2_000, 500);
    assert_eq!(voltages(&chassis), (4_000, 12_000));
    // Both rails clamped: tank(0, 2000) -> (0, 12000).
    chassis.move_arcade(5_000, 5_000);
    assert_eq!(voltages(&chassis), (0, 12_000));
}

#[test]
fn chassis_brake_reaches_every_motor() {
    let mut chassis = TankChassis::new();
    chassis.move_tank(400, 400);
    chassis.brake(BrakeMode::Hold);
    assert_eq!(chassis.command(), DriveCommand::Braking { mode: BrakeMode::Hold });
    chassis.move_tank(400, 400);
    chassis.stop(BrakeMode::Brake);
    assert_eq!(chassis.command(), DriveCommand::Braking { mode: BrakeMode::Brake });
}

use robot_core::localisation::{
    AngleSystem, Heading, Localiser, Pose, TrackerAxisDrive, TrackerAxisWheel, TrackingAxis,
    TrackingWheelLocaliser,
};

#[test]
fn heading_bearing_round_trip_is_exact() {
    let angles: [i64; 7] = [0, 1, -1, 37_123, -90_000, 270_000, 123_456_789];
    for &deg in angles.iter() {
        let h = Heading::from_deg(deg, AngleSystem::Bearing);
        assert_eq!(h.as_deg(AngleSystem::Bearing), deg);
        let h = Heading::from_deg(deg, AngleSystem::Cartesian);
        assert_eq!(h.as_deg(AngleSystem::Cartesian), deg);
    }
}

#[test]
fn heading_bearing_is_quarter_turn_minus_cartesian() {
    // Cartesian 0 is bearing 90 deg (north-up convention), and vice versa.
    let east = Heading::from_deg(0, AngleSystem::Cartesian);
    assert_eq!(east.as_deg(AngleSystem::Bearing), 90_000);
    let north = Heading::from_deg(0, AngleSystem::Bearing);
    assert_eq!(north.as_deg(AngleSystem::Cartesian), 90_000);
    // The conversion is applied exactly once, not twice.
    let h = Heading::from_deg(30_000, AngleSystem::Bearing);
    assert_eq!(h.as_deg(AngleSystem::Cartesian), 60_000);
}

#[test]
fn heading_set_deg_overwrites_canonically() {
    let mut h = Heading::new(45_000);
    assert_eq!(h.as_deg(AngleSystem::Cartesian), 45_000);
    h.set_deg(10_000, AngleSystem::Bearing);
    assert_eq!(h.as_deg(AngleSystem::Cartesian), 80_000);
    assert_eq!(h.as_deg(AngleSystem::Bearing), 10_000);
}

#[test]
fn tracker_axes_report_their_offsets() {
    let wheel = TrackerAxisWheel::new(100);
    assert_eq!(wheel.pos(), 100);
    // The drive-derived axis sits half the track width from the centre.
    let drive = TrackerAxisDrive::new(508);
    assert_eq!(drive.pos(), 254);
}

#[test]
fn pose_estimator_integrates_angle_times_offset() {
    let origin = Pose::new(0, 0, Heading::new(0));
    let mut localiser = TrackingWheelLocaliser::from_chassis_and_wheel(
        TrackerAxisWheel::new(100),
        TrackerAxisDrive::new(508),
        origin,
    );
    assert_eq!(localiser.pose().x, 0);
    assert_eq!(localiser.pose().y, 0);

    localiser.update(1_000, 2_000);
    assert_eq!(localiser.pose().x, 100_000);
    assert_eq!(localiser.pose().y, 508_000);

    // Deltas, not absolute angles: the y axis rolled backwards.
    localiser.update(1_500, 1_500);
    assert_eq!(localiser.pose().x, 150_000);
    assert_eq!(localiser.pose().y, 381_000);

    // The heading is held constant by refreshes.
    assert_eq!(localiser.pose().h.as_deg(AngleSystem::Cartesian), 0);
}

#[test]
fn pose_estimator_set_pose_anchors_the_origin() {
    let mut localiser = TrackingWheelLocaliser::from_chassis_and_wheel(
        TrackerAxisWheel::new(100),
        TrackerAxisWheel::new(200),
        Pose::new(7, 8, Heading::new(0)),
    );
    localiser.update(10, 10);
    localiser.set_pose(Pose::new(0, 0, Heading::new(90_000)));
    let pose = localiser.pose();
    assert_eq!(pose.x, 0);
    assert_eq!(pose.y, 0);
    assert_eq!(pose.h.as_deg(AngleSystem::Cartesian), 90_000);
    // Integration continues from the new anchor.
    localiser.update(20, 10);
    assert_eq!(localiser.pose().x, 1_000);
    assert_eq!(localiser.pose().y, 0);
}

#[test]
fn pose_estimator_saturates_at_the_numeric_range() {
    let mut localiser = TrackingWheelLocaliser::from_chassis_and_wheel(
        TrackerAxisWheel::new(100),
        TrackerAxisWheel::new(100),
        Pose::new(i64::MAX - 1, i64::MIN + 1, Heading::new(0)),
    );
    localiser.update(1_000, -1_000);
    assert_eq!(localiser.pose().x, i64::MAX);
    assert_eq!(localiser.pose().y, i64::MIN);
}

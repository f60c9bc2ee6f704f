//! Heading arithmetic and the tracking-wheel pose estimator.
//!
//! Angles are fixed-point millidegrees. A heading is stored once, in the
//! canonical system (cartesian: measured from the positive x-axis,
//! counter-clockwise positive); the bearing system (`bearing = 90deg -
//! cartesian`) exists only at the conversion boundary, applied exactly once
//! per crossing, so an internal value can never be written in the wrong
//! system.
//!
//! The estimator integrates two tracking axes: each axis's angular delta,
//! multiplied by its fixed offset from the tracking centre, is a linear
//! displacement along that axis's robot-frame direction. The hardware
//! boundary samples the raw axis angles (a failed sensor read becomes the
//! defined zero-displacement reading) and hands them to
//! [`TrackingWheelLocaliser::update`]; pose coordinates accumulate in units
//! of millidegree times offset unit, saturating at the 64-bit range.

use vstd::prelude::*;

verus! {

/// A quarter turn, the pivot of the bearing convention, millidegrees.
pub const QUARTER_TURN_MDEG: i64 = 90_000;
/// Machine limit on an angle fed to a heading conversion, millidegrees.
pub const HEADING_LIMIT: i64 = 1_000_000_000_000_000;
/// Machine limit on a raw axis angle, millidegrees.
pub const AXIS_ANGLE_LIMIT: i64 = 1_000_000_000_000;
/// Machine limit on an axis offset, offset units.
pub const AXIS_OFFSET_LIMIT: i64 = 1_000_000;

/// The two external angle systems a heading can be exchanged in.
#[derive(Clone, Copy, PartialEq, Eq, Structural, Debug)]
pub enum AngleSystem {
    Cartesian,
    Bearing,
}

/// An angle given in `system`, translated to canonical cartesian
/// millidegrees.
pub open spec fn to_cartesian_mdeg(angle: int, system: AngleSystem) -> int {
    match system {
        AngleSystem::Cartesian => angle,
        AngleSystem::Bearing => QUARTER_TURN_MDEG - angle,
    }
}

/// A canonical cartesian angle, translated out into `system`.
pub open spec fn from_cartesian_mdeg(cartesian: int, system: AngleSystem) -> int {
    match system {
        AngleSystem::Cartesian => cartesian,
        AngleSystem::Bearing => QUARTER_TURN_MDEG - cartesian,
    }
}

/// Converting into a system and back out of it returns the angle unchanged,
/// exactly; so does converting out and back in.
pub proof fn lemma_heading_round_trip(angle: int, system: AngleSystem)
    ensures
        from_cartesian_mdeg(to_cartesian_mdeg(angle, system), system) == angle,
        to_cartesian_mdeg(from_cartesian_mdeg(angle, system), system) == angle,
{
}

/// A heading, stored canonically as cartesian millidegrees from the
/// positive x-axis, counter-clockwise positive.
#[derive(Clone, Copy, PartialEq, Eq, Structural, Debug)]
pub struct Heading {
    mdeg: i64,
}

impl Heading {
    /// The canonical stored angle.
    pub closed spec fn cartesian_mdeg(self) -> int {
        self.mdeg as int
    }

    /// The stored angle is close enough to the representable range's centre
    /// that every conversion stays in 64 bits.
    pub open spec fn wf(self) -> bool {
        -(HEADING_LIMIT + QUARTER_TURN_MDEG) <= self.cartesian_mdeg() <= HEADING_LIMIT
            + QUARTER_TURN_MDEG
    }

    /// A heading from a canonical cartesian angle.
    pub fn new(mdeg: i64) -> (r: Heading)
        requires
            -HEADING_LIMIT <= mdeg <= HEADING_LIMIT,
        ensures
            r.cartesian_mdeg() == mdeg,
            r.wf(),
    {
        Heading { mdeg }
    }

    /// A heading from an angle given in either system.
    pub fn from_deg(angle_mdeg: i64, system: AngleSystem) -> (r: Heading)
        requires
            -HEADING_LIMIT <= angle_mdeg <= HEADING_LIMIT,
        ensures
            r.cartesian_mdeg() == to_cartesian_mdeg(angle_mdeg as int, system),
            r.wf(),
    {
        let mut heading = Heading { mdeg: 0 };
        heading.set_deg(angle_mdeg, system);
        heading
    }

    /// Overwrite the heading with an angle given in either system. The
    /// bearing conversion is applied exactly once, here.
    pub fn set_deg(&mut self, angle_mdeg: i64, system: AngleSystem)
        requires
            -HEADING_LIMIT <= angle_mdeg <= HEADING_LIMIT,
        ensures
            final(self).cartesian_mdeg() == to_cartesian_mdeg(angle_mdeg as int, system),
            final(self).wf(),
    {
        self.mdeg = match system {
            AngleSystem::Cartesian => angle_mdeg,
            AngleSystem::Bearing => QUARTER_TURN_MDEG - angle_mdeg,
        };
    }

    /// Read the heading out in either system. The inverse of
    /// [`Heading::set_deg`] for the same system, exactly.
    pub fn as_deg(&self, system: AngleSystem) -> (r: i64)
        requires
            self.wf(),
        ensures
            r as int == from_cartesian_mdeg(self.cartesian_mdeg(), system),
    {
        match system {
            AngleSystem::Cartesian => self.mdeg,
            AngleSystem::Bearing => QUARTER_TURN_MDEG - self.mdeg,
        }
    }
}

/// A robot pose in the fixed field frame: coordinates in accumulated
/// displacement units, and a heading.
#[derive(Clone, Copy, PartialEq, Eq, Structural, Debug)]
pub struct Pose {
    pub x: i64,
    pub y: i64,
    pub h: Heading,
}

impl Pose {
    pub fn new(x: i64, y: i64, h: Heading) -> (r: Pose)
        ensures
            r == (Pose { x, y, h }),
    {
        Pose { x, y, h }
    }
}

/// Anything that owns a pose and hands out immutable snapshots of it.
pub trait Localiser {
    /// The owned pose.
    spec fn pose_spec(&self) -> Pose;

    /// A snapshot of the current pose; no side effect.
    fn pose(&self) -> (p: Pose)
        ensures
            p == self.pose_spec(),
    ;

    /// Overwrite the pose, anchoring the origin of a routine.
    fn set_pose(&mut self, pose: Pose)
        ensures
            final(self).pose_spec() == pose,
    ;
}

/// A capability producing a scalar angular displacement and a fixed
/// geometric offset ("radius") from the tracking centre. The axis keeps the
/// last angle it consumed, so each new sample yields a delta.
pub trait TrackingAxis: Sized {
    /// The fixed offset, in displacement units per millidegree of rotation.
    spec fn offset_spec(&self) -> int;

    /// The last raw angle consumed, millidegrees.
    spec fn last_angle_spec(&self) -> int;

    /// The machine bounds a live axis keeps, so displacement products fit
    /// in 64 bits.
    spec fn wf(&self) -> bool;

    /// The fixed offset from the tracking centre.
    fn pos(&self) -> (r: i64)
        requires
            self.wf(),
        ensures
            r as int == self.offset_spec(),
    ;

    /// Consume a new raw angle and return the linear displacement since the
    /// previous one: the angular delta times the offset.
    fn advance(&mut self, angle_mdeg: i64) -> (disp: i64)
        requires
            old(self).wf(),
            -AXIS_ANGLE_LIMIT <= angle_mdeg <= AXIS_ANGLE_LIMIT,
        ensures
            final(self).wf(),
            final(self).offset_spec() == old(self).offset_spec(),
            final(self).last_angle_spec() == angle_mdeg as int,
            disp as int == (angle_mdeg - old(self).last_angle_spec()) * old(self).offset_spec(),
    ;
}

/// The angular delta times the offset, within 64 bits by the axis bounds.
fn scaled_displacement(delta: i64, offset: i64) -> (disp: i64)
    requires
        -2 * AXIS_ANGLE_LIMIT <= delta <= 2 * AXIS_ANGLE_LIMIT,
        -AXIS_OFFSET_LIMIT <= offset <= AXIS_OFFSET_LIMIT,
    ensures
        disp as int == delta * offset,
{
    proof {
        assert(-2_000_000_000_000_000_000 <= delta * offset <= 2_000_000_000_000_000_000)
            by (nonlinear_arith)
            requires
                -2_000_000_000_000 <= delta <= 2_000_000_000_000,
                -1_000_000 <= offset <= 1_000_000,
        ;
    }
    delta * offset
}

/// Addition clamped to the 64-bit range.
pub open spec fn sat_add_i64(a: int, b: int) -> int {
    if a + b > i64::MAX as int {
        i64::MAX as int
    } else if a + b < i64::MIN as int {
        i64::MIN as int
    } else {
        a + b
    }
}

/// Executable saturating addition, exact against [`sat_add_i64`].
fn saturating_add(a: i64, b: i64) -> (r: i64)
    ensures
        r as int == sat_add_i64(a as int, b as int),
{
    let wide: i128 = a as i128 + b as i128;
    if wide > i64::MAX as i128 {
        i64::MAX
    } else if wide < i64::MIN as i128 {
        i64::MIN
    } else {
        wide as i64
    }
}

/// A dedicated rotation sensor on a free-spinning wheel. The hardware
/// boundary reads the sensor and feeds the raw angle in.
pub struct TrackerAxisWheel {
    offset: i64,
    last_angle: i64,
}

impl TrackerAxisWheel {
    pub fn new(offset: i64) -> (r: TrackerAxisWheel)
        requires
            -AXIS_OFFSET_LIMIT <= offset <= AXIS_OFFSET_LIMIT,
        ensures
            r.offset_spec() == offset,
            r.last_angle_spec() == 0,
            r.wf(),
    {
        TrackerAxisWheel { offset, last_angle: 0 }
    }
}

impl TrackingAxis for TrackerAxisWheel {
    closed spec fn offset_spec(&self) -> int {
        self.offset as int
    }

    closed spec fn last_angle_spec(&self) -> int {
        self.last_angle as int
    }

    open spec fn wf(&self) -> bool {
        &&& -AXIS_OFFSET_LIMIT <= self.offset_spec() <= AXIS_OFFSET_LIMIT
        &&& -AXIS_ANGLE_LIMIT <= self.last_angle_spec() <= AXIS_ANGLE_LIMIT
    }

    fn pos(&self) -> (r: i64) {
        self.offset
    }

    fn advance(&mut self, angle_mdeg: i64) -> (disp: i64) {
        let delta = angle_mdeg - self.last_angle;
        let disp = scaled_displacement(delta, self.offset);
        self.last_angle = angle_mdeg;
        disp
    }
}

/// A derived axis reading one side of the chassis's motor-group rotation.
/// Its offset is half the track width; the hardware boundary locks the
/// shared chassis, reads the side's angular position, and feeds it in.
pub struct TrackerAxisDrive {
    offset: i64,
    last_angle: i64,
}

impl TrackerAxisDrive {
    pub fn new(track_width: i64) -> (r: TrackerAxisDrive)
        requires
            0 <= track_width <= 2 * AXIS_OFFSET_LIMIT,
        ensures
            r.offset_spec() == track_width as int / 2,
            r.last_angle_spec() == 0,
            r.wf(),
    {
        let offset = (track_width as u64 / 2) as i64;
        TrackerAxisDrive { offset, last_angle: 0 }
    }
}

impl TrackingAxis for TrackerAxisDrive {
    closed spec fn offset_spec(&self) -> int {
        self.offset as int
    }

    closed spec fn last_angle_spec(&self) -> int {
        self.last_angle as int
    }

    open spec fn wf(&self) -> bool {
        &&& -AXIS_OFFSET_LIMIT <= self.offset_spec() <= AXIS_OFFSET_LIMIT
        &&& -AXIS_ANGLE_LIMIT <= self.last_angle_spec() <= AXIS_ANGLE_LIMIT
    }

    fn pos(&self) -> (r: i64) {
        self.offset
    }

    fn advance(&mut self, angle_mdeg: i64) -> (disp: i64) {
        let delta = angle_mdeg - self.last_angle;
        let disp = scaled_displacement(delta, self.offset);
        self.last_angle = angle_mdeg;
        disp
    }
}

/// The pose estimator: integrates two tracking axes into an owned pose. It
/// only reads the axes' samples; it never commands hardware. Heading is not
/// derived from the two perpendicular axes and stays constant between
/// explicit resets.
pub struct TrackingWheelLocaliser<TX: TrackingAxis, TY: TrackingAxis> {
    x_axis: TX,
    y_axis: TY,
    pose: Pose,
}

impl<TX: TrackingAxis, TY: TrackingAxis> TrackingWheelLocaliser<TX, TY> {
    /// The axis contributing to the x coordinate.
    pub closed spec fn x_axis_spec(self) -> TX {
        self.x_axis
    }

    /// The axis contributing to the y coordinate.
    pub closed spec fn y_axis_spec(self) -> TY {
        self.y_axis
    }

    /// Both axes keep their machine bounds.
    pub open spec fn wf(self) -> bool {
        self.x_axis_spec().wf() && self.y_axis_spec().wf()
    }

    /// Build the estimator from its two axes and an initial pose.
    pub fn from_chassis_and_wheel(x_tracker: TX, y_tracker: TY, init_pose: Pose) -> (r:
        TrackingWheelLocaliser<TX, TY>)
        ensures
            r.pose_spec() == init_pose,
            r.x_axis_spec() == x_tracker,
            r.y_axis_spec() == y_tracker,
    {
        TrackingWheelLocaliser { x_axis: x_tracker, y_axis: y_tracker, pose: init_pose }
    }

    /// Consume one raw angle sample per axis and accumulate each axis's
    /// displacement — angular delta times offset — into the pose. The
    /// heading is left unchanged; the axes are only read, never commanded.
    pub fn update(&mut self, x_angle_mdeg: i64, y_angle_mdeg: i64)
        requires
            old(self).wf(),
            -AXIS_ANGLE_LIMIT <= x_angle_mdeg <= AXIS_ANGLE_LIMIT,
            -AXIS_ANGLE_LIMIT <= y_angle_mdeg <= AXIS_ANGLE_LIMIT,
        ensures
            final(self).wf(),
            final(self).x_axis_spec().offset_spec() == old(self).x_axis_spec().offset_spec(),
            final(self).y_axis_spec().offset_spec() == old(self).y_axis_spec().offset_spec(),
            final(self).x_axis_spec().last_angle_spec() == x_angle_mdeg as int,
            final(self).y_axis_spec().last_angle_spec() == y_angle_mdeg as int,
            final(self).pose_spec().x as int == sat_add_i64(
                old(self).pose_spec().x as int,
                (x_angle_mdeg - old(self).x_axis_spec().last_angle_spec())
                    * old(self).x_axis_spec().offset_spec(),
            ),
            final(self).pose_spec().y as int == sat_add_i64(
                old(self).pose_spec().y as int,
                (y_angle_mdeg - old(self).y_axis_spec().last_angle_spec())
                    * old(self).y_axis_spec().offset_spec(),
            ),
            final(self).pose_spec().h == old(self).pose_spec().h,
    {
        let dx = self.x_axis.advance(x_angle_mdeg);
        let dy = self.y_axis.advance(y_angle_mdeg);
        self.pose.x = saturating_add(self.pose.x, dx);
        self.pose.y = saturating_add(self.pose.y, dy);
    }
}

impl<TX: TrackingAxis, TY: TrackingAxis> Localiser for TrackingWheelLocaliser<TX, TY> {
    closed spec fn pose_spec(&self) -> Pose {
        self.pose
    }

    fn pose(&self) -> (p: Pose) {
        self.pose
    }

    fn set_pose(&mut self, pose: Pose) {
        self.pose = pose;
    }
}

} // verus!

//! Differential drive abstraction: normalized tank/arcade mixing and braking.
//!
//! Throttle inputs are dimensionless, in thousandths of full scale (`1000`
//! is full throttle). Outputs are motor voltages in millivolts, full scale
//! `12000`. When either side's commanded magnitude exceeds full throttle,
//! both sides are divided by the pair's maximum magnitude, so the left:right
//! ratio — the turning radius — is preserved under saturation instead of
//! being distorted by independent clamping.
//!
//! The chassis owns the current drive command; the hardware boundary reads
//! it after every change and forwards it identically to every motor within
//! each side group.

use vstd::arithmetic::div_mod::{
    lemma_div_is_ordered, lemma_div_multiples_vanish, lemma_div_pos_is_pos,
    lemma_fundamental_div_mod, lemma_mod_bound,
};
use vstd::arithmetic::mul::lemma_mul_nonnegative;
use vstd::math::abs;
use vstd::prelude::*;

verus! {

/// Full-scale motor output, millivolts.
pub const FULL_SCALE_MV: i64 = 12_000;
/// Full throttle: the magnitude above which the pair is normalized.
pub const THROTTLE_UNIT: i64 = 1_000;
/// Machine limit on a single throttle input, so the scaling arithmetic
/// stays within 64 bits.
pub const THROTTLE_LIMIT: i64 = 1_000_000_000;

/// Enumerated braking policy, forwarded verbatim to every motor.
#[derive(Clone, Copy, PartialEq, Eq, Structural, Debug)]
pub enum BrakeMode {
    Coast,
    Brake,
    Hold,
}

/// The command currently held by the chassis: one voltage per side, or a
/// braking behaviour on every motor.
#[derive(Clone, Copy, PartialEq, Eq, Structural, Debug)]
pub enum DriveCommand {
    Voltage { left_mv: i64, right_mv: i64 },
    Braking { mode: BrakeMode },
}

/// The larger of the two throttle magnitudes.
pub open spec fn pair_max(l: int, r: int) -> int {
    let la = if l < 0 {
        -l
    } else {
        l
    };
    let ra = if r < 0 {
        -r
    } else {
        r
    };
    if la >= ra {
        la
    } else {
        ra
    }
}

/// One side's output voltage when the pair's maximum magnitude is `m`:
/// scaled straight to millivolts below full throttle, divided by `m` above
/// it. Division truncates toward zero, so the result is exact to one
/// millivolt.
pub open spec fn side_output_mv(v: int, m: int) -> int {
    if m <= THROTTLE_UNIT {
        (v * FULL_SCALE_MV) / (THROTTLE_UNIT as int)
    } else if v >= 0 {
        (v * FULL_SCALE_MV) / m
    } else {
        -((-v * FULL_SCALE_MV) / m)
    }
}

/// The left output of tank mixing.
pub open spec fn tank_left_mv(l: int, r: int) -> int {
    side_output_mv(l, pair_max(l, r))
}

/// The right output of tank mixing.
pub open spec fn tank_right_mv(l: int, r: int) -> int {
    side_output_mv(r, pair_max(l, r))
}

/// Arcade inputs are clamped to one full throttle each before mixing.
pub open spec fn clamp_throttle(v: int) -> int {
    if v < -(THROTTLE_UNIT as int) {
        -(THROTTLE_UNIT as int)
    } else if v > THROTTLE_UNIT {
        THROTTLE_UNIT as int
    } else {
        v
    }
}

/// The group of actuators on both sides of the chassis, modelled by the
/// command they are held at. The hardware boundary dispatches the command
/// to each physical motor, best-effort.
pub struct TankChassis {
    cmd: DriveCommand,
}

impl TankChassis {
    /// The command every motor of the chassis is currently held at.
    pub closed spec fn current_command(self) -> DriveCommand {
        self.cmd
    }

    /// A fresh chassis holds its motors at coast.
    pub fn new() -> (r: TankChassis)
        ensures
            r.current_command() == (DriveCommand::Braking { mode: BrakeMode::Coast }),
    {
        TankChassis { cmd: DriveCommand::Braking { mode: BrakeMode::Coast } }
    }

    /// The current drive command, for the hardware boundary to dispatch.
    pub fn command(&self) -> (c: DriveCommand)
        ensures
            c == self.current_command(),
    {
        self.cmd
    }

    /// Tank mixing: command the two sides directly. A pair whose maximum
    /// magnitude exceeds full throttle is divided by that maximum, which
    /// preserves the left:right ratio exactly (to the millivolt) and pins
    /// the dominant side at full scale.
    pub fn move_tank(&mut self, left: i64, right: i64)
        requires
            -THROTTLE_LIMIT <= left <= THROTTLE_LIMIT,
            -THROTTLE_LIMIT <= right <= THROTTLE_LIMIT,
        ensures
            final(self).current_command() matches DriveCommand::Voltage { left_mv, right_mv }
                && left_mv == tank_left_mv(left as int, right as int) && right_mv == tank_right_mv(
                left as int,
                right as int,
            ),
    {
        let left_mag: u64 = if left < 0 {
            (-left) as u64
        } else {
            left as u64
        };
        let right_mag: u64 = if right < 0 {
            (-right) as u64
        } else {
            right as u64
        };
        let m: u64 = if left_mag >= right_mag {
            left_mag
        } else {
            right_mag
        };
        assert(m == pair_max(left as int, right as int));
        let left_mv: i64;
        let right_mv: i64;
        if m <= THROTTLE_UNIT as u64 {
            left_mv = left * 12;
            right_mv = right * 12;
            proof {
                assert(left * FULL_SCALE_MV == (THROTTLE_UNIT as int) * (12 * left));
                lemma_div_multiples_vanish(12 * left, THROTTLE_UNIT as int);
                assert(right * FULL_SCALE_MV == (THROTTLE_UNIT as int) * (12 * right));
                lemma_div_multiples_vanish(12 * right, THROTTLE_UNIT as int);
            }
        } else {
            proof {
                lemma_side_scaled_bounds(left_mag as int, m as int);
                lemma_side_scaled_bounds(right_mag as int, m as int);
            }
            let left_mag_mv: u64 = left_mag * (FULL_SCALE_MV as u64) / m;
            let right_mag_mv: u64 = right_mag * (FULL_SCALE_MV as u64) / m;
            left_mv = if left < 0 {
                -(left_mag_mv as i64)
            } else {
                left_mag_mv as i64
            };
            right_mv = if right < 0 {
                -(right_mag_mv as i64)
            } else {
                right_mag_mv as i64
            };
        }
        self.cmd = DriveCommand::Voltage { left_mv, right_mv };
    }

    /// Arcade mixing: clamp throttle and steer to one full throttle each,
    /// then tank-mix `throttle - steer` against `throttle + steer`.
    pub fn move_arcade(&mut self, throttle: i64, steer: i64)
        ensures
            final(self).current_command() matches DriveCommand::Voltage { left_mv, right_mv }
                && left_mv == tank_left_mv(
                clamp_throttle(throttle as int) - clamp_throttle(steer as int),
                clamp_throttle(throttle as int) + clamp_throttle(steer as int),
            ) && right_mv == tank_right_mv(
                clamp_throttle(throttle as int) - clamp_throttle(steer as int),
                clamp_throttle(throttle as int) + clamp_throttle(steer as int),
            ),
    {
        let t = clamp_to_unit(throttle);
        let s = clamp_to_unit(steer);
        self.move_tank(t - s, t + s);
    }

    /// Hold every motor on both sides with the given braking behaviour.
    pub fn brake(&mut self, mode: BrakeMode)
        ensures
            final(self).current_command() == (DriveCommand::Braking { mode }),
    {
        self.cmd = DriveCommand::Braking { mode };
    }

    /// Synonym for [`TankChassis::brake`].
    pub fn stop(&mut self, mode: BrakeMode)
        ensures
            final(self).current_command() == (DriveCommand::Braking { mode }),
    {
        self.brake(mode);
    }
}

/// Clamp one throttle input to `[-THROTTLE_UNIT, THROTTLE_UNIT]`.
fn clamp_to_unit(v: i64) -> (r: i64)
    ensures
        r == clamp_throttle(v as int),
{
    if v < -THROTTLE_UNIT {
        -THROTTLE_UNIT
    } else if v > THROTTLE_UNIT {
        THROTTLE_UNIT
    } else {
        v
    }
}

/// For `0 <= v <= m`, the scaled magnitude `v * FULL_SCALE_MV / m` lies in
/// `[0, FULL_SCALE_MV]`, and hits full scale exactly when `v == m`.
proof fn lemma_side_scaled_bounds(v: int, m: int)
    requires
        0 <= v <= m,
        0 < m,
    ensures
        0 <= (v * FULL_SCALE_MV) / m <= FULL_SCALE_MV,
        v == m ==> (v * FULL_SCALE_MV) / m == FULL_SCALE_MV,
{
    let s = FULL_SCALE_MV as int;
    lemma_mul_nonnegative(v, s);
    lemma_div_pos_is_pos(v * s, m);
    assert(v * s <= m * s) by (nonlinear_arith)
        requires
            v <= m,
            0 <= s,
    ;
    lemma_div_is_ordered(v * s, m * s, m);
    lemma_div_multiples_vanish(s, m);
    assert(m * s == s * m) by (nonlinear_arith);
}

/// The cross products of the scaled magnitudes differ by at most `a + b`:
/// the scaled pair keeps the ratio `a : b` to the rounding granularity.
proof fn lemma_side_scaled_cross(a: int, b: int, m: int)
    requires
        0 <= a <= m,
        0 <= b <= m,
        0 < m,
    ensures
        -(a + b) <= (a * FULL_SCALE_MV) / m * b - (b * FULL_SCALE_MV) / m * a <= a + b,
{
    let s = FULL_SCALE_MV as int;
    let qa = (a * s) / m;
    let ra = (a * s) % m;
    let qb = (b * s) / m;
    let rb = (b * s) % m;
    lemma_fundamental_div_mod(a * s, m);
    lemma_fundamental_div_mod(b * s, m);
    lemma_mod_bound(a * s, m);
    lemma_mod_bound(b * s, m);
    assert((qa * b - qb * a) * m == rb * a - ra * b) by (nonlinear_arith)
        requires
            a * s == m * qa + ra,
            b * s == m * qb + rb,
    ;
    assert(-(m * (a + b)) <= rb * a - ra * b <= m * (a + b)) by (nonlinear_arith)
        requires
            0 <= ra < m,
            0 <= rb < m,
            0 <= a,
            0 <= b,
    ;
    assert(-(a + b) <= qa * b - qb * a <= a + b) by (nonlinear_arith)
        requires
            (qa * b - qb * a) * m == rb * a - ra * b,
            -(m * (a + b)) <= rb * a - ra * b <= m * (a + b),
            0 < m,
            0 <= a,
            0 <= b,
    ;
}

/// Saturated tank mixing preserves the commanded left:right ratio: the
/// cross products of the outputs and the inputs differ by at most the one
/// millivolt of rounding per input unit. With exact rational division the
/// difference would be zero.
pub proof fn lemma_tank_ratio_preserved(l: int, r: int)
    requires
        -THROTTLE_LIMIT <= l <= THROTTLE_LIMIT,
        -THROTTLE_LIMIT <= r <= THROTTLE_LIMIT,
        pair_max(l, r) > THROTTLE_UNIT,
    ensures
        abs(tank_left_mv(l, r) * r - tank_right_mv(l, r) * l) <= abs(l) + abs(r),
{
    let m = pair_max(l, r);
    let s = FULL_SCALE_MV as int;
    let a = abs(l) as int;
    let b = abs(r) as int;
    let qa = (a * s) / m;
    let qb = (b * s) / m;
    lemma_side_scaled_cross(a, b, m);
    let out_l = tank_left_mv(l, r);
    let out_r = tank_right_mv(l, r);
    if l >= 0 {
        assert(out_l == qa);
    } else {
        assert(out_l == -qa);
    }
    if r >= 0 {
        assert(out_r == qb);
    } else {
        assert(out_r == -qb);
    }
    if l >= 0 && r >= 0 {
        assert(out_l * r - out_r * l == qa * b - qb * a) by (nonlinear_arith)
            requires
                out_l == qa,
                out_r == qb,
                l == a,
                r == b,
        ;
    } else if l >= 0 && r < 0 {
        assert(out_l * r - out_r * l == -(qa * b - qb * a)) by (nonlinear_arith)
            requires
                out_l == qa,
                out_r == -qb,
                l == a,
                r == -b,
        ;
    } else if l < 0 && r >= 0 {
        assert(out_l * r - out_r * l == -(qa * b - qb * a)) by (nonlinear_arith)
            requires
                out_l == -qa,
                out_r == qb,
                l == -a,
                r == b,
        ;
    } else {
        assert(out_l * r - out_r * l == qa * b - qb * a) by (nonlinear_arith)
            requires
                out_l == -qa,
                out_r == -qb,
                l == -a,
                r == -b,
        ;
    }
}

/// Tank outputs never exceed full scale, keep each input's sign, and under
/// saturation pin the dominant side exactly at full scale — both sides are
/// scaled by the same factor.
pub proof fn lemma_tank_output_bounded(l: int, r: int)
    requires
        -THROTTLE_LIMIT <= l <= THROTTLE_LIMIT,
        -THROTTLE_LIMIT <= r <= THROTTLE_LIMIT,
    ensures
        abs(tank_left_mv(l, r)) <= FULL_SCALE_MV,
        abs(tank_right_mv(l, r)) <= FULL_SCALE_MV,
        l >= 0 ==> tank_left_mv(l, r) >= 0,
        l <= 0 ==> tank_left_mv(l, r) <= 0,
        r >= 0 ==> tank_right_mv(l, r) >= 0,
        r <= 0 ==> tank_right_mv(l, r) <= 0,
        pair_max(l, r) > THROTTLE_UNIT && abs(l) >= abs(r) ==> abs(tank_left_mv(l, r))
            == FULL_SCALE_MV,
        pair_max(l, r) > THROTTLE_UNIT && abs(r) >= abs(l) ==> abs(tank_right_mv(l, r))
            == FULL_SCALE_MV,
{
    let m = pair_max(l, r);
    let a = abs(l) as int;
    let b = abs(r) as int;
    if m <= THROTTLE_UNIT {
        assert(l * FULL_SCALE_MV == (THROTTLE_UNIT as int) * (12 * l));
        lemma_div_multiples_vanish(12 * l, THROTTLE_UNIT as int);
        assert(r * FULL_SCALE_MV == (THROTTLE_UNIT as int) * (12 * r));
        lemma_div_multiples_vanish(12 * r, THROTTLE_UNIT as int);
    } else {
        lemma_side_scaled_bounds(a, m);
        lemma_side_scaled_bounds(b, m);
    }
}

} // verus!

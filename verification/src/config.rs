//! Emitter placement from configuration: each emitter is given either
//! Cartesian coordinates or a polar position, in tenths of a scene unit;
//! positions come out in centi-units after the division by ten that the
//! scene applies to configured lengths. Polar angles are quarter turns,
//! the rotations the integer pipeline represents exactly.

use crate::arith::{lemma_mul_bound, qcos, qsin, quarter_cos, quarter_sin};
use crate::vector::{Vec3, Vec3V};
use vstd::prelude::*;

verus! {

/// Largest configured coordinate magnitude.
pub const CONFIG_MAX: i64 = 1_400;

/// One emitter's configured position.
#[derive(Clone, Copy, Debug, PartialEq, Eq, Structural)]
pub enum EmitterSpec {
    /// Cartesian placement: `x`, `y` and `height` in configuration units.
    Cartesian { x: i64, y: i64, height: i64 },
    /// Polar placement: `angle` in quarter turns, `radius` and `height`
    /// in configuration units.
    Polar { angle: i64, radius: i64, height: i64 },
}

/// Where a configured emitter stands in the scene, in centi-units: the
/// configured lengths divided by ten, and polar coordinates converted by
/// `x = radius * cos(angle)`, `y = radius * sin(angle)`.
pub open spec fn position_of(es: EmitterSpec) -> Vec3V {
    match es {
        EmitterSpec::Cartesian { x, y, height } => Vec3V {
            x: x * 10,
            y: y * 10,
            z: height * 10,
        },
        EmitterSpec::Polar { angle, radius, height } => Vec3V {
            x: radius * qcos(angle as int) * 10,
            y: radius * qsin(angle as int) * 10,
            z: height * 10,
        },
    }
}

/// Whether every configured length is in range.
pub open spec fn spec_ok(es: EmitterSpec) -> bool {
    match es {
        EmitterSpec::Cartesian { x, y, height } => {
            &&& -CONFIG_MAX <= x <= CONFIG_MAX
            &&& -CONFIG_MAX <= y <= CONFIG_MAX
            &&& -CONFIG_MAX <= height <= CONFIG_MAX
        },
        EmitterSpec::Polar { angle, radius, height } => {
            &&& -CONFIG_MAX <= radius <= CONFIG_MAX
            &&& -CONFIG_MAX <= height <= CONFIG_MAX
        },
    }
}

/// The scene position of a configured emitter, in centi-units.
pub fn emitter_position(es: &EmitterSpec) -> (p: Vec3)
    requires
        spec_ok(*es),
    ensures
        p@ == position_of(*es),
{
    match es {
        EmitterSpec::Cartesian { x, y, height } => Vec3 {
            x: *x * 10,
            y: *y * 10,
            z: *height * 10,
        },
        EmitterSpec::Polar { angle, radius, height } => {
            let c = quarter_cos(*angle);
            let sn = quarter_sin(*angle);
            proof {
                lemma_mul_bound(*radius as int, c as int, CONFIG_MAX as int, 1);
                lemma_mul_bound(*radius as int, sn as int, CONFIG_MAX as int, 1);
            }
            Vec3 { x: *radius * c * 10, y: *radius * sn * 10, z: *height * 10 }
        },
    }
}

} // verus!

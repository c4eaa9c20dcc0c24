//! One sample of the controller: the buttons the viewer reacts to and the
//! position of the analog stick.

use vstd::prelude::*;
use vstd::math::abs;

verus! {

/// Full deflection of the analog stick along one axis. A raw axis value `v`
/// stands for the fraction `v / STICK_SCALE`.
pub const STICK_SCALE: i32 = 128;

/// Numerator of the dead-zone threshold, see [`DEAD_ZONE_DEN`].
pub const DEAD_ZONE_NUM: i32 = 1;

/// The stick counts as deflected once the squared length of its normalised
/// position exceeds `DEAD_ZONE_NUM / DEAD_ZONE_DEN`.
pub const DEAD_ZONE_DEN: i32 = 100;

/// The buttons the viewer listens to.
#[derive(Clone, Copy, Debug, PartialEq, Eq, Structural)]
pub struct Buttons {
    pub a: bool,
    pub b: bool,
    pub start: bool,
    pub l: bool,
    pub r: bool,
}

/// What the controller reported for one frame.
#[derive(Clone, Copy, Debug, PartialEq, Eq, Structural)]
pub struct PadSample {
    /// Buttons that went down since the previous sample.
    pub pressed: Buttons,
    /// Buttons that are down right now.
    pub held: Buttons,
    /// Raw horizontal stick position.
    pub stick_x: i8,
    /// Raw vertical stick position.
    pub stick_y: i8,
}

impl Buttons {
    /// No button of the set is down.
    pub open spec fn spec_none(self) -> bool {
        !self.a && !self.b && !self.start && !self.l && !self.r
    }
}

/// Squared length of the raw stick position `(x, y)`.
pub open spec fn spec_stick_norm2(x: int, y: int) -> int {
    x * x + y * y
}

/// Whether the stick at raw position `(x, y)` has left the dead zone: the
/// squared length of `(x / STICK_SCALE, y / STICK_SCALE)` is strictly greater
/// than `DEAD_ZONE_NUM / DEAD_ZONE_DEN`, written with the denominators
/// cleared.
pub open spec fn spec_stick_deflected(x: int, y: int) -> bool {
    DEAD_ZONE_DEN * spec_stick_norm2(x, y) > DEAD_ZONE_NUM * (STICK_SCALE * STICK_SCALE)
}

/// Decides whether the stick at raw position `(x, y)` has left the dead zone.
pub fn stick_deflected(x: i8, y: i8) -> (deflected: bool)
    ensures
        deflected == spec_stick_deflected(x as int, y as int),
{
    let xi: i32 = x as i32;
    let yi: i32 = y as i32;
    assert(0 <= xi * xi <= 16384) by (nonlinear_arith)
        requires
            -128 <= xi <= 127,
    ;
    assert(0 <= yi * yi <= 16384) by (nonlinear_arith)
        requires
            -128 <= yi <= 127,
    ;
    let norm2: i32 = xi * xi + yi * yi;
    DEAD_ZONE_DEN * norm2 > DEAD_ZONE_NUM * (STICK_SCALE * STICK_SCALE)
}

/// Mirroring the stick position on either axis, or swapping the axes, does not
/// change whether it is deflected.
pub proof fn lemma_deflection_is_symmetric(x: int, y: int)
    ensures
        spec_stick_deflected(-x, y) == spec_stick_deflected(x, y),
        spec_stick_deflected(x, -y) == spec_stick_deflected(x, y),
        spec_stick_deflected(y, x) == spec_stick_deflected(x, y),
{
    assert((-x) * (-x) == x * x) by (nonlinear_arith);
    assert((-y) * (-y) == y * y) by (nonlinear_arith);
}

/// The dead zone in raw units: a stick with both axes within 9 of the centre
/// is at rest, and a stick with an axis 13 or more away from it is deflected.
pub proof fn lemma_dead_zone_extent(x: int, y: int)
    ensures
        -9 <= x <= 9 && -9 <= y <= 9 ==> !spec_stick_deflected(x, y),
        x <= -13 || 13 <= x || y <= -13 || 13 <= y ==> spec_stick_deflected(x, y),
{
    assert(-9 <= x <= 9 ==> x * x <= 81) by (nonlinear_arith);
    assert(-9 <= y <= 9 ==> y * y <= 81) by (nonlinear_arith);
    assert(x <= -13 || 13 <= x ==> x * x >= 169) by (nonlinear_arith);
    assert(y <= -13 || 13 <= y ==> y * y >= 169) by (nonlinear_arith);
    assert(x * x >= 0) by (nonlinear_arith);
    assert(y * y >= 0) by (nonlinear_arith);
}

/// A position at least as far from the centre on each axis as a deflected one
/// is deflected too.
pub proof fn lemma_deflection_grows_outward(x: int, y: int, u: int, v: int)
    requires
        spec_stick_deflected(x, y),
        abs(x) <= abs(u),
        abs(y) <= abs(v),
    ensures
        spec_stick_deflected(u, v),
{
    assert(x * x <= u * u) by (nonlinear_arith)
        requires
            abs(x) <= abs(u),
    ;
    assert(y * y <= v * v) by (nonlinear_arith)
        requires
            abs(y) <= abs(v),
    ;
}

} // verus!

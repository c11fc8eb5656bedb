use vstd::prelude::*;

verus! {

/// The camera's view parameters, in thousandths of a scene unit (or of a
/// degree, for the field of view), so that the motion clamp is exact. The
/// eye sits on a fixed ray through the look-at target; `dist` is how far
/// along that ray it stands. The floating-point view-projection matrix is
/// computed from these values by the renderer each frame.
pub struct CameraModel {
    /// Distance from the eye to the look-at target, in thousandths.
    pub dist: u64,
    /// How far one step of directional input moves the eye, in thousandths.
    pub speed: u64,
    /// Vertical field of view, in thousandths of a degree.
    pub fovy_mdeg: u32,
    /// Near clip plane distance, in thousandths.
    pub znear: u64,
    /// Far clip plane distance, in thousandths.
    pub zfar: u64,
}

/// One forward step: the eye advances by `step` only while more than `step`
/// away from the target, and otherwise stays put, so it can never reach or
/// cross the target.
pub open spec fn spec_advance(dist: u64, step: u64) -> u64 {
    if dist > step {
        (dist - step) as u64
    } else {
        dist
    }
}

impl CameraModel {
    /// A fresh camera: just over two units back from the target (the eye at
    /// height one, two units out), a 45-degree field of view, clip planes at
    /// 0.1 and 100, and a step of 0.2 units.
    pub fn new() -> (c: Self)
        ensures
            c.dist == 2236,
            c.speed == 200,
            c.fovy_mdeg == 45000,
            c.znear == 100,
            c.zfar == 100000,
    {
        CameraModel { dist: 2236, speed: 200, fovy_mdeg: 45000, znear: 100, zfar: 100000 }
    }

    /// Moves the eye one step toward the target, clamped so it never reaches
    /// or passes the target.
    pub fn move_forward(&mut self)
        ensures
            final(self).dist == spec_advance(old(self).dist, old(self).speed),
            final(self).speed == old(self).speed,
            final(self).fovy_mdeg == old(self).fovy_mdeg,
            final(self).znear == old(self).znear,
            final(self).zfar == old(self).zfar,
    {
        if self.dist > self.speed {
            self.dist = self.dist - self.speed;
        }
    }

    /// Moves the eye one step away from the target.
    pub fn move_backward(&mut self)
        requires
            old(self).dist + old(self).speed <= u64::MAX,
        ensures
            final(self).dist == old(self).dist + old(self).speed,
            final(self).speed == old(self).speed,
            final(self).fovy_mdeg == old(self).fovy_mdeg,
            final(self).znear == old(self).znear,
            final(self).zfar == old(self).zfar,
    {
        self.dist = self.dist + self.speed;
    }
}

/// Forward-motion clamp: however large the step, a forward move never takes
/// the eye past the target. The remaining distance stays non-negative, never
/// grows, and stays strictly positive whenever it was.
pub proof fn lemma_forward_never_overshoots(dist: u64, step: u64)
    ensures
        0 <= spec_advance(dist, step) <= dist,
        dist > 0 ==> spec_advance(dist, step) > 0,
{
}

} // verus!

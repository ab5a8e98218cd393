//! The free-fly camera: a fixed binding table from travel direction to
//! key identifier, and the per-tick translation it induces.

use vstd::prelude::*;

verus! {

// Key identifiers of the default binding, as the ASCII codes of the key
// letters; an embedding maps them onto its input system's key codes.
pub const KEY_W: u32 = 87;
pub const KEY_A: u32 = 65;
pub const KEY_S: u32 = 83;
pub const KEY_D: u32 = 68;
pub const KEY_Z: u32 = 90;
pub const KEY_X: u32 = 88;

/// The camera's binding table: which held key drives each direction of
/// travel. Built once at controller initialization and never changed.
#[derive(Clone, Copy, PartialEq, Eq, Structural, Debug)]
pub struct MainCamera {
    pub forward: u32,
    pub backward: u32,
    pub left: u32,
    pub right: u32,
    pub up: u32,
    pub down: u32,
}

impl Default for MainCamera {
    /// The fixed default binding: W/S drive depth, A/D horizontal, and
    /// Z/X vertical travel.
    fn default() -> (c: Self)
        ensures
            c.forward == KEY_W,
            c.backward == KEY_S,
            c.left == KEY_A,
            c.right == KEY_D,
            c.up == KEY_Z,
            c.down == KEY_X,
    {
        MainCamera {
            forward: KEY_W,
            backward: KEY_S,
            left: KEY_A,
            right: KEY_D,
            up: KEY_Z,
            down: KEY_X,
        }
    }
}

/// The camera's position, each coordinate in hundredths of a world unit,
/// so that the per-tick step of 0.01 units is the integer `TICK_STEP`.
#[derive(Clone, Copy, PartialEq, Eq, Structural, Debug)]
pub struct CamPos {
    pub x: i64,
    pub y: i64,
    pub z: i64,
}

/// One tick's displacement along an axis, in hundredths of a world unit.
pub const TICK_STEP: i64 = 1;

/// The set of keys currently held, as the embedding's input query
/// reports them for one tick.
pub struct HeldKeys {
    pub keys: Vec<u32>,
}

impl HeldKeys {
    /// Whether key `k` is held this tick.
    pub open spec fn held(self, k: u32) -> bool {
        self.keys@.contains(k)
    }

    /// Membership test against the held-key set.
    pub fn is_held(&self, k: u32) -> (r: bool)
        ensures
            r == self.held(k),
    {
        let mut i: usize = 0;
        while i < self.keys.len()
            invariant
                i <= self.keys@.len(),
                forall|j: int| 0 <= j < i ==> self.keys@[j] != k,
            decreases self.keys@.len() - i,
        {
            if self.keys[i] == k {
                return true;
            }
            i = i + 1;
        }
        false
    }
}

/// The net per-tick movement along one axis: `TICK_STEP` toward the
/// positive direction when its key is held, the same toward the negative
/// one when its key is held; holding both cancels out.
pub open spec fn axis_step(neg_held: bool, pos_held: bool) -> int {
    (if pos_held {
        TICK_STEP as int
    } else {
        0
    }) - (if neg_held {
        TICK_STEP as int
    } else {
        0
    })
}

/// One simulation tick of the controller: translate the camera along
/// each axis according to the bound keys currently held. Forward travel
/// decreases `z` and backward increases it, up increases `y` and down
/// decreases it, right increases `x` and left decreases it; simultaneous
/// holds combine additively, opposite holds cancel, and nothing else
/// about the position changes. No clamping, no acceleration: each axis
/// contribution is exactly `0` or `TICK_STEP` per tick.
pub fn update(cam: &MainCamera, held: &HeldKeys, pos: &mut CamPos)
    requires
        old(pos).x - TICK_STEP >= i64::MIN && old(pos).x + TICK_STEP <= i64::MAX,
        old(pos).y - TICK_STEP >= i64::MIN && old(pos).y + TICK_STEP <= i64::MAX,
        old(pos).z - TICK_STEP >= i64::MIN && old(pos).z + TICK_STEP <= i64::MAX,
    ensures
        final(pos).x == old(pos).x + axis_step(held.held(cam.left), held.held(cam.right)),
        final(pos).y == old(pos).y + axis_step(held.held(cam.down), held.held(cam.up)),
        final(pos).z == old(pos).z + axis_step(held.held(cam.forward), held.held(cam.backward)),
{
    if held.is_held(cam.forward) {
        pos.z = pos.z - TICK_STEP;
    }
    if held.is_held(cam.backward) {
        pos.z = pos.z + TICK_STEP;
    }
    if held.is_held(cam.up) {
        pos.y = pos.y + TICK_STEP;
    }
    if held.is_held(cam.down) {
        pos.y = pos.y - TICK_STEP;
    }
    if held.is_held(cam.left) {
        pos.x = pos.x - TICK_STEP;
    }
    if held.is_held(cam.right) {
        pos.x = pos.x + TICK_STEP;
    }
}

} // verus!

use vstd::prelude::*;
use crate::label::{counter_label, spec_counter_label};
use crate::offset::{random_offset, spec_offset, OFFSET_SCALE};

verus! {

/// Microseconds that must accumulate before one cube is spawned.
pub const SPAWN_INTERVAL_MICROS: u128 = 100000;

/// Width, in world units, of the square patch that spawn points are drawn
/// from, centred above the origin.
pub const SPAWN_SPAN: u32 = 4;

/// What the fixed-update loop carries between frames: elapsed time not yet
/// spent on a spawn, and how many cubes exist so far.
pub struct SpawnState {
    pub pending_micros: u128,
    pub count: u32,
}

/// One cube to create: its fixed-point horizontal position, the cube count
/// after it, and the label text to display for that count.
pub struct SpawnCommand {
    pub x: i64,
    pub z: i64,
    pub count: u32,
    pub label: Vec<u8>,
}

impl SpawnState {
    /// The state before any time has passed: no cubes, nothing pending.
    pub fn new() -> (s: SpawnState)
        ensures
            s.pending_micros == 0,
            s.count == 0,
    {
        SpawnState { pending_micros: 0, count: 0 }
    }

    /// Advances the accumulated time by `delta_micros`. Once a full interval
    /// has accumulated, one interval is consumed and one cube is commanded:
    /// its offsets are bounded by half the spawn span each side of zero, and
    /// its label shows the incremented count. At most one cube is commanded
    /// per call, however much time has passed.
    pub fn step(&mut self, delta_micros: u128) -> (r: Option<SpawnCommand>)
        requires
            old(self).pending_micros + delta_micros <= u128::MAX,
            old(self).pending_micros + delta_micros >= SPAWN_INTERVAL_MICROS
                ==> old(self).count < u32::MAX,
        ensures
            old(self).pending_micros + delta_micros < SPAWN_INTERVAL_MICROS ==> {
                &&& r is None
                &&& final(self).pending_micros == old(self).pending_micros + delta_micros
                &&& final(self).count == old(self).count
            },
            old(self).pending_micros + delta_micros >= SPAWN_INTERVAL_MICROS ==> {
                &&& final(self).pending_micros
                    == old(self).pending_micros + delta_micros - SPAWN_INTERVAL_MICROS
                &&& final(self).count == old(self).count + 1
                &&& r matches Some(c)
                &&& c.count == old(self).count + 1
                &&& c.label@ == spec_counter_label((old(self).count + 1) as nat)
                &&& -(SPAWN_SPAN as int) * (OFFSET_SCALE / 2) <= c.x
                    <= (SPAWN_SPAN as int) * (OFFSET_SCALE / 2 - 1)
                &&& -(SPAWN_SPAN as int) * (OFFSET_SCALE / 2) <= c.z
                    <= (SPAWN_SPAN as int) * (OFFSET_SCALE / 2 - 1)
                &&& exists|raw: u32| c.x == spec_offset(raw, SPAWN_SPAN)
                &&& exists|raw: u32| c.z == spec_offset(raw, SPAWN_SPAN)
            },
    {
        self.pending_micros = self.pending_micros + delta_micros;
        if self.pending_micros < SPAWN_INTERVAL_MICROS {
            return None;
        }
        self.pending_micros = self.pending_micros - SPAWN_INTERVAL_MICROS;
        self.count = self.count + 1;
        let x = random_offset(SPAWN_SPAN);
        let z = random_offset(SPAWN_SPAN);
        let label = counter_label(self.count);
        Some(SpawnCommand { x, z, count: self.count, label })
    }
}

} // verus!

//! Random glider spawning: a glider at a random cell with a random
//! heading, and a random pause before the next one.

use vstd::prelude::*;
use rand::rngs::ThreadRng;
use rand::RngExt;
use crate::game_of_life::{glider_rotation, placed, spawn_glider};

verus! {

/// rand's thread-local generator, carried through as an opaque value.
#[verifier::external_type_specification]
#[verifier::external_body]
pub struct ExThreadRng(ThreadRng);

/// Calls `rand::rng()`, a handle to the thread-local generator. Nothing is
/// stated of it; rand panics there only if the operating system cannot
/// seed the generator, which no argument can rule out.
#[verifier::external_body]
fn thread_rng() -> ThreadRng {
    rand::rng()
}

/// Calls `RngExt::random_range` of rand on `lo..hi`, which rand documents
/// as a value drawn from that range; it panics on an empty range, which
/// `requires` rules out.
#[verifier::external_body]
fn random_in(rng: &mut ThreadRng, lo: usize, hi: usize) -> (r: usize)
    requires
        lo < hi,
    ensures
        lo <= r < hi,
{
    rng.random_range(lo..hi)
}

/// Shortest pause between two spawned gliders, in seconds.
pub const MIN_SPAWN_DELAY_SECS: u64 = 10;

/// Longest pause between two spawned gliders, in seconds.
pub const MAX_SPAWN_DELAY_SECS: u64 = 30;

/// Where a glider was placed: its centre and its number of quarter turns.
#[derive(Clone, Copy, Debug, PartialEq, Eq, Structural)]
pub struct GliderSpawn {
    pub cx: usize,
    pub cy: usize,
    pub rotation: usize,
}

/// Places gliders at random.
pub struct GliderSpawner {
    rng: ThreadRng,
}

impl GliderSpawner {
    /// A spawner drawing from the thread-local generator.
    pub fn new() -> (s: GliderSpawner) {
        GliderSpawner { rng: thread_rng() }
    }

    /// Seconds until the next glider, between `MIN_SPAWN_DELAY_SECS` and
    /// `MAX_SPAWN_DELAY_SECS` inclusive.
    pub fn next_delay_secs(&mut self) -> (d: u64)
        ensures
            MIN_SPAWN_DELAY_SECS <= d <= MAX_SPAWN_DELAY_SECS,
    {
        let r = random_in(&mut self.rng, 10, 31);
        r as u64
    }

    /// Places a glider at a random cell of a `width` by `height` grid,
    /// turned by a random number of quarter turns, and tells where.
    pub fn spawn(&mut self, grid: &mut [u8], width: usize, height: usize) -> (g: GliderSpawn)
        requires
            width >= 1,
            height >= 1,
            width * height <= old(grid).len(),
        ensures
            g.cx < width,
            g.cy < height,
            g.rotation < 4,
            final(grid)@ == placed(
                old(grid)@,
                g.cx as int,
                g.cy as int,
                glider_rotation(g.rotation as int),
                width as int,
                height as int,
            ),
    {
        let cx = random_in(&mut self.rng, 0, width);
        let cy = random_in(&mut self.rng, 0, height);
        let rotation = random_in(&mut self.rng, 0, 4);
        spawn_glider(grid, cx, cy, rotation, width, height);
        GliderSpawn { cx, cy, rotation }
    }
}

} // verus!

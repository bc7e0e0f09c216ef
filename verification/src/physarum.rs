//! Integer layout of the Physarum trail map: one plane of `width` by
//! `height` cells per species, planes stored one after another, cells of a
//! plane in row-major order.

use vstd::prelude::*;
use crate::game_of_life::{shifted, wrap_coord};

verus! {

/// Number of species of the simulation.
pub const NUM_SPECIES: u32 = 3;

/// Bytes of one trail value (an `f32`).
pub const TRAIL_VALUE_BYTES: u64 = 4;

/// Bytes of one agent: position, heading and species, four `f32`s.
pub const AGENT_BYTES: u64 = 16;

/// Shape of a trail map.
#[derive(Clone, Copy, Debug, PartialEq, Eq, Structural)]
pub struct TrailLayout {
    pub width: u32,
    pub height: u32,
    pub num_species: u32,
}

/// Offset of cell `(x, y)` of the plane of `species`.
pub open spec fn trail_offset(species: int, x: int, y: int, w: int, h: int) -> int {
    species * (w * h) + y * w + x
}

/// Species of the agent at position `i`: species cycle 0, 1, 2, 0, ...
pub open spec fn agent_species(i: int) -> int {
    i % (NUM_SPECIES as int)
}

impl TrailLayout {
    /// The layout of a map of `width` by `height` cells for every species.
    pub fn new(width: u32, height: u32) -> (l: TrailLayout)
        ensures
            l == (TrailLayout { width, height, num_species: NUM_SPECIES }),
    {
        TrailLayout { width, height, num_species: NUM_SPECIES }
    }

    /// Cells of one species plane.
    pub open spec fn plane(self) -> int {
        self.width * self.height
    }

    /// Cells of one species plane.
    pub fn plane_size(&self) -> (n: usize)
        requires
            self.width * self.height <= usize::MAX,
        ensures
            n == self.plane(),
    {
        self.width as usize * self.height as usize
    }

    /// Values in a trail map: one plane per species.
    pub fn trail_len(&self) -> (n: usize)
        requires
            self.width * self.height * self.num_species <= usize::MAX,
        ensures
            n == self.plane() * self.num_species,
    {
        proof {
            assert(self.width * self.height <= self.width * self.height * self.num_species || self.num_species == 0)
                by (nonlinear_arith);
        }
        if self.num_species == 0 {
            proof {
                assert(self.plane() * 0 == 0);
            }
            return 0;
        }
        self.plane_size() * self.num_species as usize
    }

    /// Bytes of a buffer holding a trail map of `f32` values.
    pub fn trail_buffer_bytes(&self) -> (n: u64)
        requires
            self.width * self.height * self.num_species * TRAIL_VALUE_BYTES <= u64::MAX,
        ensures
            n == self.plane() * self.num_species * TRAIL_VALUE_BYTES,
    {
        if self.num_species == 0 {
            proof {
                assert(self.plane() * 0 * TRAIL_VALUE_BYTES == 0);
            }
            return 0;
        }
        proof {
            let a = self.width as int;
            let b = self.height as int;
            assert(a * b <= u64::MAX) by (nonlinear_arith)
                requires
                    0 <= a <= u32::MAX,
                    0 <= b <= u32::MAX,
            ;
        }
        let plane = self.width as u64 * self.height as u64;
        proof {
            let p = plane as int;
            let q = self.num_species as int;
            assert(p * q <= p * q * 4) by (nonlinear_arith)
                requires
                    p >= 0,
                    q >= 1,
            ;
        }
        plane * self.num_species as u64 * TRAIL_VALUE_BYTES
    }

    /// Offset in the trail map of cell `(x, y)` of the plane of `species`;
    /// agents deposit there.
    pub fn cell_index(&self, species: usize, x: usize, y: usize) -> (i: usize)
        requires
            self.width * self.height <= usize::MAX,
            trail_offset(species as int, x as int, y as int, self.width as int, self.height as int) <= usize::MAX,
        ensures
            i == trail_offset(species as int, x as int, y as int, self.width as int, self.height as int),
    {
        let w = self.width as usize;
        let h = self.height as usize;
        let plane = w * h;
        proof {
            assert(0 <= species * plane) by (nonlinear_arith)
                requires
                    plane >= 0,
            ;
            assert(0 <= y * w) by (nonlinear_arith);
        }
        species * plane + y * w + x
    }

    /// Offset of the cell at `(x + dx, y + dy)` of the plane of `species`,
    /// wrapping at the edges; the blur reads these nine cells around each
    /// cell.
    pub fn neighbor_index(&self, species: usize, x: usize, y: usize, dx: isize, dy: isize) -> (i: usize)
        requires
            self.width >= 1,
            self.height >= 1,
            species < self.num_species,
            self.width * self.height * self.num_species <= usize::MAX,
            -1 <= dx <= 1,
            -1 <= dy <= 1,
        ensures
            i == trail_offset(
                species as int,
                wrap_coord(x as int, dx as int, self.width as int),
                wrap_coord(y as int, dy as int, self.height as int),
                self.width as int,
                self.height as int,
            ),
            i < self.plane() * self.num_species,
            species * self.plane() <= i < (species + 1) * self.plane(),
    {
        let w = self.width as usize;
        let h = self.height as usize;
        let nx = shifted(x, dx, w);
        let ny = shifted(y, dy, h);
        proof {
            crate::game_of_life::lemma_cell_in_grid(nx as int, ny as int, w as int, h as int);
            let s = species as int;
            let p = w * h;
            let q = self.num_species as int;
            assert(s * p + p <= q * p) by (nonlinear_arith)
                requires
                    0 <= s < q,
                    0 <= p,
            ;
            assert(q * p == w * h * q) by (nonlinear_arith)
                requires
                    p == w * h,
            ;
            assert((s + 1) * p == s * p + p) by (nonlinear_arith);
        }
        species * (w * h) + ny * w + nx
    }
}

/// Species of the agent at position `i` of the agent list.
pub fn species_for_agent(i: usize) -> (s: u32)
    ensures
        s == agent_species(i as int),
        s < NUM_SPECIES,
{
    (i % 3) as u32
}

/// Bytes of a buffer holding `num_agents` agents, never less than one
/// agent's worth.
pub fn agent_buffer_bytes(num_agents: u32) -> (n: u64)
    ensures
        n == (if num_agents == 0 { 1 } else { num_agents as int }) * AGENT_BYTES,
{
    let n: u64 = if num_agents == 0 { 1 } else { num_agents as u64 };
    n * AGENT_BYTES
}

} // verus!

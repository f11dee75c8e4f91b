//! Terrain heights: the bare-earth level and the surface (roofs, canopy)
//! level of each block column of the region being generated.

use vstd::prelude::*;
use crate::coordinate_system::XZPoint;
use rustc_hash::FxBuildHasher;
use std::collections::HashMap;
use std::sync::Arc;

verus! {

#[verifier::external_type_specification]
#[verifier::external_body]
pub struct ExFxBuildHasher(FxBuildHasher);

/// Heights by block column, hashed with `rustc_hash` (`FxHashMap`).
pub type HeightMap = HashMap<(i32, i32), i32, FxBuildHasher>;

/// `HashMap::get` on an Fx-hashed map of heights: the height stored for the
/// column, if any. The claim rests on `FxHasher` hashing deterministically.
#[verifier::external_body]
fn height_map_get(m: &HeightMap, x: i32, z: i32) -> (r: Option<i32>)
    ensures
        match r {
            Some(v) => m@.contains_key((x, z)) && m@[(x, z)] == v,
            None => !m@.contains_key((x, z)),
        },
{
    m.get(&(x, z)).copied()
}

/// Terrain of the region being generated.
#[derive(Clone)]
pub struct Ground {
    pub elevation_enabled: bool,
    pub ground_level: i32,
    bare_earth_cache: Arc<HeightMap>,
    canopy_surface_cache: Arc<HeightMap>,
}

impl Ground {
    /// Whether heights vary.
    pub closed spec fn spec_enabled(self) -> bool {
        self.elevation_enabled
    }

    /// The global ground level.
    pub closed spec fn spec_ground_level(self) -> i32 {
        self.ground_level
    }

    /// The bare-earth heights known for the region.
    pub closed spec fn bare_earth(self) -> Map<(i32, i32), i32> {
        self.bare_earth_cache@
    }

    /// The surface heights known for the region.
    pub closed spec fn canopy_surface(self) -> Map<(i32, i32), i32> {
        self.canopy_surface_cache@
    }

    /// Bare-earth height of a column: the known height, or the global level
    /// when none is known or elevation is off.
    pub open spec fn spec_level(self, c: XZPoint) -> i32 {
        if !self.spec_enabled() {
            self.spec_ground_level()
        } else if self.bare_earth().contains_key((c.x, c.z)) {
            self.bare_earth()[(c.x, c.z)]
        } else {
            self.spec_ground_level()
        }
    }

    /// Surface height of a column: the known surface, else the bare-earth height.
    pub open spec fn spec_surface_level(self, c: XZPoint) -> i32 {
        if !self.spec_enabled() {
            self.spec_ground_level()
        } else if self.canopy_surface().contains_key((c.x, c.z)) {
            self.canopy_surface()[(c.x, c.z)]
        } else {
            self.spec_level(c)
        }
    }

    /// A flat world at `ground_level`.
    pub fn new_flat(ground_level: i32) -> (g: Ground)
        ensures
            !g.spec_enabled(),
            g.spec_ground_level() == ground_level,
            g.bare_earth() == Map::<(i32, i32), i32>::empty(),
            g.canopy_surface() == Map::<(i32, i32), i32>::empty(),
    {
        Ground {
            elevation_enabled: false,
            ground_level,
            bare_earth_cache: Arc::new(HashMap::default()),
            canopy_surface_cache: Arc::new(HashMap::default()),
        }
    }

    /// Terrain from the heights known for the current region.
    pub fn new_enabled(
        ground_level: i32,
        bare_earth_cache: Arc<HeightMap>,
        canopy_surface_cache: Arc<HeightMap>,
    ) -> (g: Ground)
        ensures
            g.spec_enabled(),
            g.spec_ground_level() == ground_level,
            g.bare_earth() == bare_earth_cache@,
            g.canopy_surface() == canopy_surface_cache@,
    {
        Ground { elevation_enabled: true, ground_level, bare_earth_cache, canopy_surface_cache }
    }

    /// Bare-earth height at a column.
    pub fn level(&self, coord: XZPoint) -> (y: i32)
        ensures
            y == self.spec_level(coord),
    {
        if !self.elevation_enabled {
            return self.ground_level;
        }
        match height_map_get(&self.bare_earth_cache, coord.x, coord.z) {
            Some(y) => y,
            None => self.ground_level,
        }
    }

    /// Surface height at a column (roofs, tree tops, bridges).
    pub fn surface_level(&self, coord: XZPoint) -> (y: i32)
        ensures
            y == self.spec_surface_level(coord),
    {
        if !self.elevation_enabled {
            return self.ground_level;
        }
        match height_map_get(&self.canopy_surface_cache, coord.x, coord.z) {
            Some(y) => y,
            None => self.level(coord),
        }
    }

    /// Lowest bare-earth height over the columns; with elevation off, the
    /// global level (even for no column); `None` for no column otherwise.
    pub fn min_level(&self, coords: &[XZPoint]) -> (r: Option<i32>)
        ensures
            !self.spec_enabled() ==> r == Some(self.spec_ground_level()),
            self.spec_enabled() && coords@.len() == 0 ==> r is None,
            self.spec_enabled() && coords@.len() > 0 ==> (r matches Some(m) && (exists|i: int|
                0 <= i < coords@.len() && m == self.spec_level(#[trigger] coords@[i])) && (forall|
                i: int,
            | 0 <= i < coords@.len() ==> m <= self.spec_level(#[trigger] coords@[i]))),
    {
        if !self.elevation_enabled {
            return Some(self.ground_level);
        }
        if coords.len() == 0 {
            return None;
        }
        let mut m = self.level(coords[0]);
        let mut i: usize = 1;
        while i < coords.len()
            invariant
                self.spec_enabled(),
                1 <= i <= coords@.len(),
                exists|k: int| 0 <= k < i && m == self.spec_level(#[trigger] coords@[k]),
                forall|k: int| 0 <= k < i ==> m <= self.spec_level(#[trigger] coords@[k]),
            decreases coords@.len() - i,
        {
            let y = self.level(coords[i]);
            if y < m {
                m = y;
            }
            i = i + 1;
        }
        Some(m)
    }

    /// Highest bare-earth height over the columns; with elevation off, the
    /// global level (even for no column); `None` for no column otherwise.
    pub fn max_level(&self, coords: &[XZPoint]) -> (r: Option<i32>)
        ensures
            !self.spec_enabled() ==> r == Some(self.spec_ground_level()),
            self.spec_enabled() && coords@.len() == 0 ==> r is None,
            self.spec_enabled() && coords@.len() > 0 ==> (r matches Some(m) && (exists|i: int|
                0 <= i < coords@.len() && m == self.spec_level(#[trigger] coords@[i])) && (forall|
                i: int,
            | 0 <= i < coords@.len() ==> m >= self.spec_level(#[trigger] coords@[i]))),
    {
        if !self.elevation_enabled {
            return Some(self.ground_level);
        }
        if coords.len() == 0 {
            return None;
        }
        let mut m = self.level(coords[0]);
        let mut i: usize = 1;
        while i < coords.len()
            invariant
                self.spec_enabled(),
                1 <= i <= coords@.len(),
                exists|k: int| 0 <= k < i && m == self.spec_level(#[trigger] coords@[k]),
                forall|k: int| 0 <= k < i ==> m >= self.spec_level(#[trigger] coords@[k]),
            decreases coords@.len() - i,
        {
            let y = self.level(coords[i]);
            if y > m {
                m = y;
            }
            i = i + 1;
        }
        Some(m)
    }
}

} // verus!

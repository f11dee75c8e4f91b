//! The integer side of terrain elevation: which map tiles cover an area,
//! how failed tile downloads are retried, which cached tiles are stale,
//! which LiDAR points are ground, and the range terrain heights are held to.

use vstd::prelude::*;
use vstd::arithmetic::div_mod::lemma_fundamental_div_mod_converse;

verus! {

/// Highest block level of the world.
pub const MAX_Y: i32 = 4064;
/// Blocks left free above the highest terrain.
pub const TERRAIN_HEIGHT_BUFFER: i32 = 300;
/// Coarsest zoom level of elevation tiles.
pub const MIN_ZOOM: u8 = 10;
/// Finest zoom level of elevation tiles.
pub const MAX_ZOOM: u8 = 15;
/// Tiles downloaded at the same time.
pub const MAX_CONCURRENT_DOWNLOADS: usize = 8;
/// Days a cached tile is kept.
pub const TILE_CACHE_MAX_AGE_DAYS: u64 = 7;
/// Attempts made to download one tile.
pub const TILE_DOWNLOAD_MAX_RETRIES: u32 = 3;
/// Wait before the first retry, doubled before each further one.
pub const TILE_DOWNLOAD_RETRY_BASE_DELAY_MS: u64 = 500;

/// The zoom level used for an estimated one: held between `MIN_ZOOM` and
/// `MAX_ZOOM`.
pub fn clamp_zoom(z: u8) -> (r: u8)
    ensures
        r == (if z < MIN_ZOOM {
            MIN_ZOOM
        } else if z > MAX_ZOOM {
            MAX_ZOOM
        } else {
            z
        }),
{
    if z < MIN_ZOOM {
        MIN_ZOOM
    } else if z > MAX_ZOOM {
        MAX_ZOOM
    } else {
        z
    }
}

// ---------------------------------------------------------------------------
// Tiles
// ---------------------------------------------------------------------------

pub open spec fn min_u32(a: u32, b: u32) -> u32 {
    if a <= b {
        a
    } else {
        b
    }
}

pub open spec fn max_u32(a: u32, b: u32) -> u32 {
    if a <= b {
        b
    } else {
        a
    }
}

/// The number of tiles between two corner tiles, corners included.
pub open spec fn tile_count(x1: u32, y1: u32, x2: u32, y2: u32) -> int {
    (max_u32(x1, x2) - min_u32(x1, x2) + 1) * (max_u32(y1, y2) - min_u32(y1, y2) + 1)
}

/// The tiles of the rectangle spanned by two corner tiles, column by column
/// (x outer, y inner), each in increasing order.
pub open spec fn spec_tile_range(x1: u32, y1: u32, x2: u32, y2: u32) -> Seq<(u32, u32)> {
    let lx = min_u32(x1, x2) as int;
    let ly = min_u32(y1, y2) as int;
    let ny = max_u32(y1, y2) - ly + 1;
    Seq::new(tile_count(x1, y1, x2, y2) as nat, |k: int| ((lx + k / ny) as u32, (ly + k % ny) as u32))
}

/// The tiles covering an area whose corners fall in tiles `(x1, y1)` and
/// `(x2, y2)`.
pub fn tile_range(x1: u32, y1: u32, x2: u32, y2: u32) -> (v: Vec<(u32, u32)>)
    requires
        tile_count(x1, y1, x2, y2) <= usize::MAX,
    ensures
        v@ == spec_tile_range(x1, y1, x2, y2),
{
    let lx: u64 = if x1 <= x2 { x1 as u64 } else { x2 as u64 };
    let hx: u64 = if x1 <= x2 { x2 as u64 } else { x1 as u64 };
    let ly: u64 = if y1 <= y2 { y1 as u64 } else { y2 as u64 };
    let hy: u64 = if y1 <= y2 { y2 as u64 } else { y1 as u64 };
    let ghost ny: int = hy - ly + 1;
    let ghost target = spec_tile_range(x1, y1, x2, y2);
    let mut v: Vec<(u32, u32)> = Vec::new();
    let mut x: u64 = lx;
    while x <= hx
        invariant
            lx <= x <= hx + 1,
            hx <= u32::MAX,
            ly <= hy <= u32::MAX,
            lx == min_u32(x1, x2),
            hx == max_u32(x1, x2),
            ly == min_u32(y1, y2),
            hy == max_u32(y1, y2),
            ny == hy - ly + 1,
            target == spec_tile_range(x1, y1, x2, y2),
            target.len() == (hx - lx + 1) * ny,
            target.len() <= usize::MAX,
            v@ == target.subrange(0, (x - lx) * ny),
        decreases hx + 1 - x,
    {
        proof {
            assert((x - lx) * ny + ny == (x + 1 - lx) * ny) by (nonlinear_arith);
            assert((x + 1 - lx) * ny <= (hx - lx + 1) * ny) by (nonlinear_arith)
                requires
                    x + 1 - lx <= hx - lx + 1,
                    ny >= 1,
            ;
        }
        let mut y: u64 = ly;
        while y <= hy
            invariant
                lx <= x <= hx,
                hx <= u32::MAX,
                ly <= y <= hy + 1,
                hy <= u32::MAX,
                lx == min_u32(x1, x2),
                ly == min_u32(y1, y2),
                hy == max_u32(y1, y2),
                ny == hy - ly + 1,
                target == spec_tile_range(x1, y1, x2, y2),
                (x + 1 - lx) * ny <= target.len(),
                target.len() <= usize::MAX,
                (x - lx) * ny + ny == (x + 1 - lx) * ny,
                v@ == target.subrange(0, (x - lx) * ny + (y - ly)),
            decreases hy + 1 - y,
        {
            let ghost k: int = (x - lx) * ny + (y - ly);
            proof {
                lemma_fundamental_div_mod_converse(k, ny, x - lx, y - ly);
                assert(target[k] == ((x as int) as u32, (y as int) as u32));
            }
            v.push((x as u32, y as u32));
            proof {
                assert(v@ =~= target.subrange(0, k + 1));
            }
            y = y + 1;
        }
        x = x + 1;
    }
    proof {
        assert(v@ =~= target);
    }
    v
}

// ---------------------------------------------------------------------------
// Downloads
// ---------------------------------------------------------------------------

/// Before attempt `attempt` (from 0) of a tile download: `None` once all
/// attempts are spent, else the wait in milliseconds, none before the first
/// and doubling from `TILE_DOWNLOAD_RETRY_BASE_DELAY_MS` after.
pub open spec fn spec_retry_delay(attempt: u32) -> Option<u64> {
    if attempt >= TILE_DOWNLOAD_MAX_RETRIES {
        None
    } else if attempt == 0 {
        Some(0u64)
    } else if attempt == 1 {
        Some(TILE_DOWNLOAD_RETRY_BASE_DELAY_MS)
    } else {
        Some((2 * TILE_DOWNLOAD_RETRY_BASE_DELAY_MS) as u64)
    }
}

/// Whether to try a tile download again and after how long.
pub fn retry_delay(attempt: u32) -> (r: Option<u64>)
    ensures
        r == spec_retry_delay(attempt),
{
    if attempt >= TILE_DOWNLOAD_MAX_RETRIES {
        None
    } else if attempt == 0 {
        Some(0)
    } else {
        let shift: u64 = (attempt - 1) as u64;
        proof {
            assert(shift == 0 || shift == 1);
            assert((1u64 << 0u64) == 1u64 && (1u64 << 1u64) == 2u64) by (bit_vector);
        }
        Some(TILE_DOWNLOAD_RETRY_BASE_DELAY_MS * (1u64 << shift))
    }
}

// ---------------------------------------------------------------------------
// Tile cache
// ---------------------------------------------------------------------------

/// Whether `s` ends with `suffix`.
pub open spec fn ends_with(s: Seq<char>, suffix: Seq<char>) -> bool {
    s.len() >= suffix.len() && s.subrange(s.len() - suffix.len(), s.len() as int) == suffix
}

/// The longest a cached tile is kept, in seconds.
pub open spec fn max_tile_age_secs() -> int {
    TILE_CACHE_MAX_AGE_DAYS * 24 * 60 * 60
}

/// A cached tile to delete: a `.png` file whose name starts with `z`, older
/// than the cache's age limit (its age given in seconds and nanoseconds).
pub open spec fn spec_is_stale_tile(name: Seq<char>, age_secs: u64, age_nanos: u32) -> bool {
    &&& ends_with(name, ".png"@)
    &&& name.len() > 0 && name[0] == 'z'
    &&& (age_secs > max_tile_age_secs() || (age_secs == max_tile_age_secs() && age_nanos > 0))
}

/// Whether a file of the tile cache is a stale tile.
pub fn is_stale_tile(name: &str, age_secs: u64, age_nanos: u32) -> (b: bool)
    ensures
        b == spec_is_stale_tile(name@, age_secs, age_nanos),
{
    proof {
        reveal_strlit(".png");
    }
    let n = name.unicode_len();
    if n < 4 {
        return false;
    }
    let png = name.get_char(n - 4) == '.' && name.get_char(n - 3) == 'p' && name.get_char(n - 2)
        == 'n' && name.get_char(n - 1) == 'g';
    proof {
        let tail = name@.subrange(n - 4, n as int);
        if png {
            assert(tail =~= ".png"@);
        } else {
            assert(tail != ".png"@) by {
                if tail == ".png"@ {
                    assert(tail[0] == name@[n - 4]);
                    assert(tail[1] == name@[n - 3]);
                    assert(tail[2] == name@[n - 2]);
                    assert(tail[3] == name@[n - 1]);
                }
            }
        }
    }
    if !png || name.get_char(0) != 'z' {
        return false;
    }
    let max_age: u64 = TILE_CACHE_MAX_AGE_DAYS * 24 * 60 * 60;
    age_secs > max_age || (age_secs == max_age && age_nanos > 0)
}

// ---------------------------------------------------------------------------
// Heights
// ---------------------------------------------------------------------------

/// LiDAR point classes that are kept as terrain: ground (2) and water (9),
/// so that tree tops and roofs do not raise the land.
pub fn is_ground_class(classification: u8) -> (b: bool)
    ensures
        b == (classification == 2 || classification == 9),
{
    classification == 2 || classification == 9
}

/// A terrain height in blocks held between the ground level and the
/// highest level terrain may reach.
pub fn clamp_terrain_height(h: i32, ground_level: i32) -> (r: i32)
    requires
        ground_level <= MAX_Y - TERRAIN_HEIGHT_BUFFER,
    ensures
        r == (if h < ground_level {
            ground_level as int
        } else if h > MAX_Y - TERRAIN_HEIGHT_BUFFER {
            MAX_Y - TERRAIN_HEIGHT_BUFFER
        } else {
            h as int
        }),
{
    if h < ground_level {
        ground_level
    } else if h > MAX_Y - TERRAIN_HEIGHT_BUFFER {
        MAX_Y - TERRAIN_HEIGHT_BUFFER
    } else {
        h
    }
}

} // verus!

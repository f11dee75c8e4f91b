# pincel

The verified core of a generator that turns OpenStreetMap-style data into
Minecraft worlds of the Federal District of Brazil.

- `src/` is the library, written in Verus: bounding boxes, polygon
  rasterisation, coordinate bitmaps and the cache of fills, deterministic
  seeding of random generators, terrain lookups, the reading of OSM nodes,
  ways and relations, and the tag-driven decisions of every element
  processor (roads, buildings and their interiors, trees, water, power,
  landmarks, amenities, advertising, elevation tiles). Each public function
  states its result in its `ensures`; properties that span several calls are
  proof functions named `lemma_*`.
- `tests/` runs the library on concrete values.
- `app/` is the program around it: the interactive dashboard, the JSON copies
  of the OSM types, the tile cache on disk, and the floating-point arithmetic
  (scales, noise, elevation smoothing) that stays outside the verified code.

Block placement itself goes through a world editor that is not part of this
crate; the library hands it decisions, plans, and the geometry of structures.
That geometry is stated cell by cell: a function `*_block_at` gives the block
a structure leaves at a cell once all its writes are done, a later write
replacing an earlier one at the same cell, except where a write names the
blocks it may replace.

Random choices come from generators seeded deterministically from an
element's id or a block's position (`deterministic_rng`). The functions that
draw (`draw_*`, `landuse_grounds`, `statue_bronze`, `obelisk_height`,
`tree_height_jitter`) take from the generator exactly the draws the
generation makes, so the same element always gives the same blocks; their
contracts name each draw's value and the generator's state after it.

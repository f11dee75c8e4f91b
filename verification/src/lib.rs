//! Verified core of a world generator that turns OpenStreetMap-style data
//! into Minecraft blocks: coordinates and bounding boxes, polygon
//! rasterisation, coordinate bitmaps and fill caches, deterministic seeding,
//! terrain lookups and the tag-driven decisions of the element processors.

pub mod coordinate_system;
pub mod deterministic_rng;
pub mod floodfill;
pub mod fill_holes;
pub mod floodfill_cache;
pub mod ground;
pub mod text;
pub mod tags;
pub mod osm_parser;
pub mod highways;
pub mod data_processing;
pub mod doors;
pub mod buildings_interior;
pub mod tree;
pub mod waterways;
pub mod power;
pub mod man_made;
pub mod historic;
pub mod landmarks;
pub mod bridges;
pub mod amenities;
pub mod landuse;
pub mod natural;
pub mod elevation;
pub mod advertising;
pub mod water_areas;
pub mod coord_map;
pub mod master_control;

//! Geometry and classification helpers for turning OpenStreetMap data into
//! Minecraft worlds: Bresenham lines, building classification, door
//! placement and the block-name table for older Minecraft releases.
pub mod bresenham;
pub mod element_processing;
pub mod legacy_blocks;
pub mod osm_parser;
pub mod text;
pub mod target_version;

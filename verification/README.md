# arnis (verified core)

Pieces of an OpenStreetMap-to-Minecraft world generator, written in Verus
with their behaviour stated in contracts and proved:

- `bresenham` — 3D Bresenham lines and 4-connected lines on the XZ plane,
  with laws on their length, end points and steps.
- `target_version` and `legacy_blocks` — the targeted Minecraft release, its
  world limits, command-line parsing, and the table of 1.16.5 stand-ins for
  newer blocks.
- `element_processing::building_semantic` — classification of OSM ways into
  building subtypes and normalisation of brand names.
- `element_processing::doors` — the entrance index and fallback doors.
- `osm_parser` — the tag sets, nodes and ways these read.
- `text` — the string operations of `std` that the above call, each behind a
  contract.

`app/` holds the conversions to the rest of the generator (hash maps,
floating-point confidences, writing door blocks).

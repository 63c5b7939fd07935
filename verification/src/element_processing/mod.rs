//! Classification and placement rules applied to OSM elements.
pub mod building_semantic;
pub mod doors;

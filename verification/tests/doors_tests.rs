use std::collections::HashSet;

use arnis::element_processing::doors::{
    collect_building_entrances, generate_doors, BuildingEntrance, DoorBlock,
};
use arnis::osm_parser::{ProcessedElement, ProcessedNode, ProcessedWay, Tags};

fn node(id: u64, x: i32, z: i32, pairs: &[(&str, &str)]) -> ProcessedNode {
    let mut tags = Tags::new();
    for (k, v) in pairs {
        tags.insert((*k).to_string(), (*v).to_string());
    }
    ProcessedNode { id, tags, x, z }
}

#[test]
fn entrances_are_indexed_by_cell() {
    let elements = vec![
        ProcessedElement::Node(node(1, 3, 4, &[("entrance", "main")])),
        ProcessedElement::Node(node(2, 5, 6, &[("door", "hinged")])),
        ProcessedElement::Node(node(3, 7, 8, &[("amenity", "bench")])),
        ProcessedElement::Way(ProcessedWay { id: 9, nodes: vec![], tags: Tags::new() }),
    ];
    let table = collect_building_entrances(&elements);
    assert_eq!(
        table.get(3, 4),
        Some(BuildingEntrance { node_id: 1, is_main_entrance: true })
    );
    assert_eq!(
        table.get(5, 6),
        Some(BuildingEntrance { node_id: 2, is_main_entrance: false })
    );
    assert_eq!(table.get(7, 8), None);
    assert_eq!(table.as_slice().len(), 2);
}

#[test]
fn upper_floor_entrances_are_skipped() {
    let elements = vec![
        ProcessedElement::Node(node(1, 0, 0, &[("entrance", "yes"), ("level", "2")])),
        ProcessedElement::Node(node(2, 1, 0, &[("entrance", "yes"), ("level", "0")])),
        ProcessedElement::Node(node(3, 2, 0, &[("entrance", "yes"), ("level", "ground")])),
        ProcessedElement::Node(node(4, 3, 0, &[("door", "yes"), ("level", "-1")])),
    ];
    let table = collect_building_entrances(&elements);
    assert_eq!(table.get(0, 0), None);
    assert!(table.get(1, 0).is_some());
    // A level that is not an integer counts as the ground floor.
    assert!(table.get(2, 0).is_some());
    assert_eq!(table.get(3, 0), None);
}

#[test]
fn later_entrance_replaces_earlier_one() {
    let elements = vec![
        ProcessedElement::Node(node(1, 2, 2, &[("entrance", "service")])),
        ProcessedElement::Node(node(2, 2, 2, &[("entrance", "emergency")])),
    ];
    let table = collect_building_entrances(&elements);
    assert_eq!(
        table.get(2, 2),
        Some(BuildingEntrance { node_id: 2, is_main_entrance: false })
    );
    assert_eq!(table.as_slice().len(), 1);
}

#[test]
fn main_entrance_values() {
    for (value, main) in [
        ("main", true),
        ("primary", true),
        ("yes", true),
        ("home", true),
        ("shop", true),
        ("service", true),
        ("staircase", false),
    ] {
        let elements = vec![ProcessedElement::Node(node(1, 0, 0, &[("entrance", value)]))];
        let table = collect_building_entrances(&elements);
        assert_eq!(table.get(0, 0).unwrap().is_main_entrance, main);
    }
    let elements = vec![ProcessedElement::Node(node(1, 0, 0, &[("door", "yes")]))];
    assert!(!collect_building_entrances(&elements).get(0, 0).unwrap().is_main_entrance);
}

#[test]
fn fallback_door_blocks() {
    let n = node(7, 10, -3, &[("door", "yes")]);
    assert_eq!(
        generate_doors(&n, &HashSet::new()),
        vec![
            (DoorBlock::GrayConcrete, 10, 0, -3),
            (DoorBlock::DarkOakDoorLower, 10, 1, -3),
            (DoorBlock::DarkOakDoorUpper, 10, 2, -3),
        ]
    );
}

#[test]
fn fallback_door_skips_consumed_upper_and_untagged() {
    let mut consumed = HashSet::new();
    consumed.insert(7u64);
    assert!(generate_doors(&node(7, 0, 0, &[("door", "yes")]), &consumed).is_empty());
    assert!(generate_doors(&node(8, 0, 0, &[("entrance", "yes"), ("level", "1")]), &consumed).is_empty());
    assert!(generate_doors(&node(9, 0, 0, &[("shop", "bakery")]), &consumed).is_empty());
    assert_eq!(
        generate_doors(&node(10, 0, 0, &[("entrance", "yes"), ("level", "+0")]), &consumed).len(),
        3
    );
    assert_eq!(
        generate_doors(&node(11, 0, 0, &[("entrance", "yes"), ("level", "1;2")]), &consumed).len(),
        3
    );
}

#[test]
fn index_and_fallback_doors_agree() {
    let specs: [(u64, i32, &[(&str, &str)]); 4] = [
        (1, 0, &[("door", "yes")]),
        (2, 1, &[("entrance", "main"), ("level", "3")]),
        (3, 2, &[("highway", "crossing")]),
        (4, 3, &[("entrance", "yes"), ("level", "x")]),
    ];
    let elements: Vec<ProcessedElement> = specs
        .iter()
        .map(|(id, x, tags)| ProcessedElement::Node(node(*id, *x, 0, tags)))
        .collect();
    let table = collect_building_entrances(&elements);
    let none = HashSet::new();
    for (id, x, tags) in specs.iter() {
        let placed = !generate_doors(&node(*id, *x, 0, tags), &none).is_empty();
        assert_eq!(placed, table.get(*x, 0).is_some());
    }
    assert!(table.get(0, 0).is_some());
    assert!(table.get(1, 0).is_none());
    assert!(table.get(2, 0).is_none());
    assert!(table.get(3, 0).is_some());
}

#[test]
fn negative_cells_are_kept_apart() {
    let elements = vec![
        ProcessedElement::Node(node(1, -1, 5, &[("door", "yes")])),
        ProcessedElement::Node(node(2, 5, -1, &[("door", "yes")])),
        ProcessedElement::Node(node(3, -1, -1, &[("entrance", "main")])),
        ProcessedElement::Node(node(4, i32::MIN, i32::MAX, &[("door", "yes")])),
    ];
    let table = collect_building_entrances(&elements);
    assert_eq!(table.get(-1, 5).unwrap().node_id, 1);
    assert_eq!(table.get(5, -1).unwrap().node_id, 2);
    assert_eq!(table.get(-1, -1).unwrap().node_id, 3);
    assert_eq!(table.get(i32::MIN, i32::MAX).unwrap().node_id, 4);
    assert_eq!(table.get(i32::MAX, i32::MIN), None);
    assert_eq!(table.as_slice().len(), 4);
}

#[test]
fn level_is_read_as_an_i32() {
    let elements = vec![
        ProcessedElement::Node(node(1, 0, 0, &[("entrance", "yes"), ("level", "2147483647")])),
        ProcessedElement::Node(node(2, 1, 0, &[("entrance", "yes"), ("level", "2147483648")])),
        ProcessedElement::Node(node(3, 2, 0, &[("entrance", "yes"), ("level", "-2147483648")])),
        ProcessedElement::Node(node(4, 3, 0, &[("entrance", "yes"), ("level", " 1")])),
        ProcessedElement::Node(node(5, 4, 0, &[("entrance", "yes"), ("level", "-0")])),
        ProcessedElement::Node(node(6, 5, 0, &[("entrance", "yes"), ("level", "+")])),
        ProcessedElement::Node(node(7, 6, 0, &[("entrance", "yes"), ("level", "007")])),
    ];
    let table = collect_building_entrances(&elements);
    assert_eq!(table.get(0, 0), None);
    // Out of range, so not a number: the ground floor.
    assert!(table.get(1, 0).is_some());
    assert_eq!(table.get(2, 0), None);
    // Whitespace is not part of a number.
    assert!(table.get(3, 0).is_some());
    assert!(table.get(4, 0).is_some());
    assert!(table.get(5, 0).is_some());
    assert_eq!(table.get(6, 0), None);
}

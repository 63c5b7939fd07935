//! Door and entrance nodes: the index that building generation uses to put
//! doors on walls, and the fallback door placed at ground level.
use vstd::prelude::*;
use std::collections::{HashMap, HashSet};
use crate::osm_parser::{tag, ProcessedElement, ProcessedNode};
use crate::text::{decimal_value, parse_i32, parsed_i32, str_eq, unsigned_part};

verus! {

broadcast use vstd::std_specs::hash::group_hash_axioms;

/// A door / entrance node that may belong to a building.
///
/// Building generation looks these up by `(x, z)` and, when a coordinate
/// falls on a building wall, places the door at the correct floor level
/// instead of the fallback ground-level door of [`generate_doors`].
#[derive(Debug, Clone, Copy, PartialEq, Eq, Structural)]
pub struct BuildingEntrance {
    pub node_id: u64,
    /// True when the node carries `entrance=main`/`primary`/`yes` etc.;
    /// building generation picks a heavier door for the front entrance.
    pub is_main_entrance: bool,
}

/// The node is tagged `door=*` or `entrance=*`.
pub open spec fn marks_entrance(t: Map<Seq<char>, Seq<char>>) -> bool {
    t.contains_key("door"@) || t.contains_key("entrance"@)
}

/// The node is on the ground floor: it has no `level` tag, a `level` that
/// is not an integer, or `level=0`.
pub open spec fn at_ground_level(t: Map<Seq<char>, Seq<char>>) -> bool {
    match tag(t, "level"@) {
        Some(level) => match parsed_i32(level) {
            Some(n) => n == 0,
            None => true,
        },
        None => true,
    }
}

/// A door or entrance on the ground floor.
pub open spec fn is_ground_entrance(t: Map<Seq<char>, Seq<char>>) -> bool {
    marks_entrance(t) && at_ground_level(t)
}

/// `entrance=*` values that mark a front entrance.
pub open spec fn main_entrance_value(v: Seq<char>) -> bool {
    v == "main"@ || v == "primary"@ || v == "yes"@ || v == "home"@ || v == "shop"@ || v
        == "service"@
}

/// The node's `entrance` tag marks a front entrance.
pub open spec fn is_main_entrance(t: Map<Seq<char>, Seq<char>>) -> bool {
    match tag(t, "entrance"@) {
        Some(v) => main_entrance_value(v),
        None => false,
    }
}

/// The entrance recorded for a node.
pub open spec fn entrance_of(n: ProcessedNode) -> BuildingEntrance {
    BuildingEntrance { node_id: n.id, is_main_entrance: is_main_entrance(n.tags@) }
}

/// The `(x, z) -> entrance` index of `elements`: every ground-level door or
/// entrance node, a later node replacing an earlier one at the same cell.
pub open spec fn entrances_of(elements: Seq<ProcessedElement>) -> Map<(i32, i32), BuildingEntrance>
    decreases elements.len(),
{
    if elements.len() == 0 {
        Map::empty()
    } else {
        let before = entrances_of(elements.drop_last());
        match elements.last() {
            ProcessedElement::Node(n) => if is_ground_entrance(n.tags@) {
                before.insert((n.x, n.z), entrance_of(n))
            } else {
                before
            },
            ProcessedElement::Way(_) => before,
        }
    }
}

/// Building entrances indexed by their `(x, z)` cell; each cell appears at
/// most once.
pub struct EntranceTable {
    entries: Vec<((i32, i32), BuildingEntrance)>,
    /// Position in `entries` of each cell, keyed by `cell_key`.
    index: HashMap<u64, usize>,
}

/// A cell packed into one integer: `x` in the high 32 bits, `z` in the low.
pub open spec fn cell_key(cell: (i32, i32)) -> u64 {
    ((cell.0 as u32 as u64) << 32u64) | (cell.1 as u32 as u64)
}

/// Distinct cells have distinct keys.
proof fn lemma_cell_key_injective(a: (i32, i32), b: (i32, i32))
    requires
        cell_key(a) == cell_key(b),
    ensures
        a == b,
{
    let ax = a.0;
    let az = a.1;
    let bx = b.0;
    let bz = b.1;
    assert(ax == bx && az == bz) by (bit_vector)
        requires
            ((ax as u32 as u64) << 32u64) | (az as u32 as u64) == ((bx as u32 as u64) << 32u64) | (
            bz as u32 as u64),
    ;
}

/// `cell_key` on executable values.
fn cell_key_of(cell: (i32, i32)) -> (k: u64)
    ensures
        k == cell_key(cell),
{
    ((cell.0 as u32 as u64) << 32u64) | (cell.1 as u32 as u64)
}

/// Each cell occurs once in `entries`, and `index` maps the key of every
/// cell to its position and holds no other key.
spec fn indexed_entries(
    entries: Seq<((i32, i32), BuildingEntrance)>,
    index: Map<u64, usize>,
) -> bool {
    &&& forall|i: int, j: int|
        0 <= i < entries.len() && 0 <= j < entries.len() && i != j ==> #[trigger] entries[i].0
            != #[trigger] entries[j].0
    &&& forall|i: int|
        0 <= i < entries.len() ==> index.contains_key(cell_key(#[trigger] entries[i].0))
            && index[cell_key(entries[i].0)] == i
    &&& forall|k: u64|
        #[trigger] index.contains_key(k) ==> index[k] < entries.len() && cell_key(
            entries[index[k] as int].0,
        ) == k
}

impl View for EntranceTable {
    type V = Map<(i32, i32), BuildingEntrance>;

    closed spec fn view(&self) -> Map<(i32, i32), BuildingEntrance> {
        Map::new(
            |k: (i32, i32)| exists|i: int| 0 <= i < self.entries.len() && #[trigger] self.entries@[i].0 == k,
            |k: (i32, i32)|
                self.entries@[choose|i: int|
                    0 <= i < self.entries.len() && #[trigger] self.entries@[i].0 == k].1,
        )
    }
}

impl EntranceTable {
    #[verifier::type_invariant]
    spec fn cells_unique(self) -> bool {
        indexed_entries(self.entries@, self.index@)
    }

    /// The entry at `i` is what the view holds for its cell.
    proof fn lemma_entry_in_view(&self, i: int)
        requires
            self.cells_unique(),
            0 <= i < self.entries.len(),
        ensures
            self@.contains_key(self.entries@[i].0),
            self@[self.entries@[i].0] == self.entries@[i].1,
    {
        let k = self.entries@[i].0;
        assert(self.entries@[i].0 == k);
        let j = choose|j: int| 0 <= j < self.entries.len() && #[trigger] self.entries@[j].0 == k;
        assert(i == j);
    }

    /// An empty table.
    pub fn new() -> (table: EntranceTable)
        ensures
            table@ == Map::<(i32, i32), BuildingEntrance>::empty(),
    {
        let table = EntranceTable { entries: Vec::new(), index: HashMap::new() };
        assert(table@ =~= Map::<(i32, i32), BuildingEntrance>::empty());
        table
    }

    /// Index of the entry for `cell`, if there is one.
    fn find(&self, cell: (i32, i32)) -> (r: Option<usize>)
        ensures
            match r {
                Some(i) => i < self.entries.len() && self.entries@[i as int].0 == cell,
                None => forall|i: int|
                    0 <= i < self.entries.len() ==> #[trigger] self.entries@[i].0 != cell,
            },
    {
        proof {
            use_type_invariant(self);
        }
        match self.index.get(&cell_key_of(cell)) {
            Some(i) => {
                proof {
                    lemma_cell_key_injective(self.entries@[*i as int].0, cell);
                }
                Some(*i)
            },
            None => {
                proof {
                    assert forall|j: int| 0 <= j < self.entries.len() implies #[trigger] self.entries@[j].0
                        != cell by {
                        if self.entries@[j].0 == cell {
                            assert(self.index@.contains_key(cell_key(self.entries@[j].0)));
                        }
                    }
                }
                None
            },
        }
    }

    /// Records `entrance` at `cell`, replacing any earlier entrance there.
    pub fn insert(&mut self, cell: (i32, i32), entrance: BuildingEntrance)
        ensures
            final(self)@ == old(self)@.insert(cell, entrance),
    {
        proof {
            use_type_invariant(&*self);
        }
        let ghost old_entries = self.entries@;
        let ghost old_index = self.index@;
        let found = self.find(cell);
        let key = cell_key_of(cell);
        let mut taken = EntranceTable::new();
        std::mem::swap(self, &mut taken);
        let EntranceTable { mut entries, mut index } = taken;
        match found {
            Some(i) => {
                entries.set(i, (cell, entrance));
            },
            None => {
                let n = entries.len();
                entries.push((cell, entrance));
                index.insert(key, n);
            },
        }
        proof {
            let n = old_entries.len() as int;
            if found is None {
                if old_index.contains_key(key) {
                    lemma_cell_key_injective(old_entries[old_index[key] as int].0, cell);
                }
                assert forall|i: int| 0 <= i < n implies #[trigger] cell_key(old_entries[i].0)
                    != key by {
                    if cell_key(old_entries[i].0) == key {
                        lemma_cell_key_injective(old_entries[i].0, cell);
                    }
                }
                assert(entries@[n] == (cell, entrance));
                assert forall|i: int| 0 <= i < entries@.len() implies index@.contains_key(
                    cell_key(#[trigger] entries@[i].0),
                ) && index@[cell_key(entries@[i].0)] == i by {
                    if i < n {
                        assert(entries@[i] == old_entries[i]);
                        assert(cell_key(old_entries[i].0) != key);
                    }
                }
            } else {
                assert forall|i: int| 0 <= i < entries@.len() implies index@.contains_key(
                    cell_key(#[trigger] entries@[i].0),
                ) && index@[cell_key(entries@[i].0)] == i by {
                    assert(entries@[i].0 == old_entries[i].0);
                }
            }
            assert(indexed_entries(entries@, index@));
        }
        *self = EntranceTable { entries, index };
        proof {
            use_type_invariant(&*self);
            let idx: int = match found {
                Some(i) => i as int,
                None => old_entries.len() as int,
            };
            assert(self.entries@[idx] == (cell, entrance));
            assert(forall|j: int|
                0 <= j < old_entries.len() && j != idx ==> self.entries@[j] == old_entries[j]);
            assert forall|k: (i32, i32)| #[trigger] self@.contains_key(k) == old(self)@.insert(
                cell,
                entrance,
            ).contains_key(k) by {
                if k == cell {
                    assert(self.entries@[idx].0 == k);
                } else {
                    if self@.contains_key(k) {
                        let j = choose|j: int|
                            0 <= j < self.entries.len() && #[trigger] self.entries@[j].0 == k;
                        assert(j != idx);
                        assert(old_entries[j].0 == k);
                    }
                    if old(self)@.contains_key(k) {
                        let j = choose|j: int|
                            0 <= j < old_entries.len() && #[trigger] old_entries[j].0 == k;
                        assert(j != idx);
                        assert(self.entries@[j].0 == k);
                    }
                }
            }
            assert forall|k: (i32, i32)| #[trigger] self@.contains_key(k) implies self@[k] == old(
                self,
            )@.insert(cell, entrance)[k] by {
                let j = choose|j: int|
                    0 <= j < self.entries.len() && #[trigger] self.entries@[j].0 == k;
                self.lemma_entry_in_view(j);
                if k != cell {
                    assert(j != idx);
                    old(self).lemma_entry_in_view(j);
                }
            }
            assert(self@ =~= old(self)@.insert(cell, entrance));
        }
    }

    /// The entrance recorded at `(x, z)`.
    pub fn get(&self, x: i32, z: i32) -> (r: Option<BuildingEntrance>)
        ensures
            match r {
                Some(e) => self@.contains_key((x, z)) && self@[(x, z)] == e,
                None => !self@.contains_key((x, z)),
            },
    {
        proof {
            use_type_invariant(self);
        }
        match self.find((x, z)) {
            Some(i) => {
                proof {
                    self.lemma_entry_in_view(i as int);
                }
                Some(self.entries[i].1)
            },
            None => None,
        }
    }

    /// All recorded `(cell, entrance)` pairs, each cell once.
    pub fn as_slice(&self) -> (r: &[((i32, i32), BuildingEntrance)])
        ensures
            forall|i: int|
                0 <= i < r@.len() ==> self@.contains_key(#[trigger] r@[i].0) && self@[r@[i].0]
                    == r@[i].1,
            forall|k: (i32, i32)|
                #[trigger] self@.contains_key(k) ==> exists|i: int| 0 <= i < r@.len() && r@[i].0 == k,
            forall|i: int, j: int|
                0 <= i < r@.len() && 0 <= j < r@.len() && i != j ==> #[trigger] r@[i].0
                    != #[trigger] r@[j].0,
    {
        proof {
            use_type_invariant(self);
            assert forall|i: int| 0 <= i < self.entries@.len() implies self@.contains_key(
                #[trigger] self.entries@[i].0,
            ) && self@[self.entries@[i].0] == self.entries@[i].1 by {
                self.lemma_entry_in_view(i);
            }
        }
        self.entries.as_slice()
    }
}

/// `main_entrance_value` on executable values.
fn is_main_entrance_value(v: &str) -> (r: bool)
    ensures
        r == main_entrance_value(v@),
{
    str_eq(v, "main") || str_eq(v, "primary") || str_eq(v, "yes") || str_eq(v, "home") || str_eq(
        v,
        "shop",
    ) || str_eq(v, "service")
}

/// Pre-pass: scan all processed nodes for `door=*` / `entrance=*` and build
/// the `(x, z) -> BuildingEntrance` table. Building generation uses it to
/// place doors on the correct floor, and [`generate_doors`] (through its
/// consumed set) to avoid a second fallback door over the same node.
/// Entrances above the ground floor (an integer `level` other than 0) are
/// skipped: they belong to an upper-floor building part.
pub fn collect_building_entrances(elements: &[ProcessedElement]) -> (table: EntranceTable)
    ensures
        table@ == entrances_of(elements@),
{
    let mut table = EntranceTable::new();
    let mut i: usize = 0;
    while i < elements.len()
        invariant
            0 <= i <= elements@.len(),
            table@ == entrances_of(elements@.take(i as int)),
        decreases elements@.len() - i,
    {
        proof {
            assert(elements@.take(i + 1).drop_last() =~= elements@.take(i as int));
        }
        if let ProcessedElement::Node(node) = &elements[i] {
            let has_door = node.tags.contains_key("door");
            let has_entrance = node.tags.contains_key("entrance");
            if has_door || has_entrance {
                let level: i32 = match node.tags.get("level") {
                    Some(s) => match parse_i32(s.as_str()) {
                        Some(n) => n,
                        None => 0,
                    },
                    None => 0,
                };
                if level == 0 {
                    let is_main_entrance = match node.tags.get("entrance") {
                        Some(v) => is_main_entrance_value(v.as_str()),
                        None => false,
                    };
                    table.insert(
                        (node.x, node.z),
                        BuildingEntrance { node_id: node.id, is_main_entrance },
                    );
                }
            }
        }
        i += 1;
    }
    proof {
        assert(elements@.take(elements@.len() as int) =~= elements@);
    }
    table
}

/// `e` is a door or entrance node at `cell` that gets a fallback door when
/// no building has consumed it.
pub open spec fn ground_entrance_at(e: ProcessedElement, cell: (i32, i32)) -> bool {
    match e {
        ProcessedElement::Node(n) => (n.x, n.z) == cell && places_fallback_door(n, Set::empty()),
        ProcessedElement::Way(_) => false,
    }
}

/// `entrance` is the entrance recorded for the node `e`.
pub open spec fn is_entrance_of(e: ProcessedElement, entrance: BuildingEntrance) -> bool {
    match e {
        ProcessedElement::Node(n) => entrance == entrance_of(n),
        ProcessedElement::Way(_) => false,
    }
}

/// The entrance index and the fallback doors agree on which nodes are
/// ground-level doors: a cell is indexed exactly when some node at that cell
/// would get a fallback door while no building has consumed it, and the
/// entrance stored there is that of such a node.
pub proof fn lemma_index_matches_fallback_doors(elements: Seq<ProcessedElement>, cell: (i32, i32))
    ensures
        entrances_of(elements).contains_key(cell) <==> exists|i: int|
            0 <= i < elements.len() && #[trigger] ground_entrance_at(elements[i], cell),
        entrances_of(elements).contains_key(cell) ==> exists|i: int|
            0 <= i < elements.len() && #[trigger] ground_entrance_at(elements[i], cell)
                && is_entrance_of(elements[i], entrances_of(elements)[cell]),
    decreases elements.len(),
{
    if elements.len() > 0 {
        let before = elements.drop_last();
        let last = elements.len() - 1;
        lemma_index_matches_fallback_doors(before, cell);
        if ground_entrance_at(elements[last], cell) {
            assert(ground_entrance_at(elements[last], cell));
        } else {
            assert(entrances_of(elements).contains_key(cell) == entrances_of(before).contains_key(
                cell,
            ));
            if entrances_of(elements).contains_key(cell) {
                let i = choose|i: int|
                    0 <= i < before.len() && #[trigger] ground_entrance_at(before[i], cell)
                        && is_entrance_of(before[i], entrances_of(before)[cell]);
                assert(elements[i] == before[i]);
            }
            if exists|i: int| 0 <= i < elements.len() && #[trigger] ground_entrance_at(elements[i], cell) {
                let i = choose|i: int|
                    0 <= i < elements.len() && #[trigger] ground_entrance_at(elements[i], cell);
                assert(before[i] == elements[i]);
            }
        }
    }
}

/// The words of `entrance=*` that mark a front entrance.
pub open spec fn front_entrance_word(v: Seq<char>) -> bool {
    ||| v == "main"@
    ||| v == "primary"@
    ||| v == "yes"@
    ||| v == "home"@
    ||| v == "shop"@
    ||| v == "service"@
}

/// `entrance` is what a door or entrance node `e` at `cell` records: the
/// node's id, and a front-entrance flag set exactly when the node's
/// `entrance` tag is one of the front-entrance words.
pub open spec fn records_node(e: ProcessedElement, cell: (i32, i32), entrance: BuildingEntrance) -> bool {
    match e {
        ProcessedElement::Node(n) => {
            &&& (n.x, n.z) == cell
            &&& marks_entrance(n.tags@)
            &&& entrance.node_id == n.id
            &&& entrance.is_main_entrance == (n.tags@.contains_key("entrance"@)
                && front_entrance_word(n.tags@["entrance"@]))
        },
        ProcessedElement::Way(_) => false,
    }
}

/// Every indexed cell holds the entrance of some door or entrance node at
/// that cell, flagged as a front entrance exactly when the node's
/// `entrance` tag is `main`, `primary`, `yes`, `home`, `shop` or `service`,
/// whatever other tags (such as `door=*`) the node carries.
pub proof fn lemma_indexed_entrance_flag(elements: Seq<ProcessedElement>, cell: (i32, i32))
    requires
        entrances_of(elements).contains_key(cell),
    ensures
        exists|i: int|
            0 <= i < elements.len() && #[trigger] records_node(
                elements[i],
                cell,
                entrances_of(elements)[cell],
            ),
{
    lemma_index_matches_fallback_doors(elements, cell);
    let i = choose|i: int|
        0 <= i < elements.len() && #[trigger] ground_entrance_at(elements[i], cell)
            && is_entrance_of(elements[i], entrances_of(elements)[cell]);
    assert(records_node(elements[i], cell, entrances_of(elements)[cell]));
}

/// A door or entrance node without a `level` tag, appended after
/// `elements`, is what the index then holds at its cell, replacing any
/// earlier entrance there; every other cell keeps what it held.
pub proof fn lemma_later_entrance_replaces(elements: Seq<ProcessedElement>, n: ProcessedNode)
    requires
        n.tags@.contains_key("door"@) || n.tags@.contains_key("entrance"@),
        !n.tags@.contains_key("level"@),
    ensures
        entrances_of(elements.push(ProcessedElement::Node(n))).contains_key((n.x, n.z)),
        entrances_of(elements.push(ProcessedElement::Node(n)))[(n.x, n.z)].node_id == n.id,
        forall|c: (i32, i32)|
            c != (n.x, n.z) ==> (#[trigger] entrances_of(
                elements.push(ProcessedElement::Node(n)),
            ).contains_key(c) == entrances_of(elements).contains_key(c) && (entrances_of(
                elements,
            ).contains_key(c) ==> entrances_of(elements.push(ProcessedElement::Node(n)))[c]
                == entrances_of(elements)[c])),
{
    assert(elements.push(ProcessedElement::Node(n)).drop_last() =~= elements);
}

/// A node that carries neither `door=*` nor `entrance=*`, and a node whose
/// `level` is an integer other than 0 (an upper or lower floor), leave the
/// index unchanged.
pub proof fn lemma_other_nodes_leave_index(elements: Seq<ProcessedElement>, n: ProcessedNode)
    requires
        (!n.tags@.contains_key("door"@) && !n.tags@.contains_key("entrance"@)) || (
        n.tags@.contains_key("level"@) && parsed_i32(n.tags@["level"@]) is Some && parsed_i32(
            n.tags@["level"@],
        )->0 != 0),
    ensures
        entrances_of(elements.push(ProcessedElement::Node(n))) == entrances_of(elements),
{
    assert(elements.push(ProcessedElement::Node(n)).drop_last() =~= elements);
}

/// The fallback door stands in the node's column: gray concrete on the
/// ground at `y = 0`, the lower door half above it at `y = 1` and the upper
/// half at `y = 2`, in that order and nothing else.
pub proof fn lemma_fallback_door_column(x: i32, z: i32)
    ensures
        fallback_door(x, z).len() == 3,
        fallback_door(x, z)[0] == (DoorBlock::GrayConcrete, x, 0i32, z),
        fallback_door(x, z)[1] == (DoorBlock::DarkOakDoorLower, x, 1i32, z),
        fallback_door(x, z)[2] == (DoorBlock::DarkOakDoorUpper, x, 2i32, z),
{
}

/// A node whose id is in the consumed set gets no fallback door, whatever
/// its tags: its door was already placed on a building wall.
pub proof fn lemma_consumed_node_gets_no_door(node: ProcessedNode, consumed: Set<u64>)
    requires
        consumed.contains(node.id),
    ensures
        !places_fallback_door(node, consumed),
{
}

/// A node that is not consumed, carries `door=*` or `entrance=*` and has no
/// `level` tag gets a fallback door; so does one whose `level` is `0`.
pub proof fn lemma_unconsumed_ground_door_is_placed(node: ProcessedNode, consumed: Set<u64>)
    requires
        !consumed.contains(node.id),
        node.tags@.contains_key("door"@) || node.tags@.contains_key("entrance"@),
        !node.tags@.contains_key("level"@) || node.tags@["level"@] == "0"@,
    ensures
        places_fallback_door(node, consumed),
{
    reveal_strlit("0");
    if node.tags@.contains_key("level"@) {
        assert(unsigned_part("0"@) =~= "0"@);
        assert(decimal_value("0"@) == decimal_value("0"@.drop_last()) * 10 + 0);
    }
}

/// A block that the fallback door placement sets.
#[derive(Debug, Clone, Copy, PartialEq, Eq, Structural)]
pub enum DoorBlock {
    GrayConcrete,
    DarkOakDoorLower,
    DarkOakDoorUpper,
}

/// The ground block and the two door halves of a fallback door at `(x, z)`:
/// gray concrete at `y = 0`, the lower dark oak door half at `y = 1`, the
/// upper half at `y = 2`.
pub open spec fn fallback_door(x: i32, z: i32) -> Seq<(DoorBlock, i32, i32, i32)> {
    seq![
        (DoorBlock::GrayConcrete, x, 0i32, z),
        (DoorBlock::DarkOakDoorLower, x, 1i32, z),
        (DoorBlock::DarkOakDoorUpper, x, 2i32, z),
    ]
}

/// A fallback door goes on `node`: it is a ground-level door or entrance
/// that no building has consumed.
pub open spec fn places_fallback_door(node: ProcessedNode, consumed: Set<u64>) -> bool {
    !consumed.contains(node.id) && is_ground_entrance(node.tags@)
}

/// Fallback ground-level door placement.
///
/// Building generation places entrance doors on the wall (at the correct
/// floor level) when a door or entrance node lies on a building wall. For
/// nodes that do not (orphaned entrance markers, doors on amenities, ...)
/// this gives a basic dark oak door on gray concrete, so the marker is not
/// lost. Nodes consumed by a building, and doors above the ground floor, get
/// nothing. Returns the blocks to set, as `(block, x, y, z)`.
pub fn generate_doors(element: &ProcessedNode, consumed_entrances: &HashSet<u64>) -> (blocks: Vec<
    (DoorBlock, i32, i32, i32),
>)
    ensures
        blocks@ == (if places_fallback_door(*element, consumed_entrances@) {
            fallback_door(element.x, element.z)
        } else {
            Seq::empty()
        }),
{
    let mut blocks: Vec<(DoorBlock, i32, i32, i32)> = Vec::new();
    if consumed_entrances.contains(&element.id) {
        return blocks;
    }
    if element.tags.contains_key("door") || element.tags.contains_key("entrance") {
        if let Some(level_str) = element.tags.get("level") {
            if let Some(level) = parse_i32(level_str.as_str()) {
                if level != 0 {
                    return blocks;
                }
            }
        }
        let x: i32 = element.x;
        let z: i32 = element.z;
        blocks.push((DoorBlock::GrayConcrete, x, 0, z));
        blocks.push((DoorBlock::DarkOakDoorLower, x, 1, z));
        blocks.push((DoorBlock::DarkOakDoorUpper, x, 2, z));
        assert(blocks@ =~= fallback_door(x, z));
    }
    blocks
}

} // verus!

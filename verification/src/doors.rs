//! Doors: two objects that share an id, on two maps, each the other side
//! of the other.

use crate::grid::{is_first_slot, lemma_first_slot_is, lemma_first_slot_none, slot_in_grid};
use crate::maps::holds_object;
use crate::world::{GameDataView, lemma_door_other_side_is};
use vstd::prelude::*;

verus! {

/// Whether cell `(c, r)` of map `m` holds an object with id `id`.
pub open spec fn holds_id_at(data: GameDataView, id: Seq<char>, m: int, c: int, r: int) -> bool {
    &&& 0 <= m < data.maps.len()
    &&& slot_in_grid(data.maps[m].grid, c, r)
    &&& holds_object(id)(data.maps[m].grid[c][r])
}

/// The objects with id `id` are a pair of doors: one at `(x1, y1)` of map
/// `m1`, one at `(x2, y2)` of another map `m2`, and no third anywhere.
pub open spec fn doors_paired(
    data: GameDataView,
    id: Seq<char>,
    m1: int,
    x1: int,
    y1: int,
    m2: int,
    x2: int,
    y2: int,
) -> bool {
    &&& m1 != m2
    &&& holds_id_at(data, id, m1, x1, y1)
    &&& holds_id_at(data, id, m2, x2, y2)
    &&& forall|m: int, c: int, r: int| #[trigger]
        holds_id_at(data, id, m, c, r) ==> (m == m1 && c == x1 && r == y1) || (m == m2 && c == x2
            && r == y2)
}

/// From one door of a pair the search for the other side ends at the
/// other door.
pub proof fn lemma_paired_door_leads_to_its_pair(
    data: GameDataView,
    id: Seq<char>,
    m1: int,
    x1: int,
    y1: int,
    m2: int,
    x2: int,
    y2: int,
)
    requires
        doors_paired(data, id, m1, x1, y1, m2, x2, y2),
    ensures
        data.door_other_side(m1, id) == Some((m2, x2, y2)),
{
    let wanted = holds_object(id);
    let there = data.maps[m2].grid;
    assert(is_first_slot(there, wanted, x2, y2)) by {
        assert forall|c: int, r: int| 0 <= c < x2 && 0 <= r < there[c].len() implies !wanted(
            #[trigger] there[c][r],
        ) by {
            if wanted(there[c][r]) {
                assert(holds_id_at(data, id, m2, c, r));
            }
        }
        assert forall|r: int| 0 <= r < y2 implies !wanted(#[trigger] there[x2][r]) by {
            if wanted(there[x2][r]) {
                assert(holds_id_at(data, id, m2, x2, r));
            }
        }
    }
    lemma_first_slot_is(there, wanted, x2, y2);
    assert forall|m: int| 0 <= m < m2 && m != m1 implies (#[trigger] data.maps[m]).find_object(
        id,
    ) is None by {
        let grid = data.maps[m].grid;
        assert forall|c: int, r: int| slot_in_grid(grid, c, r) implies !wanted(
            #[trigger] grid[c][r],
        ) by {
            if wanted(grid[c][r]) {
                assert(holds_id_at(data, id, m, c, r));
            }
        }
        lemma_first_slot_none(grid, wanted);
    }
    lemma_door_other_side_is(data, m1, id, m2, x2, y2);
}

} // verus!

//! What holds of using an item, whatever the world and the session.

use crate::grid::{
    first_slot, is_first_slot, lemma_first_slot_is, lemma_first_slot_none, lemma_first_slot_some,
    no_slot, same_shape, slot_in_grid,
};
use crate::maps::{MapDataView, holds_object};
use crate::objects::{
    ObjectStateView, ObjectView, has_flag, last_assignment, lemma_get_after_set_flags,
    lemma_set_flags_idempotent,
};
use crate::screen::rules::{apply_object_use, use_item_on_object, use_object};
use crate::session::GameStateView;
use crate::world::{
    GameDataView, is_door_other_side, lemma_door_other_side_is, lemma_door_other_side_some,
};
use vstd::prelude::*;

verus! {

/// A cell that was replaced holds what it was replaced with, if the world
/// has the cell at all; every other cell holds what it held.
pub proof fn lemma_cell_after_set_cell(
    data: GameDataView,
    m: int,
    x: int,
    y: int,
    occupant: Option<MapDataView>,
    m2: int,
    x2: int,
    y2: int,
)
    ensures
        data.set_cell(m, x, y, occupant).cell(m2, x2, y2) == if m2 == m && x2 == x && y2 == y && 0
            <= m < data.maps.len() && slot_in_grid(data.maps[m].grid, x, y) {
            occupant
        } else {
            data.cell(m2, x2, y2)
        },
{
}

/// Replacing a cell by what it holds changes nothing.
pub proof fn lemma_set_cell_same(
    data: GameDataView,
    m: int,
    x: int,
    y: int,
    occupant: Option<MapDataView>,
)
    requires
        data.cell(m, x, y) == occupant,
    ensures
        data.set_cell(m, x, y, occupant) == data,
{
    if 0 <= m < data.maps.len() {
        let grid = data.maps[m].grid;
        if slot_in_grid(grid, x, y) {
            assert(grid[x].update(y, occupant) =~= grid[x]);
            assert(grid.update(x, grid[x]) =~= grid);
        }
        assert(data.maps[m].set_cell(x, y, occupant) == data.maps[m]);
        assert(data.maps.update(m, data.maps[m]) =~= data.maps);
    }
}

/// Two worlds hold objects with id `id` in the same cells.
pub open spec fn same_places(a: GameDataView, b: GameDataView, id: Seq<char>) -> bool {
    &&& a.maps.len() == b.maps.len()
    &&& forall|m: int|
        0 <= m < a.maps.len() ==> same_shape((#[trigger] a.maps[m]).grid, b.maps[m].grid)
    &&& forall|m: int, c: int, r: int|
        0 <= m < a.maps.len() && slot_in_grid(a.maps[m].grid, c, r) ==> holds_object(id)(
            #[trigger] a.maps[m].grid[c][r],
        ) == holds_object(id)(b.maps[m].grid[c][r])
}

/// In worlds that hold the objects with an id in the same cells, the search
/// for an object with that id ends in the same cell.
proof fn lemma_find_object_same_places(a: GameDataView, b: GameDataView, id: Seq<char>, m: int)
    requires
        same_places(a, b, id),
        0 <= m < a.maps.len(),
    ensures
        a.maps[m].find_object(id) == b.maps[m].find_object(id),
{
    let wanted = holds_object(id);
    let ga = a.maps[m].grid;
    let gb = b.maps[m].grid;
    assert(same_shape(ga, gb));
    lemma_first_slot_none(ga, wanted);
    lemma_first_slot_none(gb, wanted);
    if first_slot(ga, wanted) is Some {
        let (c, r) = first_slot(ga, wanted).unwrap();
        lemma_first_slot_some(ga, wanted, c, r);
        assert(is_first_slot(gb, wanted, c, r)) by {
            assert(wanted(ga[c][r]) == wanted(gb[c][r]));
            assert forall|c2: int, r2: int| 0 <= c2 < c && 0 <= r2 < gb[c2].len() implies !wanted(
                #[trigger] gb[c2][r2],
            ) by {
                assert(ga[c2].len() == gb[c2].len());
                assert(wanted(ga[c2][r2]) == wanted(gb[c2][r2]));
            }
            assert forall|r2: int| 0 <= r2 < r implies !wanted(#[trigger] gb[c][r2]) by {
                assert(ga[c].len() == gb[c].len());
                assert(wanted(ga[c][r2]) == wanted(gb[c][r2]));
            }
        }
        lemma_first_slot_is(gb, wanted, c, r);
    } else {
        assert forall|c: int, r: int| slot_in_grid(gb, c, r) implies !wanted(
            #[trigger] gb[c][r],
        ) by {
            assert(ga[c].len() == gb[c].len());
            assert(wanted(ga[c][r]) == wanted(gb[c][r]));
            assert(!wanted(ga[c][r]));
        }
        assert(no_slot(gb, wanted));
    }
}

/// In worlds that hold the objects with an id in the same cells, a door
/// with that id leads to the same place.
pub proof fn lemma_door_other_side_same_places(
    a: GameDataView,
    b: GameDataView,
    current_map: int,
    id: Seq<char>,
)
    requires
        same_places(a, b, id),
    ensures
        a.door_other_side(current_map, id) == b.door_other_side(current_map, id),
{
    assert forall|m: int| 0 <= m < a.maps.len() implies (#[trigger] a.maps[m]).find_object(id)
        == b.maps[m].find_object(id) by {
        lemma_find_object_same_places(a, b, id, m);
    }
    if a.door_other_side(current_map, id) is Some {
        let (m, c, r) = a.door_other_side(current_map, id).unwrap();
        lemma_door_other_side_some(a, current_map, id, m, c, r);
        assert(is_door_other_side(b.maps, current_map, id, m, c, r)) by {
            assert forall|m2: int| 0 <= m2 < m && m2 != current_map implies (
            #[trigger] b.maps[m2]).find_object(id) is None by {
                assert(a.maps[m2].find_object(id) is None);
            }
        }
        lemma_door_other_side_is(b, current_map, id, m, c, r);
    } else if b.door_other_side(current_map, id) is Some {
        let (m, c, r) = b.door_other_side(current_map, id).unwrap();
        lemma_door_other_side_some(b, current_map, id, m, c, r);
        assert(is_door_other_side(a.maps, current_map, id, m, c, r)) by {
            assert forall|m2: int| 0 <= m2 < m && m2 != current_map implies (
            #[trigger] a.maps[m2]).find_object(id) is None by {
                assert(b.maps[m2].find_object(id) is None);
            }
        }
        lemma_door_other_side_is(a, current_map, id, m, c, r);
    }
}

/// Replacing a cell by an occupant that is an object with id `id` exactly
/// if the old occupant was one leaves the objects with that id where they
/// were.
pub proof fn lemma_set_cell_same_places(
    data: GameDataView,
    m: int,
    x: int,
    y: int,
    occupant: Option<MapDataView>,
    id: Seq<char>,
)
    requires
        holds_object(id)(occupant) == holds_object(id)(data.cell(m, x, y)) || !(0 <= m
            < data.maps.len() && slot_in_grid(data.maps[m].grid, x, y)),
    ensures
        same_places(data.set_cell(m, x, y, occupant), data, id),
{
    let after = data.set_cell(m, x, y, occupant);
    assert forall|k: int| 0 <= k < after.maps.len() implies same_shape(
        (#[trigger] after.maps[k]).grid,
        data.maps[k].grid,
    ) by {}
    assert forall|k: int, c: int, r: int|
        0 <= k < after.maps.len() && slot_in_grid(after.maps[k].grid, c, r) implies holds_object(
        id,
    )(#[trigger] after.maps[k].grid[c][r]) == holds_object(id)(data.maps[k].grid[c][r]) by {}
}

/// Holding the objects with an id in the same cells is transitive.
pub proof fn lemma_same_places_chain(
    a: GameDataView,
    b: GameDataView,
    c: GameDataView,
    id: Seq<char>,
)
    requires
        same_places(a, b, id),
        same_places(b, c, id),
    ensures
        same_places(a, c, id),
{
    assert forall|m: int| 0 <= m < a.maps.len() implies same_shape(
        (#[trigger] a.maps[m]).grid,
        c.maps[m].grid,
    ) by {
        assert(same_shape(a.maps[m].grid, b.maps[m].grid));
        assert(same_shape(b.maps[m].grid, c.maps[m].grid));
    }
    assert forall|m: int, x: int, y: int|
        0 <= m < a.maps.len() && slot_in_grid(a.maps[m].grid, x, y) implies holds_object(id)(
        #[trigger] a.maps[m].grid[x][y],
    ) == holds_object(id)(c.maps[m].grid[x][y]) by {
        assert(same_shape(a.maps[m].grid, b.maps[m].grid));
        assert(holds_object(id)(a.maps[m].grid[x][y]) == holds_object(id)(b.maps[m].grid[x][y]));
        assert(slot_in_grid(b.maps[m].grid, x, y));
        assert(holds_object(id)(b.maps[m].grid[x][y]) == holds_object(id)(c.maps[m].grid[x][y]));
    }
}

/// What an item does to a door it does to both of its sides: after the
/// use the door the player stands on and the door on the other side have
/// each had the same assignments made. A flag that both doors record and
/// that the use assigns reads the same on both afterwards.
pub proof fn law_door_use_changes_both_sides_alike(
    data: GameDataView,
    s: GameStateView,
    target: ObjectView,
    changes: Seq<ObjectStateView>,
    flag: Seq<char>,
)
    requires
        target.category == "door"@,
        data.cell(s.current_map, s.current_player_x, s.current_player_y) is Some,
        apply_object_use(data, s, target, changes) is Some,
    ensures
        ({
            let after = apply_object_use(data, s, target, changes).unwrap();
            let (m, x, y) = data.door_other_side(s.current_map, target.id).unwrap();
            let other = data.cell(m, x, y).unwrap()->Object_0;
            &&& m != s.current_map
            &&& other.id == target.id
            &&& after.cell(s.current_map, s.current_player_x, s.current_player_y) == Some(
                MapDataView::Object(target.set_states(changes)),
            )
            &&& after.cell(m, x, y) == Some(MapDataView::Object(other.set_states(changes)))
            &&& has_flag(changes, flag) && has_flag(target.state, flag) && has_flag(
                other.state,
                flag,
            ) ==> target.set_states(changes).get_state(flag) == other.set_states(changes).get_state(
                flag,
            )
            &&& other.state == target.state ==> other.set_states(changes).state
                == target.set_states(changes).state
        }),
{
    let (m, x, y) = data.door_other_side(s.current_map, target.id).unwrap();
    lemma_door_other_side_some(data, s.current_map, target.id, m, x, y);
    lemma_first_slot_some(data.maps[m].grid, holds_object(target.id), x, y);
    let other = data.cell(m, x, y).unwrap()->Object_0;
    let here = data.set_cell(
        s.current_map,
        s.current_player_x,
        s.current_player_y,
        Some(MapDataView::Object(target.set_states(changes))),
    );
    lemma_cell_after_set_cell(
        here,
        m,
        x,
        y,
        Some(MapDataView::Object(other.set_states(changes))),
        s.current_map,
        s.current_player_x,
        s.current_player_y,
    );
    lemma_get_after_set_flags(target.state, changes, flag);
    lemma_get_after_set_flags(other.state, changes, flag);
    if has_flag(changes, flag) {
        lemma_named_flag_is_assigned(changes, flag);
    }
}

/// A flag that a list of assignments names is assigned a value by it.
pub proof fn lemma_named_flag_is_assigned(changes: Seq<ObjectStateView>, name: Seq<char>)
    requires
        has_flag(changes, name),
    ensures
        last_assignment(changes, name) is Some,
    decreases changes.len(),
{
    let i = choose|i: int| 0 <= i < changes.len() && (#[trigger] changes[i]).name == name;
    if changes.last().name != name {
        assert(changes.drop_last()[i] == changes[i]);
        lemma_named_flag_is_assigned(changes.drop_last(), name);
    }
}

/// Two sessions in which the player stands on the same cell and has
/// selected the same inventory slot.
pub open spec fn same_stand(a: GameStateView, b: GameStateView) -> bool {
    &&& a.current_map == b.current_map
    &&& a.current_player_x == b.current_player_x
    &&& a.current_player_y == b.current_player_y
    &&& a.inventory_x == b.inventory_x
    &&& a.inventory_y == b.inventory_y
}

/// Where assignments were made to the object the player stands on, making
/// them again changes nothing.
pub proof fn lemma_apply_object_use_again(
    data: GameDataView,
    s: GameStateView,
    again: GameStateView,
    target: ObjectView,
    changes: Seq<ObjectStateView>,
)
    requires
        data.cell(s.current_map, s.current_player_x, s.current_player_y) == Some(
            MapDataView::Object(target),
        ),
        apply_object_use(data, s, target, changes) is Some,
        same_stand(s, again),
    ensures
        ({
            let changed = apply_object_use(data, s, target, changes).unwrap();
            &&& changed.info == data.info
            &&& changed.dialogs == data.dialogs
            &&& changed.cell(s.current_map, s.current_player_x, s.current_player_y) == Some(
                MapDataView::Object(target.set_states(changes)),
            )
            &&& apply_object_use(changed, again, target.set_states(changes), changes) == Some(
                changed,
            )
        }),
{
    let m = s.current_map;
    let x = s.current_player_x;
    let y = s.current_player_y;
    let id = target.id;
    let changed = apply_object_use(data, s, target, changes).unwrap();
    let after = target.set_states(changes);
    let here = data.set_cell(m, x, y, Some(MapDataView::Object(after)));
    lemma_set_flags_idempotent(target.state, changes);
    assert(after.set_states(changes) == after);
    lemma_cell_after_set_cell(data, m, x, y, Some(MapDataView::Object(after)), m, x, y);
    lemma_set_cell_same_places(data, m, x, y, Some(MapDataView::Object(after)), id);
    if target.category == "door"@ {
        let (m2, x2, y2) = data.door_other_side(m, id).unwrap();
        lemma_door_other_side_some(data, m, id, m2, x2, y2);
        lemma_first_slot_some(data.maps[m2].grid, holds_object(id), x2, y2);
        let other = data.cell(m2, x2, y2).unwrap()->Object_0;
        let other_after = other.set_states(changes);
        lemma_set_flags_idempotent(other.state, changes);
        assert(other_after.set_states(changes) == other_after);
        lemma_cell_after_set_cell(data, m, x, y, Some(MapDataView::Object(after)), m2, x2, y2);
        lemma_cell_after_set_cell(here, m2, x2, y2, Some(MapDataView::Object(other_after)), m, x, y);
        lemma_cell_after_set_cell(
            here,
            m2,
            x2,
            y2,
            Some(MapDataView::Object(other_after)),
            m2,
            x2,
            y2,
        );
        lemma_set_cell_same_places(here, m2, x2, y2, Some(MapDataView::Object(other_after)), id);
        lemma_same_places_chain(changed, here, data, id);
        lemma_door_other_side_same_places(changed, data, m, id);
        lemma_set_cell_same(changed, m, x, y, Some(MapDataView::Object(after)));
        lemma_set_cell_same(changed, m2, x2, y2, Some(MapDataView::Object(other_after)));
    } else {
        lemma_set_cell_same(changed, m, x, y, Some(MapDataView::Object(after)));
    }
}

/// Emptying a slot of the inventory leaves it empty, and leaves the maps
/// alone.
pub proof fn lemma_slot_after_remove(data: GameDataView, x: int, y: int)
    ensures
        data.remove_inventory_slot(x, y).inventory_slot(x, y) is None,
        data.remove_inventory_slot(x, y).maps == data.maps,
{
}

/// Using an item is idempotent on the world: what a use has done to the
/// world a second use, made at once with the same slot selected, does not
/// change. A use that sets flags sets them to what they are; a use that
/// consumed the item finds the slot empty.
pub proof fn law_item_use_is_idempotent(data: GameDataView, s: GameStateView)
    ensures
        ({
            let (once, shown) = use_object(data, s);
            use_object(once, shown).0 == once
        }),
{
    let m = s.current_map;
    let x = s.current_player_x;
    let y = s.current_player_y;
    let (once, shown) = use_object(data, s);
    assert(same_stand(s, shown));
    match data.cell(m, x, y) {
        None => {},
        Some(MapDataView::Character(character)) => {
            match data.inventory_slot(s.inventory_x, s.inventory_y) {
                None => {},
                Some(item) => match character.object_use_for(item.id) {
                    None => {},
                    Some(rule) => {
                        let moved = character.with_dialog(rule.set_dialog);
                        let talked = if rule.set_dialog.len() > 0 {
                            data.set_cell(m, x, y, Some(MapDataView::Character(moved)))
                        } else {
                            data
                        };
                        lemma_cell_after_set_cell(
                            data,
                            m,
                            x,
                            y,
                            Some(MapDataView::Character(moved)),
                            m,
                            x,
                            y,
                        );
                        lemma_slot_after_remove(talked, s.inventory_x, s.inventory_y);
                        if rule.consume_item {
                            assert(once.inventory_slot(s.inventory_x, s.inventory_y) is None);
                        } else {
                            assert(once == talked);
                            if rule.set_dialog.len() > 0 {
                                assert(moved.with_dialog(rule.set_dialog) == moved);
                                lemma_set_cell_same(
                                    once,
                                    m,
                                    x,
                                    y,
                                    Some(MapDataView::Character(moved)),
                                );
                            }
                        }
                    },
                },
            }
        },
        Some(MapDataView::Object(target)) => {
            match data.inventory_slot(s.inventory_x, s.inventory_y) {
                None => {},
                Some(item) => match target.object_use_for(item.id) {
                    None => {},
                    Some(rule) => match apply_object_use(data, s, target, rule.self_action) {
                        None => {
                            assert(apply_object_use(data, shown, target, rule.self_action) is None);
                        },
                        Some(changed) => {
                            lemma_apply_object_use_again(
                                data,
                                s,
                                shown,
                                target,
                                rule.self_action,
                            );
                            lemma_slot_after_remove(changed, s.inventory_x, s.inventory_y);
                            let after = target.set_states(rule.self_action);
                            assert(after.object_use_for(item.id) == Some(rule));
                            if rule.consume_item {
                                assert(once.inventory_slot(s.inventory_x, s.inventory_y) is None);
                                assert(once.cell(m, x, y) == changed.cell(m, x, y));
                            } else {
                                assert(once == changed);
                                assert(use_item_on_object(once, shown, item, after).0 == once);
                            }
                        },
                    },
                },
            }
        },
    }
}

} // verus!

//! The controller keeps the cross references of the world: what was
//! checked when the world was built holds after every key.

use crate::catalog::{lemma_position_by, lemma_position_by_is, position_by};
use crate::characters::{ObjectUseView, first_character_use};
use crate::config::integrity::{
    character_linked, characters_linked, dialogs_linked, door_paired, doors_all_paired,
    integrity_error, is_door, next_known, occupant_linked, paired_with_door,
};
use crate::dialogs::has_dialog;
use crate::doors::{holds_id_at, lemma_paired_door_leads_to_its_pair};
use crate::grid::{lemma_first_slot_some, same_shape, slot_in_grid};
use crate::maps::{MapDataView, holds_object};
use crate::objects::ObjectView;
use crate::screen::draw::{shown, turn};
use crate::screen::laws::{law_dimensions_are_fixed, law_door_travel_is_symmetric};
use crate::screen::rules::{
    apply_object_use, handle_interact_key, handle_key, travel_through_door, use_object,
};
use crate::session::{GameStateView, Key, VisualState};
use crate::world::{GameDataView, GameInfoView, lemma_door_other_side_some, map_key, same_dimensions};
use vstd::prelude::*;

verus! {

/// The id of the object in a cell, if an object is in it.
pub open spec fn object_id_of(occupant: Option<MapDataView>) -> Option<Seq<char>> {
    match occupant {
        Some(MapDataView::Object(object)) => Some(object.id),
        _ => None,
    }
}

/// Two worlds have the same maps but for what occupies their cells, and
/// cell by cell their occupants are objects with the same id, and doors, or
/// they are not.
pub open spec fn same_objects(a: GameDataView, b: GameDataView) -> bool {
    &&& a.maps.len() == b.maps.len()
    &&& a.dialogs == b.dialogs
    &&& a.info.starting_map == b.info.starting_map
    &&& forall|m: int|
        0 <= m < a.maps.len() ==> (#[trigger] a.maps[m]).info == b.maps[m].info && same_shape(
            a.maps[m].grid,
            b.maps[m].grid,
        )
    &&& forall|m: int, c: int, r: int|
        0 <= m < a.maps.len() && slot_in_grid(a.maps[m].grid, c, r) ==> object_id_of(
            #[trigger] a.maps[m].grid[c][r],
        ) == object_id_of(b.maps[m].grid[c][r]) && is_door(a.maps[m].grid[c][r]) == is_door(
            b.maps[m].grid[c][r],
        )
}

/// Worlds with the same maps find the same map under an id.
proof fn lemma_same_maps_by_id(a: GameDataView, b: GameDataView, id: Seq<char>)
    requires
        a.maps.len() == b.maps.len(),
        forall|m: int| 0 <= m < a.maps.len() ==> (#[trigger] a.maps[m]).info == b.maps[m].info,
    ensures
        a.map_from_id(id) == b.map_from_id(id),
{
    lemma_position_by(b.maps, map_key(), id);
    let at = position_by(b.maps, map_key(), id);
    assert forall|j: int| 0 <= j < at implies map_key()(#[trigger] a.maps[j]) != id by {
        assert(map_key()(b.maps[j]) != id);
    }
    if at < b.maps.len() {
        assert(map_key()(a.maps[at]) == map_key()(b.maps[at]));
    }
    lemma_position_by_is(a.maps, map_key(), id, at);
}

/// In worlds with the same objects, the objects with an id are a pair in
/// the one if they are in the other.
proof fn lemma_same_objects_pairs(
    a: GameDataView,
    b: GameDataView,
    id: Seq<char>,
    m: int,
    c: int,
    r: int,
    m2: int,
    c2: int,
    r2: int,
)
    requires
        same_objects(a, b),
        paired_with_door(b, id, m, c, r, m2, c2, r2),
    ensures
        paired_with_door(a, id, m, c, r, m2, c2, r2),
{
    assert(same_shape(a.maps[m].grid, b.maps[m].grid));
    assert(same_shape(a.maps[m2].grid, b.maps[m2].grid));
    assert(holds_id_at(b, id, m, c, r));
    assert(holds_id_at(b, id, m2, c2, r2));
    assert(a.maps[m].grid[c].len() == b.maps[m].grid[c].len());
    assert(a.maps[m2].grid[c2].len() == b.maps[m2].grid[c2].len());
    assert(object_id_of(a.maps[m].grid[c][r]) == object_id_of(b.maps[m].grid[c][r]));
    assert(object_id_of(a.maps[m2].grid[c2][r2]) == object_id_of(b.maps[m2].grid[c2][r2]));
    assert forall|k: int, x: int, y: int| #[trigger] holds_id_at(a, id, k, x, y) implies (k == m
        && x == c && y == r) || (k == m2 && x == c2 && y == r2) by {
        assert(same_shape(a.maps[k].grid, b.maps[k].grid));
        assert(object_id_of(a.maps[k].grid[x][y]) == object_id_of(b.maps[k].grid[x][y]));
        assert(holds_id_at(b, id, k, x, y));
    }
}

/// In worlds with the same objects, every door of the one is paired if
/// every door of the other is.
proof fn lemma_same_objects_keep_doors(a: GameDataView, b: GameDataView)
    requires
        same_objects(a, b),
        doors_all_paired(b),
    ensures
        doors_all_paired(a),
{
    assert forall|m: int, c: int, r: int|
        0 <= m < a.maps.len() && slot_in_grid(a.maps[m].grid, c, r) && is_door(
            #[trigger] a.maps[m].grid[c][r],
        ) implies door_paired(a, m, c, r) by {
        assert(same_shape(a.maps[m].grid, b.maps[m].grid));
        assert(a.maps[m].grid[c].len() == b.maps[m].grid[c].len());
        assert(is_door(b.maps[m].grid[c][r]));
        assert(object_id_of(a.maps[m].grid[c][r]) == object_id_of(b.maps[m].grid[c][r]));
        assert(door_paired(b, m, c, r));
        let id = b.maps[m].grid[c][r]->0->Object_0.id;
        let (m2, c2, r2) = choose|m2: int, c2: int, r2: int| #[trigger]
            paired_with_door(b, id, m, c, r, m2, c2, r2);
        lemma_same_objects_pairs(a, b, id, m, c, r, m2, c2, r2);
    }
}

/// Worlds with the same objects stay sound where every occupant of the one
/// names only dialogs that exist.
proof fn lemma_same_objects_keep_integrity(a: GameDataView, b: GameDataView)
    requires
        same_objects(a, b),
        integrity_error(b) is None,
        characters_linked(a),
    ensures
        integrity_error(a) is None,
{
    lemma_same_maps_by_id(a, b, a.info.starting_map);
    lemma_same_objects_keep_doors(a, b);
    assert(dialogs_linked(a)) by {
        assert forall|i: int| 0 <= i < a.dialogs.len() implies next_known(
            a,
            (#[trigger] a.dialogs[i]).option_0.next,
        ) && next_known(a, a.dialogs[i].option_1.next) by {
            assert(next_known(b, b.dialogs[i].option_0.next));
        }
    }
}

/// Replacing an occupant by one that is as much an object with an id, and
/// as much a door, as it was, and that names only dialogs that exist, keeps
/// a sound world sound.
pub proof fn lemma_set_cell_keeps_integrity(
    data: GameDataView,
    m: int,
    x: int,
    y: int,
    occupant: Option<MapDataView>,
)
    requires
        integrity_error(data) is None,
        occupant_linked(data, occupant),
        object_id_of(occupant) == object_id_of(data.cell(m, x, y)),
        is_door(occupant) == is_door(data.cell(m, x, y)),
    ensures
        integrity_error(data.set_cell(m, x, y, occupant)) is None,
        same_objects(data.set_cell(m, x, y, occupant), data),
{
    let after = data.set_cell(m, x, y, occupant);
    assert(same_objects(after, data)) by {
        assert forall|k: int| 0 <= k < after.maps.len() implies (#[trigger] after.maps[k]).info
            == data.maps[k].info && same_shape(after.maps[k].grid, data.maps[k].grid) by {}
        assert forall|k: int, c: int, r: int|
            0 <= k < after.maps.len() && slot_in_grid(after.maps[k].grid, c, r) implies object_id_of(
            #[trigger] after.maps[k].grid[c][r],
        ) == object_id_of(data.maps[k].grid[c][r]) && is_door(after.maps[k].grid[c][r]) == is_door(
            data.maps[k].grid[c][r],
        ) by {}
    }
    assert(characters_linked(after)) by {
        assert forall|k: int, c: int, r: int|
            0 <= k < after.maps.len() && slot_in_grid(after.maps[k].grid, c, r) implies occupant_linked(
            after,
            #[trigger] after.maps[k].grid[c][r],
        ) by {
            if k == m && c == x && r == y {
                lemma_linked_by_dialogs(after, data, occupant);
            } else {
                assert(after.maps[k].grid[c][r] == data.maps[k].grid[c][r]);
                assert(slot_in_grid(data.maps[k].grid, c, r));
                assert(occupant_linked(data, data.maps[k].grid[c][r]));
                lemma_linked_by_dialogs(after, data, data.maps[k].grid[c][r]);
            }
        }
    }
    lemma_same_objects_keep_integrity(after, data);
}

/// Whether an occupant names only dialogs that exist depends on the
/// dialogs of the world alone.
proof fn lemma_linked_by_dialogs(a: GameDataView, b: GameDataView, occupant: Option<MapDataView>)
    requires
        a.dialogs == b.dialogs,
        occupant_linked(b, occupant),
    ensures
        occupant_linked(a, occupant),
{
    match occupant {
        Some(MapDataView::Character(character)) => {
            assert(character_linked(b, character));
            assert forall|i: int| 0 <= i < character.interactions.object_use.len() implies (
            #[trigger] character.interactions.object_use[i]).set_dialog.len() == 0 || has_dialog(
                a.dialogs,
                character.interactions.object_use[i].set_dialog,
            ) by {}
        },
        _ => {},
    }
}

/// Taking a collectable object from its cell keeps a sound world sound: no
/// door has lost its other side, because no door is collectable.
pub proof fn lemma_emptied_cell_keeps_integrity(
    data: GameDataView,
    m: int,
    x: int,
    y: int,
    object: ObjectView,
)
    requires
        integrity_error(data) is None,
        data.cell(m, x, y) == Some(MapDataView::Object(object)),
        object.category == "collectable"@,
    ensures
        integrity_error(data.set_cell(m, x, y, None)) is None,
{
    reveal_strlit("collectable");
    reveal_strlit("door");
    assert("collectable"@.len() != "door"@.len());
    let after = data.set_cell(m, x, y, None);
    lemma_same_maps_by_id(after, data, data.info.starting_map);
    assert(dialogs_linked(after)) by {
        assert forall|i: int|
            0 <= i < after.dialogs.len() implies next_known(
            after,
            (#[trigger] after.dialogs[i]).option_0.next,
        ) && next_known(after, after.dialogs[i].option_1.next) by {
            assert(next_known(data, data.dialogs[i].option_0.next));
        }
    }
    assert(characters_linked(after)) by {
        assert forall|k: int, c: int, r: int|
            0 <= k < after.maps.len() && slot_in_grid(after.maps[k].grid, c, r) implies occupant_linked(
            after,
            #[trigger] after.maps[k].grid[c][r],
        ) by {
            if !(k == m && c == x && r == y) {
                assert(after.maps[k].grid[c][r] == data.maps[k].grid[c][r]);
                assert(slot_in_grid(data.maps[k].grid, c, r));
                assert(occupant_linked(data, data.maps[k].grid[c][r]));
                lemma_linked_by_dialogs(after, data, data.maps[k].grid[c][r]);
            }
        }
    }
    assert(doors_all_paired(after)) by {
        assert forall|k: int, c: int, r: int|
            0 <= k < after.maps.len() && slot_in_grid(after.maps[k].grid, c, r) && is_door(
                #[trigger] after.maps[k].grid[c][r],
            ) implies door_paired(after, k, c, r) by {
            assert(!(k == m && c == x && r == y));
            assert(after.maps[k].grid[c][r] == data.maps[k].grid[c][r]);
            assert(slot_in_grid(data.maps[k].grid, c, r));
            assert(door_paired(data, k, c, r));
            let id = data.maps[k].grid[c][r]->0->Object_0.id;
            let (m2, c2, r2) = choose|m2: int, c2: int, r2: int| #[trigger]
                paired_with_door(data, id, k, c, r, m2, c2, r2);
            assert(holds_id_at(data, id, m2, c2, r2));
            assert(!(m2 == m && c2 == x && r2 == y));
            assert(after.maps[m2].grid[c2][r2] == data.maps[m2].grid[c2][r2]);
            assert(holds_id_at(after, id, k, c, r));
            assert(holds_id_at(after, id, m2, c2, r2));
            assert forall|k3: int, c3: int, r3: int| #[trigger]
                holds_id_at(after, id, k3, c3, r3) implies (k3 == k && c3 == c && r3 == r) || (k3
                == m2 && c3 == c2 && r3 == r2) by {
                assert(!(k3 == m && c3 == x && r3 == y));
                assert(after.maps[k3].grid[c3][r3] == data.maps[k3].grid[c3][r3]);
                assert(holds_id_at(data, id, k3, c3, r3));
            }
            assert(paired_with_door(after, id, k, c, r, m2, c2, r2));
        }
    }
}

/// Whether a world is sound does not depend on its player.
pub proof fn lemma_player_is_no_reference(data: GameDataView, info: GameInfoView)
    requires
        integrity_error(data) is None,
        info.starting_map == data.info.starting_map,
    ensures
        integrity_error(GameDataView { info, ..data }) is None,
{
    let after = GameDataView { info, ..data };
    assert(same_objects(after, data)) by {
        assert forall|k: int| 0 <= k < after.maps.len() implies (#[trigger] after.maps[k]).info
            == data.maps[k].info && same_shape(after.maps[k].grid, data.maps[k].grid) by {}
    }
    assert(characters_linked(after)) by {
        assert forall|k: int, c: int, r: int|
            0 <= k < after.maps.len() && slot_in_grid(after.maps[k].grid, c, r) implies occupant_linked(
            after,
            #[trigger] after.maps[k].grid[c][r],
        ) by {
            assert(occupant_linked(data, data.maps[k].grid[c][r]));
            lemma_linked_by_dialogs(after, data, data.maps[k].grid[c][r]);
        }
    }
    lemma_same_objects_keep_integrity(after, data);
}

/// The entry that decides what an item does to a character is an entry of
/// the list of the character.
proof fn lemma_first_character_use_is_listed(uses: Seq<ObjectUseView>, item_id: Seq<char>)
    requires
        first_character_use(uses, item_id) is Some,
    ensures
        exists|i: int| 0 <= i < uses.len() && #[trigger] uses[i] == first_character_use(
            uses,
            item_id,
        )->0,
    decreases uses.len(),
{
    if uses[0].object_id == item_id {
        assert(uses[0] == first_character_use(uses, item_id)->0);
    } else {
        lemma_first_character_use_is_listed(uses.drop_first(), item_id);
        let i = choose|i: int|
            0 <= i < uses.drop_first().len() && #[trigger] uses.drop_first()[i]
                == first_character_use(uses.drop_first(), item_id)->0;
        assert(uses[i + 1] == uses.drop_first()[i]);
    }
}

/// Using an item keeps a sound world sound.
pub proof fn lemma_use_object_keeps_integrity(data: GameDataView, s: GameStateView)
    requires
        integrity_error(data) is None,
    ensures
        integrity_error(use_object(data, s).0) is None,
{
    let m = s.current_map;
    let x = s.current_player_x;
    let y = s.current_player_y;
    match data.cell(m, x, y) {
        None => {},
        Some(MapDataView::Character(character)) => {
            assert(occupant_linked(data, data.maps[m].grid[x][y]));
            match data.inventory_slot(s.inventory_x, s.inventory_y) {
                None => {},
                Some(item) => match character.object_use_for(item.id) {
                    None => {},
                    Some(rule) => {
                        lemma_first_character_use_is_listed(
                            character.interactions.object_use,
                            item.id,
                        );
                        let moved = Some(
                            MapDataView::Character(character.with_dialog(rule.set_dialog)),
                        );
                        let talked = if rule.set_dialog.len() > 0 {
                            assert(character_linked(
                                data,
                                character.with_dialog(rule.set_dialog),
                            ));
                            lemma_set_cell_keeps_integrity(data, m, x, y, moved);
                            data.set_cell(m, x, y, moved)
                        } else {
                            data
                        };
                        if rule.consume_item {
                            lemma_player_is_no_reference(
                                talked,
                                talked.remove_inventory_slot(s.inventory_x, s.inventory_y).info,
                            );
                        }
                    },
                },
            }
        },
        Some(MapDataView::Object(target)) => {
            match data.inventory_slot(s.inventory_x, s.inventory_y) {
                None => {},
                Some(item) => match target.object_use_for(item.id) {
                    None => {},
                    Some(rule) => match apply_object_use(data, s, target, rule.self_action) {
                        None => {},
                        Some(changed) => {
                            let changes = rule.self_action;
                            let here_now = Some(MapDataView::Object(target.set_states(changes)));
                            lemma_set_cell_keeps_integrity(data, m, x, y, here_now);
                            let here = data.set_cell(m, x, y, here_now);
                            if target.category == "door"@ {
                                let (m2, x2, y2) = data.door_other_side(m, target.id).unwrap();
                                lemma_door_other_side_some(data, m, target.id, m2, x2, y2);
                                lemma_first_slot_some(
                                    data.maps[m2].grid,
                                    holds_object(target.id),
                                    x2,
                                    y2,
                                );
                                let other = data.cell(m2, x2, y2).unwrap()->Object_0;
                                let there_now = Some(
                                    MapDataView::Object(other.set_states(changes)),
                                );
                                assert(here.cell(m2, x2, y2) == data.cell(m2, x2, y2));
                                lemma_set_cell_keeps_integrity(here, m2, x2, y2, there_now);
                            }
                            if rule.consume_item {
                                lemma_player_is_no_reference(
                                    changed,
                                    changed.remove_inventory_slot(
                                        s.inventory_x,
                                        s.inventory_y,
                                    ).info,
                                );
                            }
                        },
                    },
                },
            }
        },
    }
}

/// Interacting with what the player stands on keeps a sound world sound.
pub proof fn lemma_interact_keeps_integrity(data: GameDataView, s: GameStateView)
    requires
        integrity_error(data) is None,
    ensures
        integrity_error(handle_interact_key(data, s).0) is None,
{
    let m = s.current_map;
    let x = s.current_player_x;
    let y = s.current_player_y;
    match data.cell(m, x, y) {
        Some(MapDataView::Object(object)) => {
            if object.category == "collectable"@ && data.can_collect() {
                let filled = GameDataView {
                    info: GameInfoView {
                        player: Some(data.info.player.unwrap().collect_object(object)),
                        ..data.info
                    },
                    ..data
                };
                lemma_player_is_no_reference(data, filled.info);
                lemma_emptied_cell_keeps_integrity(filled, m, x, y, object);
            }
        },
        _ => {},
    }
}

/// The world stays sound: where the cross references of the world hold
/// before a key is pressed, they hold after it. The starting map still
/// exists, every character and every answer still names a dialog that
/// exists, and every door still has exactly one other side.
pub proof fn law_integrity_is_kept(data: GameDataView, s: GameStateView, key: Key)
    requires
        integrity_error(data) is None,
    ensures
        integrity_error(handle_key(data, s, key).0) is None,
{
    match s.visual_state {
        VisualState::PlayingMap => {
            if key == Key::Enter {
                lemma_interact_keeps_integrity(data, s);
            }
        },
        VisualState::PlayingInventory => {
            if key == Key::Enter {
                lemma_use_object_keeps_integrity(data, s);
            }
        },
        _ => {},
    }
}

/// A turn of the game keeps the world sound and of the dimensions it has.
pub proof fn law_turn_keeps_the_world(data: GameDataView, s: GameStateView)
    requires
        integrity_error(data) is None,
    ensures
        integrity_error(turn(data, s).0) is None,
        same_dimensions(turn(data, s).0, data),
{
    let seen = shown(s);
    law_integrity_is_kept(data, seen, seen.last_character_pressed);
    law_dimensions_are_fixed(data, seen, seen.last_character_pressed);
    assert(same_dimensions(data, data));
}

/// In a sound world every door leads back: a player who stands on a door,
/// goes through it, and at once goes through the door arrived at, stands
/// where the journey began, in a session that is otherwise unchanged.
pub proof fn law_checked_doors_lead_back(data: GameDataView, s: GameStateView, door: ObjectView)
    requires
        integrity_error(data) is None,
        data.cell(s.current_map, s.current_player_x, s.current_player_y) == Some(
            MapDataView::Object(door),
        ),
        door.category == "door"@,
        s.current_player_x <= u16::MAX,
        s.current_player_y <= u16::MAX,
    ensures
        travel_through_door(data, travel_through_door(data, s, door.id), door.id) == s,
{
    let m = s.current_map;
    let x = s.current_player_x;
    let y = s.current_player_y;
    assert(is_door(data.maps[m].grid[x][y]));
    assert(door_paired(data, m, x, y));
    let (m2, x2, y2) = choose|m2: int, x2: int, y2: int| #[trigger]
        paired_with_door(data, door.id, m, x, y, m2, x2, y2);
    lemma_paired_door_leads_to_its_pair(data, door.id, m, x, y, m2, x2, y2);
    if x2 <= u16::MAX && y2 <= u16::MAX {
        law_door_travel_is_symmetric(data, s, door.id, m2, x2, y2);
    }
}

} // verus!

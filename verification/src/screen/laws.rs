//! What holds of the controller whatever the world, the session and the
//! key.

use crate::characters::{empty_slot, first_empty_slot, inventory_full};
use crate::grid::{
    is_first_slot, lemma_first_slot_none, lemma_first_slot_some, lemma_with_slot, same_shape,
    slot_in_grid, with_slot,
};
use crate::maps::{MapDataView, holds_category, lemma_move_allowed_limits, on_boundary};
use crate::objects::{ObjectInteractionView, ObjectView};
use crate::screen::rules::{
    activate_each, apply_object_use, can_move, handle_interact_key, handle_key,
    key_playing_inventory, key_playing_map, step_player, travel_through_door, use_object,
};
use crate::screen::draw::{shown, turn};
use crate::screen::scenes::blinked;
use crate::session::{GameStateView, Key, VisualState};
use crate::doors::{doors_paired, lemma_paired_door_leads_to_its_pair};
use crate::world::{GameDataView, GameInfoView, same_dimensions};
use vstd::prelude::*;

verus! {

/// The player never moves onto the boundary ring of a map but through a
/// door, and never onto a collidable object.
pub proof fn law_walls_and_obstacles_block(data: GameDataView, s: GameStateView, dx: int, dy: int)
    ensures
        ({
            let grid = data.maps[s.current_map].grid;
            let x = s.current_player_x + dx;
            let y = s.current_player_y + dy;
            &&& on_boundary(grid, x, y) && !(slot_in_grid(grid, x, y) && holds_category(
                grid[x][y],
                "door"@,
            )) ==> !can_move(data, s, dx, dy)
            &&& slot_in_grid(grid, x, y) && holds_category(grid[x][y], "collidable"@) ==> !can_move(
                data,
                s,
                dx,
                dy,
            )
        }),
{
    lemma_move_allowed_limits(
        data.maps[s.current_map].grid,
        s.current_player_x + dx,
        s.current_player_y + dy,
    );
}

/// Trying the interactions of an object never changes which answer of a
/// dialog is selected.
pub proof fn lemma_activate_each_keeps_selection(
    data: GameDataView,
    s: GameStateView,
    object: ObjectView,
    interactions: Seq<ObjectInteractionView>,
)
    ensures
        activate_each(data, s, object, interactions).dialog_selected == s.dialog_selected,
    decreases interactions.len(),
{
    if interactions.len() > 0 {
        lemma_activate_each_keeps_selection(data, s, object, interactions.drop_last());
    }
}

/// Interacting with what the player stands on never changes which answer
/// of a dialog is selected.
pub proof fn lemma_interact_keeps_selection(data: GameDataView, s: GameStateView)
    ensures
        handle_interact_key(data, s).1.dialog_selected == s.dialog_selected,
{
    match data.cell(s.current_map, s.current_player_x, s.current_player_y) {
        Some(MapDataView::Object(object)) => {
            lemma_activate_each_keeps_selection(data, s, object, object.interactions);
        },
        _ => {},
    }
}

/// Using an item never changes which answer of a dialog is selected.
pub proof fn lemma_use_object_keeps_selection(data: GameDataView, s: GameStateView)
    ensures
        use_object(data, s).1.dialog_selected == s.dialog_selected,
{
}

/// On the map no key changes which answer of a dialog is selected.
pub proof fn lemma_map_keeps_selection(data: GameDataView, s: GameStateView, key: Key)
    ensures
        key_playing_map(data, s, key).1.dialog_selected == s.dialog_selected,
{
    lemma_interact_keeps_selection(data, s);
}

/// In the inventory no key changes which answer of a dialog is selected.
pub proof fn lemma_inventory_keeps_selection(data: GameDataView, s: GameStateView, key: Key)
    ensures
        key_playing_inventory(data, s, key).1.dialog_selected == s.dialog_selected,
{
    lemma_use_object_keeps_selection(data, s);
}

/// The selected answer of a dialog is always the first or the second: no
/// key leads from a session in which it is to one in which it is not.
pub proof fn law_selection_stays_binary(data: GameDataView, s: GameStateView, key: Key)
    requires
        s.dialog_selected == 0 || s.dialog_selected == 1,
    ensures
        handle_key(data, s, key).1.dialog_selected == 0 || handle_key(
            data,
            s,
            key,
        ).1.dialog_selected == 1,
{
    match s.visual_state {
        VisualState::StartScreen => {},
        VisualState::PlayingMap => {
            lemma_map_keeps_selection(data, s, key);
        },
        VisualState::PlayingDialog => {},
        VisualState::PlayingInventory => {
            lemma_inventory_keeps_selection(data, s, key);
        },
        VisualState::PlayingCharacterInteraction => {},
        VisualState::PlayingCharacterFight => {},
    }
}

/// Door travel is symmetric: a player who goes through a door and at once
/// through the door arrived at stands where the journey began, in a session
/// that is otherwise unchanged. The two doors must be a pair, and both must
/// stand at coordinates a session can hold.
pub proof fn law_door_travel_is_symmetric(
    data: GameDataView,
    s: GameStateView,
    id: Seq<char>,
    m2: int,
    x2: int,
    y2: int,
)
    requires
        doors_paired(data, id, s.current_map, s.current_player_x, s.current_player_y, m2, x2, y2),
        s.current_player_x <= u16::MAX,
        s.current_player_y <= u16::MAX,
        x2 <= u16::MAX,
        y2 <= u16::MAX,
    ensures
        travel_through_door(data, s, id) == (GameStateView {
            current_map: m2,
            current_player_x: x2,
            current_player_y: y2,
            ..s
        }),
        travel_through_door(data, travel_through_door(data, s, id), id) == s,
{
    lemma_paired_door_leads_to_its_pair(
        data,
        id,
        s.current_map,
        s.current_player_x,
        s.current_player_y,
        m2,
        x2,
        y2,
    );
    assert(doors_paired(
        data,
        id,
        m2,
        x2,
        y2,
        s.current_map,
        s.current_player_x,
        s.current_player_y,
    ));
    lemma_paired_door_leads_to_its_pair(
        data,
        id,
        m2,
        x2,
        y2,
        s.current_map,
        s.current_player_x,
        s.current_player_y,
    );
}


/// Picking an object up with a full inventory, or in a world without a
/// player, changes nothing: the object stays on the map. With an empty slot
/// the object lies afterwards in the first empty slot in scan order, its
/// cell on the map is empty, and no other slot or cell has changed.
pub proof fn law_collect_fills_first_empty_slot(
    data: GameDataView,
    m: int,
    x: int,
    y: int,
    object: ObjectView,
)
    ensures
        !data.can_collect() ==> data.collect(m, x, y, object) == data,
        data.info.player is Some ==> (data.can_collect() <==> !inventory_full(data.inventory())),
        data.can_collect() ==> ({
            let after = data.collect(m, x, y, object);
            let (c, r) = first_empty_slot(data.inventory()).unwrap();
            &&& is_first_slot(data.inventory(), empty_slot(), c, r)
            &&& after.inventory() == with_slot(data.inventory(), c, r, Some(object))
            &&& after.inventory_slot(c, r) == Some(object)
            &&& after.cell(m, x, y) is None
            &&& forall|m2: int, x2: int, y2: int|
                (m2 != m || x2 != x || y2 != y) ==> #[trigger] after.cell(m2, x2, y2) == data.cell(
                    m2,
                    x2,
                    y2,
                )
            &&& forall|c2: int, r2: int|
                (c2 != c || r2 != r) ==> #[trigger] after.inventory_slot(c2, r2)
                    == data.inventory_slot(c2, r2)
        }),
{
    lemma_first_slot_none(data.inventory(), empty_slot());
    if data.can_collect() {
        let (c, r) = first_empty_slot(data.inventory()).unwrap();
        lemma_first_slot_some(data.inventory(), empty_slot(), c, r);
    }
}

/// Replacing a cell changes neither the number of maps nor the dimensions
/// of any of them, nor anything of the player.
pub proof fn lemma_set_cell_keeps_dimensions(
    data: GameDataView,
    m: int,
    x: int,
    y: int,
    occupant: Option<MapDataView>,
)
    ensures
        same_dimensions(data.set_cell(m, x, y, occupant), data),
        data.set_cell(m, x, y, occupant).info == data.info,
        data.set_cell(m, x, y, occupant).dialogs == data.dialogs,
{
    let after = data.set_cell(m, x, y, occupant);
    assert forall|k: int| 0 <= k < after.maps.len() implies same_shape(
        (#[trigger] after.maps[k]).grid,
        data.maps[k].grid,
    ) by {
        lemma_with_slot(data.maps[k].grid, x, y, occupant);
    }
}

/// Emptying an inventory slot changes neither the maps nor the dimensions
/// of the inventory.
pub proof fn lemma_remove_slot_keeps_dimensions(data: GameDataView, x: int, y: int)
    ensures
        same_dimensions(data.remove_inventory_slot(x, y), data),
        data.remove_inventory_slot(x, y).maps == data.maps,
        data.remove_inventory_slot(x, y).dialogs == data.dialogs,
{
    if data.info.player is Some {
        lemma_with_slot(data.info.player.unwrap().inventory, x, y, None);
    }
}

/// Having the same dimensions is transitive.
pub proof fn lemma_same_dimensions_chain(a: GameDataView, b: GameDataView, c: GameDataView)
    requires
        same_dimensions(a, b),
        same_dimensions(b, c),
    ensures
        same_dimensions(a, c),
{
    assert forall|m: int| 0 <= m < a.maps.len() implies same_shape(
        (#[trigger] a.maps[m]).grid,
        c.maps[m].grid,
    ) by {
        assert(same_shape(a.maps[m].grid, b.maps[m].grid));
        assert(same_shape(b.maps[m].grid, c.maps[m].grid));
    }
}

/// The world keeps its dimensions: whatever key is pressed, there are as
/// many maps afterwards as before, each of the width and height it had, and
/// the inventory of the player has the columns and rows it had. The dialogs
/// do not change at all.
pub proof fn law_dimensions_are_fixed(data: GameDataView, s: GameStateView, key: Key)
    ensures
        same_dimensions(handle_key(data, s, key).0, data),
        handle_key(data, s, key).0.dialogs == data.dialogs,
{
    let m = s.current_map;
    let x = s.current_player_x;
    let y = s.current_player_y;
    let after = handle_key(data, s, key).0;
    assert(same_dimensions(data, data));
    match data.cell(m, x, y) {
        Some(MapDataView::Object(target)) => {
            if data.can_collect() {
                let (c, r) = first_empty_slot(data.inventory()).unwrap();
                let filled = GameDataView {
                    info: GameInfoView {
                        player: Some(data.info.player.unwrap().collect_object(target)),
                        ..data.info
                    },
                    ..data
                };
                lemma_with_slot(data.inventory(), c, r, Some(target));
                lemma_set_cell_keeps_dimensions(filled, m, x, y, None);
                lemma_same_dimensions_chain(filled.set_cell(m, x, y, None), filled, data);
            }
            match data.inventory_slot(s.inventory_x, s.inventory_y) {
                Some(item) => match target.object_use_for(item.id) {
                    Some(rule) => {
                        let changes = rule.self_action;
                        let here = data.set_cell(
                            m,
                            x,
                            y,
                            Some(MapDataView::Object(target.set_states(changes))),
                        );
                        lemma_set_cell_keeps_dimensions(
                            data,
                            m,
                            x,
                            y,
                            Some(MapDataView::Object(target.set_states(changes))),
                        );
                        match apply_object_use(data, s, target, changes) {
                            Some(changed) => {
                                if changed != here {
                                    let (m2, x2, y2) = data.door_other_side(m, target.id).unwrap();
                                    let other = data.cell(m2, x2, y2).unwrap()->Object_0;
                                    lemma_set_cell_keeps_dimensions(
                                        here,
                                        m2,
                                        x2,
                                        y2,
                                        Some(MapDataView::Object(other.set_states(changes))),
                                    );
                                    lemma_same_dimensions_chain(changed, here, data);
                                }
                                lemma_remove_slot_keeps_dimensions(
                                    changed,
                                    s.inventory_x,
                                    s.inventory_y,
                                );
                                lemma_same_dimensions_chain(
                                    changed.remove_inventory_slot(s.inventory_x, s.inventory_y),
                                    changed,
                                    data,
                                );
                            },
                            None => {},
                        }
                    },
                    None => {},
                },
                None => {},
            }
        },
        Some(MapDataView::Character(character)) => {
            match data.inventory_slot(s.inventory_x, s.inventory_y) {
                Some(item) => match character.object_use_for(item.id) {
                    Some(rule) => {
                        let moved = Some(
                            MapDataView::Character(character.with_dialog(rule.set_dialog)),
                        );
                        lemma_set_cell_keeps_dimensions(data, m, x, y, moved);
                        let talked = data.set_cell(m, x, y, moved);
                        lemma_remove_slot_keeps_dimensions(talked, s.inventory_x, s.inventory_y);
                        lemma_same_dimensions_chain(
                            talked.remove_inventory_slot(s.inventory_x, s.inventory_y),
                            talked,
                            data,
                        );
                        lemma_remove_slot_keeps_dimensions(data, s.inventory_x, s.inventory_y);
                    },
                    None => {},
                },
                None => {},
            }
        },
        None => {},
    }
}

/// Whether an interaction does nothing when the object is activated: an
/// item use, or an activation whose prerequisites are met and which is not a
/// journey.
pub open spec fn is_idle(object: ObjectView, interaction: ObjectInteractionView) -> bool {
    match interaction {
        ObjectInteractionView::Activate(activate) => object.prereqs_met(activate.prereqs)
            && activate.category != "travel"@,
        ObjectInteractionView::ObjectUse(_) => true,
    }
}

/// Whether an interaction is a journey that the object allows.
pub open spec fn is_open_journey(object: ObjectView, interaction: ObjectInteractionView) -> bool {
    match interaction {
        ObjectInteractionView::Activate(activate) => object.prereqs_met(activate.prereqs)
            && activate.category == "travel"@,
        ObjectInteractionView::ObjectUse(_) => false,
    }
}

/// Whether activating the object is one journey and nothing else: its
/// interaction `k` is a journey that the object allows, and every other
/// interaction does nothing.
pub open spec fn is_open_door(object: ObjectView, k: int) -> bool {
    &&& object.category != "collectable"@
    &&& 0 <= k < object.interactions.len()
    &&& is_open_journey(object, object.interactions[k])
    &&& forall|j: int|
        0 <= j < object.interactions.len() && j != k ==> is_idle(
            object,
            #[trigger] object.interactions[j],
        )
}

/// Activating an open door is going through it.
pub proof fn lemma_open_door_is_travelled(
    data: GameDataView,
    s: GameStateView,
    object: ObjectView,
    k: int,
    n: int,
)
    requires
        is_open_door(object, k),
        0 <= n <= object.interactions.len(),
    ensures
        activate_each(data, s, object, object.interactions.take(n)) == if n > k {
            travel_through_door(data, s, object.id)
        } else {
            s
        },
    decreases n,
{
    if n > 0 {
        let all = object.interactions;
        lemma_open_door_is_travelled(data, s, object, k, n - 1);
        assert(all.take(n).drop_last() =~= all.take(n - 1));
        assert(all.take(n).last() == all[n - 1]);
        if n - 1 != k {
            assert(is_idle(object, all[n - 1]));
        }
    }
}

/// Door travel is symmetric for the player at the keys: who stands on an
/// open door, interacts with it, and at once interacts with the door
/// arrived at, stands where the journey began; nothing else has changed in
/// the session, and nothing at all in the world. The two doors must be open
/// doors and a pair, and both must stand at coordinates a session can hold.
pub proof fn law_door_journey_and_back(
    data: GameDataView,
    s: GameStateView,
    here: ObjectView,
    there: ObjectView,
    k_here: int,
    k_there: int,
    m2: int,
    x2: int,
    y2: int,
)
    requires
        data.cell(s.current_map, s.current_player_x, s.current_player_y) == Some(
            MapDataView::Object(here),
        ),
        data.cell(m2, x2, y2) == Some(MapDataView::Object(there)),
        is_open_door(here, k_here),
        is_open_door(there, k_there),
        doors_paired(
            data,
            here.id,
            s.current_map,
            s.current_player_x,
            s.current_player_y,
            m2,
            x2,
            y2,
        ),
        s.current_player_x <= u16::MAX,
        s.current_player_y <= u16::MAX,
        x2 <= u16::MAX,
        y2 <= u16::MAX,
    ensures
        ({
            let (world, arrived) = handle_interact_key(data, s);
            &&& world == data
            &&& arrived == (GameStateView {
                current_map: m2,
                current_player_x: x2,
                current_player_y: y2,
                ..s
            })
            &&& handle_interact_key(world, arrived) == (data, s)
        }),
{
    law_door_travel_is_symmetric(data, s, here.id, m2, x2, y2);
    lemma_open_door_is_travelled(data, s, here, k_here, here.interactions.len() as int);
    assert(here.interactions.take(here.interactions.len() as int) =~= here.interactions);
    let arrived = travel_through_door(data, s, here.id);
    assert(there.id == here.id);
    lemma_open_door_is_travelled(data, arrived, there, k_there, there.interactions.len() as int);
    assert(there.interactions.take(there.interactions.len() as int) =~= there.interactions);
}

/// Where the player stands on a cell of the map, no attempt to move leads
/// off the map: afterwards the player stands on a cell of the same map.
pub proof fn law_player_stays_on_the_map(data: GameDataView, s: GameStateView, dx: int, dy: int)
    requires
        0 <= s.current_map < data.maps.len(),
        slot_in_grid(data.maps[s.current_map].grid, s.current_player_x, s.current_player_y),
    ensures
        ({
            let moved = step_player(data, s, dx, dy);
            &&& moved.current_map == s.current_map
            &&& slot_in_grid(
                data.maps[s.current_map].grid,
                moved.current_player_x,
                moved.current_player_y,
            )
        }),
{
}

/// The game ends only when the player says so: no key asks the run loop
/// to end but Enter on the second answer of the question whether to leave.
pub proof fn law_exit_needs_confirmation(data: GameDataView, s: GameStateView, key: Key)
    requires
        !s.do_exit,
    ensures
        handle_key(data, s, key).1.do_exit <==> s.visual_state == VisualState::PlayingDialog && key
            == Key::Enter && s.pre_exit && s.dialog_selected == 1,
{
    match s.visual_state {
        VisualState::PlayingMap => {
            lemma_map_keeps_exit(data, s, key);
        },
        _ => {},
    }
}

/// Trying the interactions of an object never asks the run loop to end.
proof fn lemma_activate_each_keeps_exit(
    data: GameDataView,
    s: GameStateView,
    object: ObjectView,
    interactions: Seq<ObjectInteractionView>,
)
    ensures
        activate_each(data, s, object, interactions).do_exit == s.do_exit,
    decreases interactions.len(),
{
    if interactions.len() > 0 {
        lemma_activate_each_keeps_exit(data, s, object, interactions.drop_last());
    }
}

/// On the map no key asks the run loop to end.
proof fn lemma_map_keeps_exit(data: GameDataView, s: GameStateView, key: Key)
    ensures
        key_playing_map(data, s, key).1.do_exit == s.do_exit,
{
    match data.cell(s.current_map, s.current_player_x, s.current_player_y) {
        Some(MapDataView::Object(object)) => {
            lemma_activate_each_keeps_exit(data, s, object, object.interactions);
        },
        _ => {},
    }
}

/// What is not a key with a meaning does nothing, whatever screen is
/// shown.
pub proof fn law_other_key_does_nothing(data: GameDataView, s: GameStateView)
    ensures
        handle_key(data, s, Key::Other) == (data, s),
{
}

/// A turn without a key changes nothing but the blinking of the cursor:
/// the world stays as it is, and the session stays on its screen.
pub proof fn law_turn_without_key_only_blinks(data: GameDataView, s: GameStateView)
    requires
        s.last_character_processed,
    ensures
        turn(data, s).0 == data,
        turn(data, s).1 == s || turn(data, s).1 == blinked(s),
        turn(data, s).1.visual_state == s.visual_state,
{
}

/// A turn of the game keeps the selected answer the first or the second.
pub proof fn law_turn_keeps_selection_binary(data: GameDataView, s: GameStateView)
    requires
        s.dialog_selected == 0 || s.dialog_selected == 1,
    ensures
        turn(data, s).1.dialog_selected == 0 || turn(data, s).1.dialog_selected == 1,
{
    let seen = shown(s);
    law_selection_stays_binary(data, seen, seen.last_character_pressed);
}

} // verus!

//! What each key does, stated over the views of the world and the session.
//! The functions of the controller are proved to compute exactly these.

use crate::characters::CharacterView;
use crate::dialogs::{dialog_by_id, has_dialog};
use crate::maps::{MapDataView, move_allowed};
use crate::objects::{ObjectInteractionView, ObjectStateView, ObjectView};
use crate::session::{GameStateView, Key, VisualState};
use crate::world::GameDataView;
use vstd::prelude::*;

verus! {

/// Whether the player may move by `(dx, dy)`: the target must be a cell of
/// the current map that may be entered, at coordinates a session can hold.
pub open spec fn can_move(data: GameDataView, s: GameStateView, dx: int, dy: int) -> bool {
    let x = s.current_player_x + dx;
    let y = s.current_player_y + dy;
    &&& 0 <= s.current_map < data.maps.len()
    &&& x <= u16::MAX
    &&& y <= u16::MAX
    &&& move_allowed(data.maps[s.current_map].grid, x, y)
}

/// The session after an attempt to move by `(dx, dy)`. A player who moves
/// is drawn solid on the next frame.
pub open spec fn step_player(data: GameDataView, s: GameStateView, dx: int, dy: int) -> GameStateView {
    if can_move(data, s, dx, dy) {
        GameStateView {
            current_player_x: s.current_player_x + dx,
            current_player_y: s.current_player_y + dy,
            cursor_blink: true,
            ..s
        }
    } else {
        s
    }
}

/// The session on the map after the current one, the first map following
/// the last.
pub open spec fn next_map(data: GameDataView, s: GameStateView) -> GameStateView {
    GameStateView {
        current_map: if s.current_map + 1 < data.maps.len() {
            s.current_map + 1
        } else {
            0
        },
        ..s
    }
}

/// The session in conversation with `character`. Leaving the conversation
/// leads back to the screen shown before.
pub open spec fn character_interact(s: GameStateView, character: CharacterView) -> GameStateView {
    GameStateView {
        dialog_return_cancel: s.visual_state,
        visual_state: VisualState::PlayingCharacterInteraction,
        npc_dialog_id: character.dialog_id,
        ..s
    }
}

/// The session after the player went through the door with id `door_id`:
/// the player stands on the other side. A door that leads nowhere, or to
/// coordinates a session cannot hold, leaves the player in place.
pub open spec fn travel_through_door(
    data: GameDataView,
    s: GameStateView,
    door_id: Seq<char>,
) -> GameStateView {
    match data.door_other_side(s.current_map, door_id) {
        Some((m, x, y)) => if x <= u16::MAX && y <= u16::MAX {
            GameStateView { current_map: m, current_player_x: x, current_player_y: y, ..s }
        } else {
            s
        },
        None => s,
    }
}

pub open spec fn found_message(name: Seq<char>) -> Seq<char> {
    "You've found the "@ + name + "!\n\nNow, what will you do with it?"@
}

pub open spec fn full_message(name: Seq<char>) -> Seq<char> {
    "Your inventory is full! You can't carry the "@ + name + "."@
}

pub open spec fn locked_message() -> Seq<char> {
    "The door is locked! Try to find a key."@
}

pub open spec fn used_message(item: Seq<char>, target: Seq<char>) -> Seq<char> {
    "You used the "@ + item + " on the "@ + target + "!"@
}

pub open spec fn failed_message(item: Seq<char>, target: Seq<char>) -> Seq<char> {
    "You tried to use the "@ + item + " on the "@ + target + ", but it didn't work!"@
}

pub open spec fn nothing_here_message() -> Seq<char> {
    "You can't use this item here!"@
}

/// The session after one interaction of `object` had its turn. An
/// activation whose prerequisites are not met does nothing, but that a door
/// says it is locked. One whose prerequisites are met takes the player
/// through the door if it is a `"travel"` activation.
pub open spec fn activate_one(
    data: GameDataView,
    s: GameStateView,
    object: ObjectView,
    interaction: ObjectInteractionView,
) -> GameStateView {
    match interaction {
        ObjectInteractionView::Activate(activate) => {
            if !object.prereqs_met(activate.prereqs) {
                if object.category == "door"@ {
                    s.offer_inventory(locked_message())
                } else {
                    s
                }
            } else if activate.category == "travel"@ {
                travel_through_door(data, s, object.id)
            } else {
                s
            }
        },
        ObjectInteractionView::ObjectUse(_) => s,
    }
}

/// The session after each of `interactions` had its turn, in the order in
/// which they are declared.
pub open spec fn activate_each(
    data: GameDataView,
    s: GameStateView,
    object: ObjectView,
    interactions: Seq<ObjectInteractionView>,
) -> GameStateView
    decreases interactions.len(),
{
    if interactions.len() == 0 {
        s
    } else {
        activate_one(
            data,
            activate_each(data, s, object, interactions.drop_last()),
            object,
            interactions.last(),
        )
    }
}

/// World and session after the player tried to pick up `object` from the
/// cell the player stands on. With room in the inventory the object moves
/// there and the cell is empty; without, nothing moves. Either way a dialog
/// says what happened.
pub open spec fn collect_object(data: GameDataView, s: GameStateView, object: ObjectView) -> (
    GameDataView,
    GameStateView,
) {
    if data.can_collect() {
        (
            data.collect(s.current_map, s.current_player_x, s.current_player_y, object),
            s.offer_inventory(found_message(object.name)),
        )
    } else {
        (data, s.offer_inventory(full_message(object.name)))
    }
}

/// World and session after the player activated `object`.
pub open spec fn activate_object(data: GameDataView, s: GameStateView, object: ObjectView) -> (
    GameDataView,
    GameStateView,
) {
    if object.category == "collectable"@ {
        collect_object(data, s, object)
    } else {
        (data, activate_each(data, s, object, object.interactions))
    }
}

/// World and session after the player pressed the interaction key on the
/// map: a character is talked to, an object is activated, an empty cell
/// does nothing.
pub open spec fn handle_interact_key(data: GameDataView, s: GameStateView) -> (
    GameDataView,
    GameStateView,
) {
    match data.cell(s.current_map, s.current_player_x, s.current_player_y) {
        Some(MapDataView::Character(character)) => (data, character_interact(s, character)),
        Some(MapDataView::Object(object)) => activate_object(data, s, object),
        None => (data, s),
    }
}

/// The world after the assignments of `rule` were made to `target`, the
/// object the player stands on. For a door the same assignments are made to
/// its other side; where the other side cannot be found nothing is changed
/// at all, and the result is `None`.
pub open spec fn apply_object_use(
    data: GameDataView,
    s: GameStateView,
    target: ObjectView,
    changes: Seq<ObjectStateView>,
) -> Option<GameDataView> {
    let here = data.set_cell(
        s.current_map,
        s.current_player_x,
        s.current_player_y,
        Some(MapDataView::Object(target.set_states(changes))),
    );
    if target.category == "door"@ {
        match data.door_other_side(s.current_map, target.id) {
            Some((m, x, y)) => match data.cell(m, x, y) {
                Some(MapDataView::Object(other)) => Some(
                    here.set_cell(m, x, y, Some(MapDataView::Object(other.set_states(changes)))),
                ),
                _ => None,
            },
            None => None,
        }
    } else {
        Some(here)
    }
}

/// World and session after the selected inventory item was used on
/// `character`, whom the player stands on. The first entry of the
/// character's item-use list for the item decides: it may move the character
/// to another dialog and may consume the item.
pub open spec fn use_object_character(
    data: GameDataView,
    s: GameStateView,
    character: CharacterView,
) -> (GameDataView, GameStateView) {
    match data.inventory_slot(s.inventory_x, s.inventory_y) {
        None => (data, s),
        Some(item) => match character.object_use_for(item.id) {
            None => (data, s.show_game_message(nothing_here_message())),
            Some(rule) => {
                let talked = if rule.set_dialog.len() > 0 {
                    data.set_cell(
                        s.current_map,
                        s.current_player_x,
                        s.current_player_y,
                        Some(MapDataView::Character(character.with_dialog(rule.set_dialog))),
                    )
                } else {
                    data
                };
                (
                    if rule.consume_item {
                        talked.remove_inventory_slot(s.inventory_x, s.inventory_y)
                    } else {
                        talked
                    },
                    s,
                )
            },
        },
    }
}

/// World and session after `item`, taken from the selected inventory slot,
/// was used on the object `target` that the player stands on.
pub open spec fn use_item_on_object(
    data: GameDataView,
    s: GameStateView,
    item: ObjectView,
    target: ObjectView,
) -> (GameDataView, GameStateView) {
    match target.object_use_for(item.id) {
        None => (data, s.show_game_message(failed_message(item.name, target.name))),
        Some(rule) => match apply_object_use(data, s, target, rule.self_action) {
            None => (data, s.show_game_message(failed_message(item.name, target.name))),
            Some(changed) => (
                if rule.consume_item {
                    changed.remove_inventory_slot(s.inventory_x, s.inventory_y)
                } else {
                    changed
                },
                s.show_game_message(used_message(item.name, target.name)),
            ),
        },
    }
}

/// World and session after the player used the selected inventory item on
/// whatever occupies the cell the player stands on.
pub open spec fn use_object(data: GameDataView, s: GameStateView) -> (GameDataView, GameStateView) {
    match data.cell(s.current_map, s.current_player_x, s.current_player_y) {
        Some(MapDataView::Character(character)) => use_object_character(data, s, character),
        None => (data, s.show_game_message(nothing_here_message())),
        Some(MapDataView::Object(target)) => match data.inventory_slot(
            s.inventory_x,
            s.inventory_y,
        ) {
            None => (data, s),
            Some(item) => use_item_on_object(data, s, item, target),
        },
    }
}

pub open spec fn key_start_screen(s: GameStateView, key: Key) -> GameStateView {
    if key == Key::Esc {
        s.ask_exit()
    } else if key == Key::Enter {
        s.show(VisualState::PlayingMap)
    } else {
        s
    }
}

pub open spec fn key_playing_map(data: GameDataView, s: GameStateView, key: Key) -> (
    GameDataView,
    GameStateView,
) {
    if key == Key::Esc {
        (data, s.ask_exit())
    } else if key == Key::Char('M') {
        (data, next_map(data, s))
    } else if key == Key::Char('H') {
        (data, s.show(VisualState::StartScreen))
    } else if key == Key::Up || key == Key::Char('w') {
        (data, step_player(data, s, 0, -1))
    } else if key == Key::Down || key == Key::Char('s') {
        (data, step_player(data, s, 0, 1))
    } else if key == Key::Left || key == Key::Char('a') {
        (data, step_player(data, s, -1, 0))
    } else if key == Key::Right || key == Key::Char('d') {
        (data, step_player(data, s, 1, 0))
    } else if key == Key::Enter {
        handle_interact_key(data, s)
    } else if key == Key::Char('E') || key == Key::Char('e') {
        (data, s.show(VisualState::PlayingInventory))
    } else {
        (data, s)
    }
}

/// The session after the chosen answer of a dialog was confirmed. While the
/// question is whether to leave the game, "Yes" asks the run loop to end and
/// "No" leads back; any other dialog leads where the chosen answer leads.
/// The first answer is selected again afterwards.
pub open spec fn confirm_dialog(s: GameStateView) -> GameStateView {
    let chosen = if s.pre_exit {
        if s.dialog_selected == 1 {
            GameStateView { do_exit: true, ..s }
        } else {
            GameStateView { pre_exit: false, visual_state: s.dialog_return_0, ..s }
        }
    } else {
        GameStateView {
            dialog_result_ready: true,
            visual_state: if s.dialog_selected == 0 {
                s.dialog_return_0
            } else {
                s.dialog_return_1
            },
            ..s
        }
    };
    chosen.select(0)
}

pub open spec fn key_playing_dialog(s: GameStateView, key: Key) -> GameStateView {
    if key == Key::Left {
        if s.dialog_selected == 1 {
            s.select(0)
        } else {
            s
        }
    } else if key == Key::Right {
        if s.dialog_selected == 0 {
            s.select(1)
        } else {
            s
        }
    } else if key == Key::Enter {
        confirm_dialog(s)
    } else if key == Key::Esc {
        GameStateView {
            dialog_result_ready: false,
            visual_state: s.dialog_return_cancel,
            dialog_selected: 0,
            ..s
        }
    } else if key == Key::Char('H') {
        s.show(VisualState::StartScreen)
    } else if key == Key::Char('M') {
        s.show(VisualState::PlayingMap)
    } else {
        s
    }
}

/// Number of columns of the player's inventory.
pub open spec fn inventory_width(data: GameDataView) -> int {
    data.inventory().len() as int
}

/// Number of rows of the player's inventory, taken from its first column.
pub open spec fn inventory_height(data: GameDataView) -> int {
    if data.inventory().len() > 0 {
        data.inventory()[0].len() as int
    } else {
        0
    }
}

/// One step back along an axis of `size` positions, from the first position
/// to the last. Along an axis without positions nothing moves.
pub open spec fn wrap_back(at: int, size: int) -> int {
    if size <= 0 {
        at
    } else if at == 0 {
        size - 1
    } else {
        at - 1
    }
}

/// One step forward along an axis of `size` positions, from the last
/// position to the first. Along an axis without positions nothing moves.
pub open spec fn wrap_forward(at: int, size: int) -> int {
    if size <= 0 {
        at
    } else {
        (at + 1) % size
    }
}

pub open spec fn key_playing_inventory(data: GameDataView, s: GameStateView, key: Key) -> (
    GameDataView,
    GameStateView,
) {
    if key == Key::Left {
        (data, GameStateView { inventory_x: wrap_back(s.inventory_x, inventory_width(data)), ..s })
    } else if key == Key::Right {
        (
            data,
            GameStateView { inventory_x: wrap_forward(s.inventory_x, inventory_width(data)), ..s },
        )
    } else if key == Key::Up {
        (data, GameStateView { inventory_y: wrap_back(s.inventory_y, inventory_height(data)), ..s })
    } else if key == Key::Down {
        (
            data,
            GameStateView { inventory_y: wrap_forward(s.inventory_y, inventory_height(data)), ..s },
        )
    } else if key == Key::Enter {
        use_object(data, s)
    } else if key == Key::Char('H') {
        (data, s.show(VisualState::StartScreen))
    } else if key == Key::Char('m') || key == Key::Esc || key == Key::Char('e') {
        (data, s.show(VisualState::PlayingMap))
    } else {
        (data, s)
    }
}

/// The session after the chosen answer of a conversation was confirmed:
/// `"exit"` leads back to where the conversation was entered from,
/// `"inventory"` opens the inventory, the id of a dialog moves the
/// conversation on, anything else leaves it where it is. The first answer is
/// selected again afterwards.
pub open spec fn follow_option(data: GameDataView, s: GameStateView) -> GameStateView {
    match dialog_by_id(data.dialogs, s.npc_dialog_id) {
        None => s.select(0),
        Some(dialog) => {
            let next = if s.dialog_selected == 0 {
                dialog.option_0.next
            } else {
                dialog.option_1.next
            };
            if next == "exit"@ {
                s.select(0).show(s.dialog_return_cancel)
            } else if next == "inventory"@ {
                s.select(0).show(VisualState::PlayingInventory)
            } else if has_dialog(data.dialogs, next) {
                GameStateView { npc_dialog_id: next, ..s.select(0) }
            } else {
                s.select(0)
            }
        },
    }
}

pub open spec fn key_playing_character_interaction(
    data: GameDataView,
    s: GameStateView,
    key: Key,
) -> GameStateView {
    if key == Key::Left {
        s.select(0)
    } else if key == Key::Right {
        s.select(1)
    } else if key == Key::Enter {
        follow_option(data, s)
    } else if key == Key::Char('H') {
        s.show(VisualState::StartScreen)
    } else if key == Key::Char('m') || key == Key::Esc {
        s.select(0).show(VisualState::PlayingMap)
    } else {
        s
    }
}

/// World and session after `key` was pressed: the screen that is shown
/// decides what the key does.
pub open spec fn handle_key(data: GameDataView, s: GameStateView, key: Key) -> (
    GameDataView,
    GameStateView,
) {
    match s.visual_state {
        VisualState::StartScreen => (data, key_start_screen(s, key)),
        VisualState::PlayingMap => key_playing_map(data, s, key),
        VisualState::PlayingDialog => (data, key_playing_dialog(s, key)),
        VisualState::PlayingInventory => key_playing_inventory(data, s, key),
        VisualState::PlayingCharacterInteraction => (
            data,
            key_playing_character_interaction(data, s, key),
        ),
        VisualState::PlayingCharacterFight => (data, s),
    }
}

/// World and session after the key that waits in the session, if one does,
/// was handled. A key is handled once.
pub open spec fn process_pending_key(data: GameDataView, s: GameStateView) -> (
    GameDataView,
    GameStateView,
) {
    if s.last_character_processed {
        (data, s)
    } else {
        let (changed, moved) = handle_key(data, s, s.last_character_pressed);
        (changed, GameStateView { last_character_processed: true, ..moved })
    }
}

/// What is drawn on the cell the player stands on: the player's icon while
/// the cursor is solid, else the icon of what occupies the cell.
pub open spec fn cursor_glyph(data: GameDataView, s: GameStateView) -> Option<char> {
    if s.cursor_blink {
        match data.info.player {
            Some(player) => Some(player.icon),
            None => None,
        }
    } else {
        match data.cell(s.current_map, s.current_player_x, s.current_player_y) {
            Some(MapDataView::Character(character)) => Some(character.icon),
            Some(MapDataView::Object(object)) => Some(object.icon),
            None => None,
        }
    }
}

} // verus!

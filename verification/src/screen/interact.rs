//! What happens on the map: moving, talking to characters, activating
//! objects, picking them up and going through doors.

use crate::characters::Character;
use crate::maps::MapData;
use crate::objects::{Object, ObjectInteraction};
use crate::screen::Screen;
use crate::screen::rules::{
    activate_each, activate_object, activate_one, can_move, character_interact, collect_object,
    cursor_glyph, handle_interact_key, step_player, travel_through_door,
};
use crate::session::{GameState, GameStateView, VisualState};
use crate::text::{join3, text_is};
use crate::world::GameData;
use vstd::prelude::*;

verus! {

impl Screen {
    /// Asks whether to leave the game.
    pub fn handle_exit_key(&self, game_state: &mut GameState)
        ensures
            final(game_state)@ == old(game_state)@.ask_exit(),
    {
        game_state.dialog_message = "Would you like to exit the game?".to_owned();
        game_state.dialog_option_0 = "No".to_owned();
        game_state.dialog_option_1 = "Yes".to_owned();
        game_state.dialog_return_0 = game_state.visual_state;
        game_state.dialog_return_cancel = game_state.visual_state;
        game_state.visual_state = VisualState::PlayingDialog;
        game_state.pre_exit = true;
    }

    /// Shows `msg` in a dialog that leads back to the screen shown now.
    pub fn show_game_message(&self, game_state: &mut GameState, msg: String)
        ensures
            final(game_state)@ == old(game_state)@.show_game_message(msg@),
    {
        let back = game_state.visual_state;
        game_state.raise_dialog(msg, "Continue", "Close", back);
    }

    /// Whether the player may move `delta_x` cells to the right and
    /// `delta_y` cells down. The session is left as it is.
    pub fn check_move_available(
        &self,
        game_data: &GameData,
        game_state: &mut GameState,
        delta_x: i16,
        delta_y: i16,
    ) -> (available: bool)
        ensures
            available == can_move(game_data@, old(game_state)@, delta_x as int, delta_y as int),
            *final(game_state) == *old(game_state),
    {
        if game_state.current_map >= game_data.maps.len() {
            return false;
        }
        let target_x: i32 = game_state.current_player_x as i32 + delta_x as i32;
        let target_y: i32 = game_state.current_player_y as i32 + delta_y as i32;
        if target_x < 0 || target_y < 0 || target_x > 65535 || target_y > 65535 {
            return false;
        }
        assert(game_data@.maps[game_state.current_map as int]
            == game_data.maps[game_state.current_map as int]@);
        game_data.maps[game_state.current_map].can_enter(target_x as usize, target_y as usize)
    }

    /// Moves the player by `(delta_x, delta_y)` if the move is available.
    pub fn step_player(
        &self,
        game_data: &GameData,
        game_state: &mut GameState,
        delta_x: i16,
        delta_y: i16,
    )
        ensures
            final(game_state)@ == step_player(
                game_data@,
                old(game_state)@,
                delta_x as int,
                delta_y as int,
            ),
    {
        if self.check_move_available(game_data, game_state, delta_x, delta_y) {
            let target_x: i32 = game_state.current_player_x as i32 + delta_x as i32;
            let target_y: i32 = game_state.current_player_y as i32 + delta_y as i32;
            game_state.current_player_x = target_x as u16;
            game_state.current_player_y = target_y as u16;
            game_state.cursor_blink = true;
        }
    }

    /// What to draw on the cell the player stands on. Each call turns the
    /// cursor from solid to hollow or back, so that it blinks from frame to
    /// frame.
    pub fn blink_player_cursor(&self, game_data: &GameData, game_state: &mut GameState) -> (glyph:
        Option<char>)
        ensures
            glyph == cursor_glyph(game_data@, old(game_state)@),
            final(game_state)@ == (GameStateView {
                cursor_blink: !old(game_state)@.cursor_blink,
                ..old(game_state)@
            }),
    {
        let glyph = if game_state.cursor_blink {
            match &game_data.info.player {
                Some(player) => Some(player.icon),
                None => None,
            }
        } else {
            match game_data.cell(
                game_state.current_map,
                game_state.current_player_x as usize,
                game_state.current_player_y as usize,
            ) {
                Some(MapData::Character(character)) => Some(character.icon),
                Some(MapData::Object(object)) => Some(object.icon),
                None => None,
            }
        };
        game_state.cursor_blink = !game_state.cursor_blink;
        glyph
    }

    /// Begins the conversation with `character`.
    pub fn character_interact(&self, game_state: &mut GameState, character: &Character)
        ensures
            final(game_state)@ == character_interact(old(game_state)@, character@),
    {
        game_state.dialog_return_cancel = game_state.visual_state;
        game_state.visual_state = VisualState::PlayingCharacterInteraction;
        game_state.npc_dialog_id = character.dialog_id.clone();
    }

    /// Where the door with id `door_id` leads from the map the player is
    /// on: map, column and row of its other side.
    pub fn get_door_other_side(
        &self,
        game_state: &GameState,
        game_data: &GameData,
        door_id: String,
    ) -> (found: Option<(usize, usize, usize)>)
        ensures
            match found {
                Some((m, c, r)) => game_data@.door_other_side(game_state@.current_map, door_id@)
                    == Some((m as int, c as int, r as int)),
                None => game_data@.door_other_side(game_state@.current_map, door_id@) is None,
            },
    {
        game_data.door_other_side(game_state.current_map, &door_id)
    }

    /// Takes the player to the other side of `door`. Whether the door may
    /// be used has been decided before.
    pub fn travel_through_door(
        &self,
        game_state: &mut GameState,
        game_data: &GameData,
        door: &Object,
    )
        ensures
            final(game_state)@ == travel_through_door(game_data@, old(game_state)@, door@.id),
    {
        match self.get_door_other_side(game_state, game_data, door.id.clone()) {
            Some((m, x, y)) => {
                if x <= 65535 && y <= 65535 {
                    game_state.current_map = m;
                    game_state.current_player_x = x as u16;
                    game_state.current_player_y = y as u16;
                }
            },
            None => {},
        }
    }

    /// Moves `object` from the cell the player stands on into the player's
    /// inventory, and says so; or says that the inventory is full. Returns
    /// whether the object was taken.
    pub fn collect_object(
        &self,
        game_state: &mut GameState,
        game_data: &mut GameData,
        object: &Object,
    ) -> (collected: bool)
        ensures
            (final(game_data)@, final(game_state)@) == collect_object(
                old(game_data)@,
                old(game_state)@,
                object@,
            ),
            collected == old(game_data)@.can_collect(),
    {
        let collected = game_data.collect(
            game_state.current_map,
            game_state.current_player_x as usize,
            game_state.current_player_y as usize,
            object,
        );
        let message = if collected {
            join3("You've found the ", object.name.as_str(), "!\n\nNow, what will you do with it?")
        } else {
            join3("Your inventory is full! You can't carry the ", object.name.as_str(), ".")
        };
        game_state.raise_dialog(message, "Open inventory", "Close", VisualState::PlayingInventory);
        collected
    }

    /// Does what activating `object` does: a collectable object is picked
    /// up; any other object has each of its activations tried in turn.
    pub fn activate_object(
        &self,
        game_state: &mut GameState,
        game_data: &mut GameData,
        object: &Object,
    )
        ensures
            (final(game_data)@, final(game_state)@) == activate_object(
                old(game_data)@,
                old(game_state)@,
                object@,
            ),
    {
        if text_is(&object.category, "collectable") {
            self.collect_object(game_state, game_data, object);
            return;
        }
        let mut i: usize = 0;
        assert(object@.interactions.take(0) =~= Seq::empty());
        while i < object.interactions.len()
            invariant
                i <= object.interactions.len(),
                *game_data == *old(game_data),
                game_state@ == activate_each(
                    game_data@,
                    old(game_state)@,
                    object@,
                    object@.interactions.take(i as int),
                ),
            decreases object.interactions.len() - i,
        {
            proof {
                let all = object@.interactions;
                assert(all.take(i + 1).drop_last() =~= all.take(i as int));
                assert(all.take(i + 1).last() == object.interactions[i as int]@);
            }
            let ghost before = game_state@;
            match &object.interactions[i] {
                ObjectInteraction::ObjectInteractionActivate(activate) => {
                    if !object.prereqs_met(activate.prereqs.as_slice()) {
                        if text_is(&object.category, "door") {
                            game_state.raise_dialog(
                                "The door is locked! Try to find a key.".to_owned(),
                                "Open inventory",
                                "Close",
                                VisualState::PlayingInventory,
                            );
                        }
                    } else if text_is(&activate.category, "travel") {
                        self.travel_through_door(game_state, game_data, object);
                    }
                },
                ObjectInteraction::ObjectInteractionObjectUse(_) => {},
            }
            assert(game_state@ == activate_one(
                game_data@,
                before,
                object@,
                object.interactions[i as int]@,
            ));
            i += 1;
        }
        assert(object@.interactions.take(object.interactions.len() as int)
            =~= object@.interactions);
    }

    /// Interacts with what occupies the cell the player stands on.
    pub fn handle_interact_key(&self, game_state: &mut GameState, game_data: &mut GameData)
        ensures
            (final(game_data)@, final(game_state)@) == handle_interact_key(
                old(game_data)@,
                old(game_state)@,
            ),
    {
        let occupant = match game_data.cell(
            game_state.current_map,
            game_state.current_player_x as usize,
            game_state.current_player_y as usize,
        ) {
            Some(occupant) => occupant.clone(),
            None => {
                return;
            },
        };
        match &occupant {
            MapData::Character(character) => {
                self.character_interact(game_state, character);
            },
            MapData::Object(object) => {
                self.activate_object(game_state, game_data, object);
            },
        }
    }
}

} // verus!

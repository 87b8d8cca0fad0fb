//! Using the selected inventory item on what the player stands on.

use crate::characters::Character;
use crate::maps::MapData;
use crate::objects::Object;
use crate::screen::Screen;
use crate::screen::rules::{apply_object_use, use_item_on_object, use_object, use_object_character};
use crate::session::GameState;
use crate::text::{join5, text_is};
use crate::world::GameData;
use vstd::prelude::*;

verus! {

impl Screen {
    /// Makes the assignments of `changes` to `target`, the object the
    /// player stands on, and for a door also to its other side. Returns
    /// `false`, with nothing changed, for a door whose other side cannot be
    /// found.
    pub fn apply_object_use(
        &self,
        game_state: &GameState,
        game_data: &mut GameData,
        target: &Object,
        changes: &Vec<crate::objects::ObjectState>,
    ) -> (applied: bool)
        ensures
            match apply_object_use(old(game_data)@, game_state@, target@, changes.deep_view()) {
                Some(changed) => applied && final(game_data)@ == changed,
                None => !applied && final(game_data)@ == old(game_data)@,
            },
    {
        let m = game_state.current_map;
        let x = game_state.current_player_x as usize;
        let y = game_state.current_player_y as usize;
        let mut here = target.clone();
        here.set_states(changes);
        if text_is(&target.category, "door") {
            let (door_map, door_x, door_y) = match game_data.door_other_side(m, &target.id) {
                Some(place) => place,
                None => {
                    return false;
                },
            };
            let mut other = match game_data.cell(door_map, door_x, door_y) {
                Some(MapData::Object(other)) => other.clone(),
                _ => {
                    return false;
                },
            };
            other.set_states(changes);
            game_data.set_cell(m, x, y, Some(MapData::Object(here)));
            game_data.set_cell(door_map, door_x, door_y, Some(MapData::Object(other)));
            true
        } else {
            game_data.set_cell(m, x, y, Some(MapData::Object(here)));
            true
        }
    }

    /// Uses the item in the selected inventory slot on `character`, whom
    /// the player stands on.
    pub fn use_object_character(
        &self,
        game_state: &mut GameState,
        game_data: &mut GameData,
        character: &Character,
    )
        ensures
            (final(game_data)@, final(game_state)@) == use_object_character(
                old(game_data)@,
                old(game_state)@,
                character@,
            ),
    {
        let slot_x = game_state.inventory_x;
        let slot_y = game_state.inventory_y;
        let item_id = match game_data.inventory_slot(slot_x, slot_y) {
            Some(item) => item.id.clone(),
            None => {
                return;
            },
        };
        match character.object_use_for(&item_id) {
            None => {
                self.show_game_message(game_state, "You can't use this item here!".to_owned());
            },
            Some(rule) => {
                if !rule.set_dialog.as_str().is_empty() {
                    let mut talked = character.clone();
                    talked.dialog_id = rule.set_dialog.clone();
                    game_data.set_cell(
                        game_state.current_map,
                        game_state.current_player_x as usize,
                        game_state.current_player_y as usize,
                        Some(MapData::Character(talked)),
                    );
                }
                if rule.consume_item {
                    game_data.remove_inventory_slot(slot_x, slot_y);
                }
            },
        }
    }

    /// Uses `item`, a copy of the selected inventory item, on the object
    /// `target` that the player stands on.
    pub fn use_item_on_object(
        &self,
        game_state: &mut GameState,
        game_data: &mut GameData,
        item: &Object,
        target: &Object,
    )
        ensures
            (final(game_data)@, final(game_state)@) == use_item_on_object(
                old(game_data)@,
                old(game_state)@,
                item@,
                target@,
            ),
    {
        let applied = match target.object_use_for(&item.id) {
            None => false,
            Some(rule) => {
                let applied = self.apply_object_use(game_state, game_data, target, &rule.self_action);
                if applied && rule.consume_item {
                    game_data.remove_inventory_slot(game_state.inventory_x, game_state.inventory_y);
                }
                applied
            },
        };
        let message = if applied {
            join5("You used the ", item.name.as_str(), " on the ", target.name.as_str(), "!")
        } else {
            join5(
                "You tried to use the ",
                item.name.as_str(),
                " on the ",
                target.name.as_str(),
                ", but it didn't work!",
            )
        };
        self.show_game_message(game_state, message);
    }

    /// Uses the item in the selected inventory slot on what occupies the
    /// cell the player stands on.
    pub fn use_object(&self, game_state: &mut GameState, game_data: &mut GameData)
        ensures
            (final(game_data)@, final(game_state)@) == use_object(
                old(game_data)@,
                old(game_state)@,
            ),
    {
        let occupant = match game_data.cell(
            game_state.current_map,
            game_state.current_player_x as usize,
            game_state.current_player_y as usize,
        ) {
            Some(occupant) => occupant.clone(),
            None => {
                self.show_game_message(game_state, "You can't use this item here!".to_owned());
                return;
            },
        };
        match &occupant {
            MapData::Character(character) => {
                self.use_object_character(game_state, game_data, character);
            },
            MapData::Object(target) => {
                let item = match game_data.inventory_slot(
                    game_state.inventory_x,
                    game_state.inventory_y,
                ) {
                    Some(item) => item.clone(),
                    None => {
                        return;
                    },
                };
                self.use_item_on_object(game_state, game_data, &item, target);
            },
        }
    }
}

} // verus!

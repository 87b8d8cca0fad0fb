//! The controller: one function per screen that does what a key does
//! there, and the function that picks among them.

use crate::dialogs::find_dialog;
use crate::screen::Screen;
use crate::screen::rules::{
    confirm_dialog, follow_option, handle_key, inventory_height, inventory_width,
    key_playing_character_interaction, key_playing_dialog, key_playing_inventory, key_playing_map,
    key_start_screen, next_map, process_pending_key, wrap_back, wrap_forward,
};
use crate::session::{GameState, Key, VisualState};
use crate::text::text_is;
use crate::world::GameData;
use vstd::arithmetic::div_mod::{lemma_add_mod_noop, lemma_small_mod};
use vstd::prelude::*;

verus! {

/// One step back along an axis of `size` positions.
fn step_back(at: usize, size: usize) -> (to: usize)
    ensures
        to == wrap_back(at as int, size as int),
{
    if size == 0 {
        at
    } else if at == 0 {
        size - 1
    } else {
        at - 1
    }
}

/// One step forward along an axis of `size` positions.
fn step_forward(at: usize, size: usize) -> (to: usize)
    ensures
        to == wrap_forward(at as int, size as int),
{
    if size == 0 {
        at
    } else if size == 1 {
        0
    } else {
        proof {
            lemma_add_mod_noop(at as int, 1, size as int);
            lemma_small_mod(1, size as nat);
        }
        ((at % size) + 1) % size
    }
}

impl Screen {
    /// The start screen: Enter begins the game, Esc asks whether to leave.
    pub fn key_start_screen(&self, game_state: &mut GameState, key: Key)
        ensures
            final(game_state)@ == key_start_screen(old(game_state)@, key),
    {
        match key {
            Key::Esc => {
                self.handle_exit_key(game_state);
            },
            Key::Enter => {
                game_state.visual_state = VisualState::PlayingMap;
            },
            _ => {},
        }
    }

    /// The map: the arrows and W, A, S, D move the player, Enter interacts
    /// with what the player stands on, E opens the inventory, H shows the
    /// start screen, M changes to the next map, Esc asks whether to leave.
    pub fn key_playing_map(&self, game_state: &mut GameState, game_data: &mut GameData, key: Key)
        ensures
            (final(game_data)@, final(game_state)@) == key_playing_map(
                old(game_data)@,
                old(game_state)@,
                key,
            ),
    {
        match key {
            Key::Esc => {
                self.handle_exit_key(game_state);
            },
            Key::Char('M') => {
                if game_state.current_map < usize::MAX && game_state.current_map + 1
                    < game_data.maps.len() {
                    game_state.current_map = game_state.current_map + 1;
                } else {
                    game_state.current_map = 0;
                }
                assert(game_data@.maps.len() == game_data.maps.len());
                assert(game_state@ == next_map(game_data@, old(game_state)@));
            },
            Key::Char('H') => {
                game_state.visual_state = VisualState::StartScreen;
            },
            Key::Up | Key::Char('w') => {
                self.step_player(game_data, game_state, 0, -1);
            },
            Key::Down | Key::Char('s') => {
                self.step_player(game_data, game_state, 0, 1);
            },
            Key::Left | Key::Char('a') => {
                self.step_player(game_data, game_state, -1, 0);
            },
            Key::Right | Key::Char('d') => {
                self.step_player(game_data, game_state, 1, 0);
            },
            Key::Enter => {
                self.handle_interact_key(game_state, game_data);
            },
            Key::Char('E') | Key::Char('e') => {
                game_state.visual_state = VisualState::PlayingInventory;
            },
            _ => {},
        }
    }

    /// A dialog: Left and Right move between the two answers, Enter
    /// confirms the selected one, Esc cancels.
    pub fn key_playing_dialog(&self, game_state: &mut GameState, key: Key)
        ensures
            final(game_state)@ == key_playing_dialog(old(game_state)@, key),
    {
        match key {
            Key::Left => {
                if game_state.dialog_selected == 1 {
                    game_state.dialog_selected = 0;
                }
            },
            Key::Right => {
                if game_state.dialog_selected == 0 {
                    game_state.dialog_selected = 1;
                }
            },
            Key::Enter => {
                if game_state.pre_exit {
                    if game_state.dialog_selected == 1 {
                        game_state.do_exit = true;
                    } else {
                        game_state.pre_exit = false;
                        game_state.visual_state = game_state.dialog_return_0;
                    }
                } else {
                    game_state.dialog_result_ready = true;
                    if game_state.dialog_selected == 0 {
                        game_state.visual_state = game_state.dialog_return_0;
                    } else {
                        game_state.visual_state = game_state.dialog_return_1;
                    }
                }
                game_state.dialog_selected = 0;
                assert(game_state@ == confirm_dialog(old(game_state)@));
            },
            Key::Esc => {
                game_state.dialog_result_ready = false;
                game_state.visual_state = game_state.dialog_return_cancel;
                game_state.dialog_selected = 0;
            },
            Key::Char('H') => {
                game_state.visual_state = VisualState::StartScreen;
            },
            Key::Char('M') => {
                game_state.visual_state = VisualState::PlayingMap;
            },
            _ => {},
        }
    }

    /// The inventory: the arrows move the cursor, which leaves the grid on
    /// one side to enter it on the other; Enter uses the selected item;
    /// Esc, M and E lead back to the map, H to the start screen.
    pub fn key_playing_inventory(
        &self,
        game_state: &mut GameState,
        game_data: &mut GameData,
        key: Key,
    )
        ensures
            (final(game_data)@, final(game_state)@) == key_playing_inventory(
                old(game_data)@,
                old(game_state)@,
                key,
            ),
    {
        let (width, height) = match &game_data.info.player {
            Some(player) => {
                let width = player.inventory.len();
                let height = if width > 0 {
                    assert(player@.inventory[0] == player.inventory[0].deep_view());
                    player.inventory[0].len()
                } else {
                    0
                };
                (width, height)
            },
            None => (0, 0),
        };
        assert(width == inventory_width(game_data@));
        assert(height == inventory_height(game_data@));
        match key {
            Key::Left => {
                game_state.inventory_x = step_back(game_state.inventory_x, width);
            },
            Key::Right => {
                game_state.inventory_x = step_forward(game_state.inventory_x, width);
            },
            Key::Up => {
                game_state.inventory_y = step_back(game_state.inventory_y, height);
            },
            Key::Down => {
                game_state.inventory_y = step_forward(game_state.inventory_y, height);
            },
            Key::Enter => {
                self.use_object(game_state, game_data);
            },
            Key::Char('H') => {
                game_state.visual_state = VisualState::StartScreen;
            },
            Key::Char('m') | Key::Esc | Key::Char('e') => {
                game_state.visual_state = VisualState::PlayingMap;
            },
            _ => {},
        }
    }

    /// Follows the selected answer of the conversation.
    pub fn follow_option(&self, game_state: &mut GameState, game_data: &GameData)
        ensures
            final(game_state)@ == follow_option(game_data@, old(game_state)@),
    {
        let at = find_dialog(&game_data.dialogs, &game_state.npc_dialog_id);
        if at >= game_data.dialogs.len() {
            game_state.dialog_selected = 0;
            return;
        }
        let dialog = &game_data.dialogs[at];
        assert(game_data@.dialogs[at as int] == dialog@);
        let next = if game_state.dialog_selected == 0 {
            &dialog.option_0.next
        } else {
            &dialog.option_1.next
        };
        game_state.dialog_selected = 0;
        if text_is(next, "exit") {
            game_state.visual_state = game_state.dialog_return_cancel;
        } else if text_is(next, "inventory") {
            game_state.visual_state = VisualState::PlayingInventory;
        } else {
            if find_dialog(&game_data.dialogs, next) < game_data.dialogs.len() {
                game_state.npc_dialog_id = next.clone();
            }
        }
    }

    /// A conversation: Left and Right select an answer, Enter follows it,
    /// M and Esc lead back to the map, H to the start screen.
    pub fn key_playing_character_interaction(
        &self,
        game_state: &mut GameState,
        game_data: &GameData,
        key: Key,
    )
        ensures
            final(game_state)@ == key_playing_character_interaction(
                game_data@,
                old(game_state)@,
                key,
            ),
    {
        match key {
            Key::Left => {
                game_state.dialog_selected = 0;
            },
            Key::Right => {
                game_state.dialog_selected = 1;
            },
            Key::Enter => {
                self.follow_option(game_state, game_data);
            },
            Key::Char('H') => {
                game_state.visual_state = VisualState::StartScreen;
            },
            Key::Char('m') | Key::Esc => {
                game_state.dialog_selected = 0;
                game_state.visual_state = VisualState::PlayingMap;
            },
            _ => {},
        }
    }

    /// Does what `key` does on the screen that is shown.
    pub fn handle_key(&self, game_state: &mut GameState, game_data: &mut GameData, key: Key)
        ensures
            (final(game_data)@, final(game_state)@) == handle_key(
                old(game_data)@,
                old(game_state)@,
                key,
            ),
    {
        match game_state.visual_state {
            VisualState::StartScreen => {
                self.key_start_screen(game_state, key);
            },
            VisualState::PlayingMap => {
                self.key_playing_map(game_state, game_data, key);
            },
            VisualState::PlayingDialog => {
                self.key_playing_dialog(game_state, key);
            },
            VisualState::PlayingInventory => {
                self.key_playing_inventory(game_state, game_data, key);
            },
            VisualState::PlayingCharacterInteraction => {
                self.key_playing_character_interaction(game_state, game_data, key);
            },
            VisualState::PlayingCharacterFight => {},
        }
    }

    /// Handles the key that waits in the session, if one does, and marks it
    /// as handled. Returns whether a key was handled.
    pub fn process_pending_key(&self, game_state: &mut GameState, game_data: &mut GameData) -> (handled:
        bool)
        ensures
            (final(game_data)@, final(game_state)@) == process_pending_key(
                old(game_data)@,
                old(game_state)@,
            ),
            handled == !old(game_state)@.last_character_processed,
    {
        if game_state.last_character_processed {
            return false;
        }
        let key = game_state.last_character_pressed;
        self.handle_key(game_state, game_data, key);
        game_state.last_character_processed = true;
        true
    }
}

} // verus!

//! The session of one player: where the player stands, which screen is
//! shown, and what the dialog on it says.

use vstd::prelude::*;

verus! {

/// The screen that is shown, which is also the mode that decides what a
/// key does.
#[derive(Clone, Copy, Debug, PartialEq, Eq, Structural)]
pub enum VisualState {
    StartScreen,
    PlayingMap,
    PlayingDialog,
    PlayingInventory,
    PlayingCharacterInteraction,
    PlayingCharacterFight,
}

/// A key as the controller tells keys apart. Everything that is not a key
/// press, and every key without a meaning of its own, is `Other`.
#[derive(Clone, Copy, Debug, PartialEq, Eq, Structural)]
pub enum Key {
    Enter,
    Esc,
    Up,
    Down,
    Left,
    Right,
    Char(char),
    Other,
}

#[derive(Debug, PartialEq, Eq)]
pub struct GameState {
    pub last_character_pressed: Key,
    pub last_character_processed: bool,
    pub pre_exit: bool,
    pub do_exit: bool,
    pub visual_state: VisualState,
    pub cursor_blink: bool,
    pub current_map: usize,
    pub current_player_x: u16,
    pub current_player_y: u16,
    pub inventory_x: usize,
    pub inventory_y: usize,
    pub npc_dialog_id: String,
    pub dialog_message: String,
    pub dialog_option_0: String,
    pub dialog_option_1: String,
    pub dialog_selected: u8,
    pub dialog_result_ready: bool,
    pub dialog_return_0: VisualState,
    pub dialog_return_1: VisualState,
    pub dialog_return_cancel: VisualState,
}

/// The session as the rules see it: positions and indices as integers,
/// texts as sequences of characters.
pub struct GameStateView {
    pub last_character_pressed: Key,
    pub last_character_processed: bool,
    pub pre_exit: bool,
    pub do_exit: bool,
    pub visual_state: VisualState,
    pub cursor_blink: bool,
    pub current_map: int,
    pub current_player_x: int,
    pub current_player_y: int,
    pub inventory_x: int,
    pub inventory_y: int,
    pub npc_dialog_id: Seq<char>,
    pub dialog_message: Seq<char>,
    pub dialog_option_0: Seq<char>,
    pub dialog_option_1: Seq<char>,
    pub dialog_selected: int,
    pub dialog_result_ready: bool,
    pub dialog_return_0: VisualState,
    pub dialog_return_1: VisualState,
    pub dialog_return_cancel: VisualState,
}

impl DeepView for GameState {
    type V = GameStateView;

    open spec fn deep_view(&self) -> GameStateView {
        GameStateView {
            last_character_pressed: self.last_character_pressed,
            last_character_processed: self.last_character_processed,
            pre_exit: self.pre_exit,
            do_exit: self.do_exit,
            visual_state: self.visual_state,
            cursor_blink: self.cursor_blink,
            current_map: self.current_map as int,
            current_player_x: self.current_player_x as int,
            current_player_y: self.current_player_y as int,
            inventory_x: self.inventory_x as int,
            inventory_y: self.inventory_y as int,
            npc_dialog_id: self.npc_dialog_id@,
            dialog_message: self.dialog_message@,
            dialog_option_0: self.dialog_option_0@,
            dialog_option_1: self.dialog_option_1@,
            dialog_selected: self.dialog_selected as int,
            dialog_result_ready: self.dialog_result_ready,
            dialog_return_0: self.dialog_return_0,
            dialog_return_1: self.dialog_return_1,
            dialog_return_cancel: self.dialog_return_cancel,
        }
    }
}

impl View for GameState {
    type V = GameStateView;

    open spec fn view(&self) -> GameStateView {
        self.deep_view()
    }
}

impl Clone for GameState {
    fn clone(&self) -> (res: Self)
        ensures
            res@ == self@,
    {
        GameState {
            last_character_pressed: self.last_character_pressed,
            last_character_processed: self.last_character_processed,
            pre_exit: self.pre_exit,
            do_exit: self.do_exit,
            visual_state: self.visual_state,
            cursor_blink: self.cursor_blink,
            current_map: self.current_map,
            current_player_x: self.current_player_x,
            current_player_y: self.current_player_y,
            inventory_x: self.inventory_x,
            inventory_y: self.inventory_y,
            npc_dialog_id: self.npc_dialog_id.clone(),
            dialog_message: self.dialog_message.clone(),
            dialog_option_0: self.dialog_option_0.clone(),
            dialog_option_1: self.dialog_option_1.clone(),
            dialog_selected: self.dialog_selected,
            dialog_result_ready: self.dialog_result_ready,
            dialog_return_0: self.dialog_return_0,
            dialog_return_1: self.dialog_return_1,
            dialog_return_cancel: self.dialog_return_cancel,
        }
    }
}

impl GameStateView {
    /// The session of a game that has just begun on map `current_map`, with
    /// the player at `(x, y)`: the start screen is shown, no key waits, no
    /// dialog is open.
    pub open spec fn started(current_map: int, x: int, y: int) -> GameStateView {
        GameStateView {
            last_character_pressed: Key::Enter,
            last_character_processed: true,
            pre_exit: false,
            do_exit: false,
            visual_state: VisualState::StartScreen,
            cursor_blink: true,
            current_map,
            current_player_x: x,
            current_player_y: y,
            inventory_x: 0,
            inventory_y: 0,
            npc_dialog_id: Seq::empty(),
            dialog_message: Seq::empty(),
            dialog_option_0: Seq::empty(),
            dialog_option_1: Seq::empty(),
            dialog_selected: 0,
            dialog_result_ready: false,
            dialog_return_0: VisualState::StartScreen,
            dialog_return_1: VisualState::StartScreen,
            dialog_return_cancel: VisualState::StartScreen,
        }
    }

    /// The session with a dialog raised over the screen that was shown.
    /// Option 0 leads to `return_0`; option 1 and a cancel lead back to the
    /// screen shown before.
    pub open spec fn raise_dialog(
        self,
        message: Seq<char>,
        option_0: Seq<char>,
        option_1: Seq<char>,
        return_0: VisualState,
    ) -> GameStateView {
        GameStateView {
            dialog_message: message,
            dialog_option_0: option_0,
            dialog_option_1: option_1,
            dialog_return_0: return_0,
            dialog_return_1: self.visual_state,
            dialog_return_cancel: self.visual_state,
            pre_exit: false,
            visual_state: VisualState::PlayingDialog,
            ..self
        }
    }

    /// A message with the answers "Continue" and "Close", both of which
    /// lead back to the screen shown before.
    pub open spec fn show_game_message(self, message: Seq<char>) -> GameStateView {
        self.raise_dialog(message, "Continue"@, "Close"@, self.visual_state)
    }

    /// A dialog with the answers "Open inventory" and "Close".
    pub open spec fn offer_inventory(self, message: Seq<char>) -> GameStateView {
        self.raise_dialog(message, "Open inventory"@, "Close"@, VisualState::PlayingInventory)
    }

    /// The question whether to leave the game. "No" and a cancel lead back
    /// to the screen shown before; what "Yes" leads to is decided by
    /// `pre_exit`, not by a screen.
    pub open spec fn ask_exit(self) -> GameStateView {
        GameStateView {
            dialog_message: "Would you like to exit the game?"@,
            dialog_option_0: "No"@,
            dialog_option_1: "Yes"@,
            dialog_return_0: self.visual_state,
            dialog_return_cancel: self.visual_state,
            visual_state: VisualState::PlayingDialog,
            pre_exit: true,
            ..self
        }
    }

    pub open spec fn show(self, screen: VisualState) -> GameStateView {
        GameStateView { visual_state: screen, ..self }
    }

    pub open spec fn select(self, option: int) -> GameStateView {
        GameStateView { dialog_selected: option, ..self }
    }
}

impl GameState {
    /// The session of a game that has just begun.
    pub fn new(current_map: usize, x: u16, y: u16) -> (state: GameState)
        ensures
            state@ == GameStateView::started(current_map as int, x as int, y as int),
    {
        GameState {
            last_character_pressed: Key::Enter,
            last_character_processed: true,
            pre_exit: false,
            do_exit: false,
            visual_state: VisualState::StartScreen,
            cursor_blink: true,
            current_map,
            current_player_x: x,
            current_player_y: y,
            inventory_x: 0,
            inventory_y: 0,
            npc_dialog_id: String::new(),
            dialog_message: String::new(),
            dialog_option_0: String::new(),
            dialog_option_1: String::new(),
            dialog_selected: 0,
            dialog_result_ready: false,
            dialog_return_0: VisualState::StartScreen,
            dialog_return_1: VisualState::StartScreen,
            dialog_return_cancel: VisualState::StartScreen,
        }
    }

    /// Raises a dialog over the screen that is shown.
    pub fn raise_dialog(
        &mut self,
        message: String,
        option_0: &str,
        option_1: &str,
        return_0: VisualState,
    )
        ensures
            final(self)@ == old(self)@.raise_dialog(message@, option_0@, option_1@, return_0),
    {
        self.dialog_message = message;
        self.dialog_option_0 = option_0.to_owned();
        self.dialog_option_1 = option_1.to_owned();
        self.dialog_return_0 = return_0;
        self.dialog_return_1 = self.visual_state;
        self.dialog_return_cancel = self.visual_state;
        self.pre_exit = false;
        self.visual_state = VisualState::PlayingDialog;
    }
}

} // verus!

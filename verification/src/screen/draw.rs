//! One turn of the game: the screen is shown, the key that waits is
//! handled, and the screen is shown again as the key has left it.

use crate::screen::Screen;
use crate::screen::frame::{DrawOp, DrawOpView, FrameView, put_all, put_text};
use crate::screen::rules::process_pending_key;
use crate::screen::scenes::{
    DrawError, blinked, dialog_scene, interaction_scene, inventory_scene, map_scene, start_scene,
};
use crate::session::{GameState, GameStateView, Key, VisualState};
use crate::world::{GameData, GameDataView};
use vstd::prelude::*;

verus! {

/// The frame that shows the screen of the session.
pub open spec fn scene(data: GameDataView, s: GameStateView) -> Result<FrameView, DrawError> {
    match s.visual_state {
        VisualState::StartScreen => start_scene(data),
        VisualState::PlayingMap => map_scene(data, s),
        VisualState::PlayingDialog => dialog_scene(s),
        VisualState::PlayingInventory => inventory_scene(data, s),
        VisualState::PlayingCharacterInteraction => interaction_scene(data, s),
        VisualState::PlayingCharacterFight => Ok(Seq::empty()),
    }
}

/// The session after its screen was shown: showing the map makes the
/// cursor blink, showing any other screen changes nothing.
pub open spec fn shown(s: GameStateView) -> GameStateView {
    if s.visual_state == VisualState::PlayingMap {
        blinked(s)
    } else {
        s
    }
}

/// The words, if any, with which the screen that is shown says where `key`
/// leads.
pub open spec fn notice_text(screen: VisualState, key: Key) -> Option<Seq<char>> {
    let to_start = Some("Changing to start screen"@);
    let to_map = Some("Changing to map view"@);
    match screen {
        VisualState::PlayingMap => if key == Key::Char('H') {
            to_start
        } else if key == Key::Char('E') || key == Key::Char('e') {
            Some("Changing to Inventory"@)
        } else {
            None
        },
        VisualState::PlayingDialog => if key == Key::Char('H') {
            to_start
        } else if key == Key::Char('M') {
            to_map
        } else {
            None
        },
        VisualState::PlayingInventory => if key == Key::Char('H') {
            to_start
        } else if key == Key::Char('m') || key == Key::Esc || key == Key::Char('e') {
            to_map
        } else {
            None
        },
        VisualState::PlayingCharacterInteraction => if key == Key::Char('H') {
            to_start
        } else if key == Key::Char('m') || key == Key::Esc {
            to_map
        } else {
            None
        },
        _ => None,
    }
}

/// What is printed while a key is handled: where the key leads, for the
/// keys that change the screen.
pub open spec fn notice(screen: VisualState, key: Key) -> FrameView {
    match notice_text(screen, key) {
        Some(text) => seq![DrawOpView::Text { col: 10, row: 11, text }],
        None => Seq::empty(),
    }
}

/// World, session and frame after one turn. The screen is shown as it is.
/// If a key waits, it is handled, and the screen is shown a second time, as
/// the key has left it, over what was shown before. A screen that cannot be
/// shown ends the turn where it is.
pub open spec fn turn(data: GameDataView, s: GameStateView) -> (
    GameDataView,
    GameStateView,
    Result<FrameView, DrawError>,
) {
    match scene(data, s) {
        Err(error) => (data, s, Err(error)),
        Ok(first) => {
            let seen = shown(s);
            if seen.last_character_processed {
                (data, seen, Ok(first))
            } else {
                let said = notice(seen.visual_state, seen.last_character_pressed);
                let (changed, moved) = process_pending_key(data, seen);
                match scene(changed, moved) {
                    Err(error) => (changed, moved, Err(error)),
                    Ok(second) => (changed, shown(moved), Ok(first + said + second)),
                }
            }
        },
    }
}

impl Screen {
    /// The frame that shows the screen of the session.
    pub fn draw_scene(&self, game_data: &GameData, game_state: &mut GameState) -> (drawn: Result<
        Vec<DrawOp>,
        DrawError,
    >)
        ensures
            match scene(game_data@, old(game_state)@) {
                Ok(frame) => drawn is Ok && drawn->Ok_0.deep_view() == frame && final(game_state)@
                    == shown(old(game_state)@),
                Err(error) => drawn == Err::<Vec<DrawOp>, DrawError>(error) && final(game_state)@
                    == old(game_state)@,
            },
    {
        match game_state.visual_state {
            VisualState::StartScreen => self.draw_start_screen(game_data),
            VisualState::PlayingMap => self.draw_playing_map(game_data, game_state),
            VisualState::PlayingDialog => self.draw_playing_dialog(game_state),
            VisualState::PlayingInventory => self.draw_playing_inventory(game_data, game_state),
            VisualState::PlayingCharacterInteraction => {
                self.draw_playing_character_interaction(game_data, game_state)
            },
            VisualState::PlayingCharacterFight => self.draw_playing_character_fight(),
        }
    }

    /// Adds to the frame the words with which the screen says where `key`
    /// leads.
    fn draw_notice(&self, frame: &mut Vec<DrawOp>, screen: VisualState, key: Key)
        ensures
            final(frame).deep_view() == old(frame).deep_view() + notice(screen, key),
    {
        let text = match screen {
            VisualState::PlayingMap => match key {
                Key::Char('H') => Some("Changing to start screen"),
                Key::Char('E') | Key::Char('e') => Some("Changing to Inventory"),
                _ => None,
            },
            VisualState::PlayingDialog => match key {
                Key::Char('H') => Some("Changing to start screen"),
                Key::Char('M') => Some("Changing to map view"),
                _ => None,
            },
            VisualState::PlayingInventory => match key {
                Key::Char('H') => Some("Changing to start screen"),
                Key::Char('m') | Key::Esc | Key::Char('e') => Some("Changing to map view"),
                _ => None,
            },
            VisualState::PlayingCharacterInteraction => match key {
                Key::Char('H') => Some("Changing to start screen"),
                Key::Char('m') | Key::Esc => Some("Changing to map view"),
                _ => None,
            },
            _ => None,
        };
        match text {
            Some(text) => {
                put_text(frame, 10, 11, text.to_owned());
                assert(frame.deep_view() =~= old(frame).deep_view() + notice(screen, key));
            },
            None => {
                assert(frame.deep_view() =~= old(frame).deep_view() + notice(screen, key));
            },
        }
    }

    /// Takes one turn of the game: shows the screen, handles the key that
    /// waits in the session, if one does, and shows the screen again as the
    /// key has left it. Returns what to print, in order.
    pub fn draw(&self, game_data: &mut GameData, game_state: &mut GameState) -> (drawn: Result<
        Vec<DrawOp>,
        DrawError,
    >)
        ensures
            final(game_data)@ == turn(old(game_data)@, old(game_state)@).0,
            final(game_state)@ == turn(old(game_data)@, old(game_state)@).1,
            match turn(old(game_data)@, old(game_state)@).2 {
                Ok(frame) => drawn is Ok && drawn->Ok_0.deep_view() == frame,
                Err(error) => drawn == Err::<Vec<DrawOp>, DrawError>(error),
            },
    {
        let mut frame = match self.draw_scene(game_data, game_state) {
            Ok(frame) => frame,
            Err(error) => {
                return Err(error);
            },
        };
        if game_state.last_character_processed {
            return Ok(frame);
        }
        self.draw_notice(&mut frame, game_state.visual_state, game_state.last_character_pressed);
        self.process_pending_key(game_state, game_data);
        match self.draw_scene(game_data, game_state) {
            Ok(second) => {
                put_all(&mut frame, second);
                Ok(frame)
            },
            Err(error) => Err(error),
        }
    }
}

} // verus!

//! The five screens of the game, each as the frame that shows it.

use crate::dialogs::{dialog_by_id, find_dialog};
use crate::maps::{GameMap, GridView, MapData, MapDataView};
use crate::screen::frame::{
    DrawOp, DrawOpView, FrameView, border, byte_len, centered_lines, plain_lines, put_all,
    put_glyph, put_text, repeat_text, repeated,
};
use crate::screen::pieces::{face, item_grid, item_grid_fits, stat_display, text_box};
use crate::screen::rules::cursor_glyph;
use crate::screen::wrap::{wrap_text, wrapped_lines};
use crate::screen::{Screen, centered_start};
use crate::session::{GameState, GameStateView};
use crate::text::join3;
use crate::world::{GameData, GameDataView};
use vstd::prelude::*;
use vstd::string::StringExecFns;

verus! {

/// Why a screen cannot be shown.
#[derive(Clone, Copy, Debug, PartialEq, Eq, Structural)]
pub enum DrawError {
    /// The session is on a map that the world does not have.
    NoMap,
    /// The map has no columns.
    EmptyMap,
    /// The world has no player.
    NoPlayer,
    /// The conversation is at a dialog that does not exist.
    NoDialog,
    /// The player is in a conversation but stands on an empty cell.
    NobodyThere,
    /// Part of the screen would lie at coordinates no terminal has.
    TooLarge,
}

/// The text of the start screen: the game, its author, its description,
/// and how to play.
pub open spec fn start_lines(
    name: Seq<char>,
    author: Seq<char>,
    description: Seq<Seq<char>>,
) -> Seq<Seq<char>> {
    seq![
        "Welcome to "@ + name,
        "Written by "@ + author,
        "Powered by the Radiance Platform"@,
        ""@,
    ] + description + seq![
        ""@,
        "Controls:"@,
        "Use WASD or the Arrow Keys to move around the world."@,
        "Use Enter to interact with objects in the world."@,
        "Use E to open your inventory, WASD/Arrows"@,
        "to move within, and Enter to select items."@,
        "Press Enter to select options within dialog boxes."@,
        ""@,
        ""@,
        "Press Enter to start the game."@,
    ]
}

/// The start screen.
pub open spec fn start_scene(data: GameDataView) -> Result<FrameView, DrawError> {
    let lines = start_lines(
        data.info.name,
        data.info.author,
        wrapped_lines(data.info.description, 68),
    );
    if lines.len() + 10 > u16::MAX {
        Err(DrawError::TooLarge)
    } else {
        Ok(
            border(0, 0, 80, 20) + centered_lines(
                lines,
                0,
                80,
                centered_start(lines.len() as int, 20),
            ),
        )
    }
}

pub open spec fn icon_of(occupant: MapDataView) -> char {
    match occupant {
        MapDataView::Character(character) => character.icon,
        MapDataView::Object(object) => object.icon,
    }
}

/// The icons of what occupies the first `n` cells of column `c` of a map.
pub open spec fn cell_glyphs(cells: Seq<Option<MapDataView>>, c: int, n: int) -> FrameView
    decreases n,
{
    if n <= 0 {
        Seq::empty()
    } else {
        cell_glyphs(cells, c, n - 1) + (match cells[n - 1] {
            Some(occupant) => seq![
                DrawOpView::Glyph { col: 8 + c, row: 6 + n - 1, icon: icon_of(occupant) },
            ],
            None => Seq::empty(),
        })
    }
}

/// The icons of what occupies the first `n` columns of a map.
pub open spec fn grid_glyphs(grid: GridView, n: int) -> FrameView
    decreases n,
{
    if n <= 0 {
        Seq::empty()
    } else {
        grid_glyphs(grid, n - 1) + cell_glyphs(grid[n - 1], n - 1, grid[n - 1].len() as int)
    }
}

/// Whether the room and the player lie at coordinates a terminal can
/// hold.
pub open spec fn room_fits(grid: GridView, s: GameStateView) -> bool {
    &&& grid.len() + 8 <= u16::MAX
    &&& forall|c: int| 0 <= c < grid.len() ==> (#[trigger] grid[c]).len() + 6 <= u16::MAX
    &&& s.current_player_x + 8 <= u16::MAX
    &&& s.current_player_y + 6 <= u16::MAX
}

/// The player, or what the player stands on, as the cursor shows it.
pub open spec fn cursor(data: GameDataView, s: GameStateView) -> FrameView {
    match cursor_glyph(data, s) {
        Some(icon) => seq![
            DrawOpView::Glyph {
                col: 8 + s.current_player_x,
                row: 6 + s.current_player_y,
                icon,
            },
        ],
        None => Seq::empty(),
    }
}

/// The map: its description in a box at the top, the room with what
/// occupies it, and the cursor.
pub open spec fn map_scene(data: GameDataView, s: GameStateView) -> Result<FrameView, DrawError> {
    if !(0 <= s.current_map < data.maps.len()) {
        Err(DrawError::NoMap)
    } else {
        let map = data.maps[s.current_map];
        let description = wrapped_lines(map.info.description, 76);
        if description.len() + 2 > u16::MAX {
            Err(DrawError::TooLarge)
        } else if map.grid.len() == 0 {
            Err(DrawError::EmptyMap)
        } else if !room_fits(map.grid, s) {
            Err(DrawError::TooLarge)
        } else {
            Ok(
                border(0, 0, 80, 20) + border(0, 0, 80, 2 + description.len() as int) + plain_lines(
                    description,
                    2,
                    1,
                ) + border(8, 6, map.grid.len() as int, map.grid[0].len() as int) + grid_glyphs(
                    map.grid,
                    map.grid.len() as int,
                ) + cursor(data, s),
            )
        }
    }
}

/// The session after the map was shown: the cursor has turned from solid
/// to hollow or back.
pub open spec fn blinked(s: GameStateView) -> GameStateView {
    GameStateView { cursor_blink: !s.cursor_blink, ..s }
}

/// A dialog: a box with the message, and beneath it the two answers, the
/// selected one marked.
pub open spec fn dialog_scene(s: GameStateView) -> Result<FrameView, DrawError> {
    let message = wrapped_lines(s.dialog_message, 46);
    if message.len() > 18 {
        Err(DrawError::TooLarge)
    } else {
        Ok(
            border(15, 4, 50, 12) + border(15, 13, 50, 3) + border(15, 13, 25, 3) + centered_lines(
                message,
                0,
                80,
                centered_start(message.len() as int, 20) - 1,
            ) + seq![
                if s.dialog_selected == 0 {
                    DrawOpView::Text { col: 16, row: 14, text: repeated("="@, 23) }
                } else {
                    DrawOpView::Text { col: 40, row: 14, text: repeated("="@, 24) }
                },
                DrawOpView::Text {
                    col: 15 + centered_start(byte_len(s.dialog_option_0), 25),
                    row: 14,
                    text: s.dialog_option_0,
                },
                DrawOpView::Text {
                    col: 40 + centered_start(byte_len(s.dialog_option_1), 25),
                    row: 14,
                    text: s.dialog_option_1,
                },
            ],
        )
    }
}

/// The inventory: the player and the attributes of the player on the
/// left, the boxes of the inventory on the right.
pub open spec fn inventory_scene(data: GameDataView, s: GameStateView) -> Result<
    FrameView,
    DrawError,
> {
    match data.info.player {
        None => Err(DrawError::NoPlayer),
        Some(player) => if !(player.attributes.len() + 13 <= u16::MAX && item_grid_fits(
            player.inventory,
            28,
            0,
        )) {
            Err(DrawError::TooLarge)
        } else {
            Ok(
                border(0, 0, 80, 20) + face(5, 2, player) + stat_display(player.attributes, 2, 13)
                    + item_grid(player.inventory, 28, 0, s.inventory_x, s.inventory_y),
            )
        },
    }
}

/// The face of whoever the player talks to; an object has no face.
pub open spec fn other_face(occupant: MapDataView) -> FrameView {
    match occupant {
        MapDataView::Character(character) => face(51, 2, character),
        MapDataView::Object(_) => Seq::empty(),
    }
}

/// A conversation: the player on the left with the two answers beneath,
/// the selected one marked; on the right the other character with what it
/// says beneath.
pub open spec fn interaction_scene(data: GameDataView, s: GameStateView) -> Result<
    FrameView,
    DrawError,
> {
    match dialog_by_id(data.dialogs, s.npc_dialog_id) {
        None => Err(DrawError::NoDialog),
        Some(dialog) => {
            let first = wrapped_lines(dialog.option_0.dialog, 16);
            let second = wrapped_lines(dialog.option_1.dialog, 18);
            let said = wrapped_lines(dialog.npc_dialog, 36);
            if !(first.len() + 20 <= u16::MAX && second.len() + 20 <= u16::MAX && said.len() + 20
                <= u16::MAX) {
                Err(DrawError::TooLarge)
            } else {
                match data.info.player {
                    None => Err(DrawError::NoPlayer),
                    Some(player) => match data.cell(
                        s.current_map,
                        s.current_player_x,
                        s.current_player_y,
                    ) {
                        None => Err(DrawError::NobodyThere),
                        Some(occupant) => Ok(
                            border(0, 0, 80, 20) + border(40, 0, 40, 20) + text_box(
                                0,
                                12,
                                20,
                                8,
                                first,
                                s.dialog_selected == 0,
                            ) + text_box(19, 12, 22, 8, second, s.dialog_selected == 1) + text_box(
                                40,
                                12,
                                40,
                                8,
                                said,
                                false,
                            ) + seq![
                                DrawOpView::Text {
                                    col: 41,
                                    row: 12,
                                    text: repeated(" "@, 38) + "|"@,
                                },
                            ] + face(11, 2, player) + other_face(occupant),
                        ),
                    },
                }
            }
        },
    }
}

impl Screen {
    /// The start screen.
    pub fn draw_start_screen(&self, game_data: &GameData) -> (drawn: Result<Vec<DrawOp>, DrawError>)
        ensures
            match start_scene(game_data@) {
                Ok(frame) => drawn is Ok && drawn->Ok_0.deep_view() == frame,
                Err(error) => drawn == Err::<Vec<DrawOp>, DrawError>(error),
            },
    {
        let mut description = wrap_text(game_data.info.description.as_str(), 68);
        let ghost wrapped = description.deep_view();
        let mut lines: Vec<String> = Vec::new();
        lines.push(join3("Welcome to ", game_data.info.name.as_str(), ""));
        lines.push(join3("Written by ", game_data.info.author.as_str(), ""));
        lines.push("Powered by the Radiance Platform".to_owned());
        lines.push("".to_owned());
        lines.append(&mut description);
        lines.push("".to_owned());
        lines.push("Controls:".to_owned());
        lines.push("Use WASD or the Arrow Keys to move around the world.".to_owned());
        lines.push("Use Enter to interact with objects in the world.".to_owned());
        lines.push("Use E to open your inventory, WASD/Arrows".to_owned());
        lines.push("to move within, and Enter to select items.".to_owned());
        lines.push("Press Enter to select options within dialog boxes.".to_owned());
        lines.push("".to_owned());
        lines.push("".to_owned());
        lines.push("Press Enter to start the game.".to_owned());
        proof {
            reveal_strlit("");
            assert("Welcome to "@ + game_data@.info.name + ""@ =~= "Welcome to "@
                + game_data@.info.name);
            assert("Written by "@ + game_data@.info.author + ""@ =~= "Written by "@
                + game_data@.info.author);
            assert(lines.deep_view() =~= start_lines(
                game_data@.info.name,
                game_data@.info.author,
                wrapped,
            ));
        }
        if lines.len() > 65525 {
            return Err(DrawError::TooLarge);
        }
        let mut frame = self.draw_border(0, 0, 80, 20);
        let row0 = self.vertically_center_start_position(lines.len() as u16, 20);
        let text = self.draw_centered_lines(&lines, 0, 80, row0);
        put_all(&mut frame, text);
        Ok(frame)
    }

    /// The icons of what occupies a map.
    fn draw_occupants(&self, map: &GameMap) -> (frame: Vec<DrawOp>)
        requires
            map@.grid.len() + 8 <= u16::MAX,
            forall|c: int| 0 <= c < map@.grid.len() ==> (#[trigger] map@.grid[c]).len() + 6 <= u16::MAX,
        ensures
            frame.deep_view() == grid_glyphs(map@.grid, map@.grid.len() as int),
    {
        let mut frame: Vec<DrawOp> = Vec::new();
        let ghost grid = map@.grid;
        let mut c: usize = 0;
        while c < map.grid.len()
            invariant
                c <= map.grid.len(),
                grid == map@.grid,
                grid.len() == map.grid.len(),
                grid.len() + 8 <= u16::MAX,
                forall|k: int| 0 <= k < grid.len() ==> (#[trigger] grid[k]).len() + 6 <= u16::MAX,
                frame.deep_view() == grid_glyphs(grid, c as int),
            decreases map.grid.len() - c,
        {
            let ghost before = frame.deep_view();
            assert(grid[c as int] == map.grid[c as int].deep_view());
            let mut r: usize = 0;
            while r < map.grid[c].len()
                invariant
                    c < map.grid.len(),
                    r <= map.grid[c as int].len(),
                    grid == map@.grid,
                    grid[c as int] == map.grid[c as int].deep_view(),
                    grid.len() + 8 <= u16::MAX,
                    grid[c as int].len() + 6 <= u16::MAX,
                    frame.deep_view() == before + cell_glyphs(grid[c as int], c as int, r as int),
                decreases map.grid[c as int].len() - r,
            {
                assert(grid[c as int][r as int] == map.grid[c as int][r as int].deep_view());
                match &map.grid[c][r] {
                    Some(MapData::Character(character)) => {
                        put_glyph(&mut frame, 8 + c as u16, 6 + r as u16, character.icon);
                    },
                    Some(MapData::Object(object)) => {
                        put_glyph(&mut frame, 8 + c as u16, 6 + r as u16, object.icon);
                    },
                    None => {},
                }
                assert(frame.deep_view() =~= before + cell_glyphs(
                    grid[c as int],
                    c as int,
                    r + 1,
                ));
                r += 1;
            }
            c += 1;
        }
        frame
    }

    /// The map. Showing it turns the cursor from solid to hollow or back.
    pub fn draw_playing_map(&self, game_data: &GameData, game_state: &mut GameState) -> (drawn:
        Result<Vec<DrawOp>, DrawError>)
        ensures
            match map_scene(game_data@, old(game_state)@) {
                Ok(frame) => drawn is Ok && drawn->Ok_0.deep_view() == frame && final(game_state)@
                    == blinked(old(game_state)@),
                Err(error) => drawn == Err::<Vec<DrawOp>, DrawError>(error) && final(game_state)@
                    == old(game_state)@,
            },
    {
        if game_state.current_map >= game_data.maps.len() {
            return Err(DrawError::NoMap);
        }
        let map = &game_data.maps[game_state.current_map];
        assert(game_data@.maps[game_state.current_map as int] == map@);
        let description = wrap_text(map.info.description.as_str(), 76);
        if description.len() > 65533 {
            return Err(DrawError::TooLarge);
        }
        if map.grid.len() == 0 {
            return Err(DrawError::EmptyMap);
        }
        if !self.room_fits(map, game_state) {
            return Err(DrawError::TooLarge);
        }
        let mut frame = self.draw_border(0, 0, 80, 20);
        put_all(&mut frame, self.draw_border(0, 0, 80, 2 + description.len() as u16));
        put_all(&mut frame, self.draw_plain_lines(&description, 2, 1));
        assert(map@.grid[0] == map.grid[0].deep_view());
        put_all(
            &mut frame,
            self.draw_border(8, 6, map.grid.len() as u16, map.grid[0].len() as u16),
        );
        put_all(&mut frame, self.draw_occupants(map));
        let x = game_state.current_player_x;
        let y = game_state.current_player_y;
        match self.blink_player_cursor(game_data, game_state) {
            Some(icon) => {
                put_glyph(&mut frame, 8 + x, 6 + y, icon);
            },
            None => {
                assert(frame.deep_view() + Seq::<DrawOpView>::empty() =~= frame.deep_view());
            },
        }
        Ok(frame)
    }

    /// Whether the room and the player lie at coordinates a terminal can
    /// hold.
    fn room_fits(&self, map: &GameMap, game_state: &GameState) -> (fits: bool)
        ensures
            fits == room_fits(map@.grid, game_state@),
    {
        if map.grid.len() > 65527 || game_state.current_player_x > 65527
            || game_state.current_player_y > 65529 {
            return false;
        }
        let mut c: usize = 0;
        while c < map.grid.len()
            invariant
                c <= map.grid.len(),
                forall|k: int| 0 <= k < c ==> (#[trigger] map@.grid[k]).len() + 6 <= u16::MAX,
            decreases map.grid.len() - c,
        {
            assert(map@.grid[c as int] == map.grid[c as int].deep_view());
            if map.grid[c].len() > 65529 {
                return false;
            }
            c += 1;
        }
        true
    }

    /// A dialog.
    pub fn draw_playing_dialog(&self, game_state: &GameState) -> (drawn: Result<
        Vec<DrawOp>,
        DrawError,
    >)
        ensures
            match dialog_scene(game_state@) {
                Ok(frame) => drawn is Ok && drawn->Ok_0.deep_view() == frame,
                Err(error) => drawn == Err::<Vec<DrawOp>, DrawError>(error),
            },
    {
        let message = wrap_text(game_state.dialog_message.as_str(), 46);
        if message.len() > 18 {
            return Err(DrawError::TooLarge);
        }
        let mut frame = self.draw_border(15, 4, 50, 12);
        put_all(&mut frame, self.draw_border(15, 13, 50, 3));
        put_all(&mut frame, self.draw_border(15, 13, 25, 3));
        let vertical_start = self.vertically_center_start_position(message.len() as u16, 20);
        put_all(&mut frame, self.draw_centered_lines(&message, 0, 80, vertical_start - 1));
        if game_state.dialog_selected == 0 {
            put_text(&mut frame, 16, 14, repeat_text("=", 23));
        } else {
            put_text(&mut frame, 40, 14, repeat_text("=", 24));
        }
        let center_0 = 15 + self.horizontally_center_start_position(
            game_state.dialog_option_0.as_str(),
            25,
        );
        let center_1 = 40 + self.horizontally_center_start_position(
            game_state.dialog_option_1.as_str(),
            25,
        );
        put_text(&mut frame, center_0, 14, game_state.dialog_option_0.clone());
        put_text(&mut frame, center_1, 14, game_state.dialog_option_1.clone());
        assert(frame.deep_view() =~= dialog_scene(game_state@)->Ok_0);
        Ok(frame)
    }

    /// Whether every box of the inventory lies at coordinates a terminal
    /// can hold.
    fn item_grid_fits(&self, items: &Vec<Vec<Option<crate::objects::Object>>>) -> (fits: bool)
        ensures
            fits == item_grid_fits(items.deep_view(), 28, 0),
    {
        if items.len() > 3853 {
            return false;
        }
        let mut c: usize = 0;
        while c < items.len()
            invariant
                c <= items.len(),
                forall|k: int|
                    0 <= k < c ==> 6 * (#[trigger] items.deep_view()[k]).len() + 2 <= u16::MAX,
            decreases items.len() - c,
        {
            assert(items.deep_view()[c as int] == items[c as int].deep_view());
            if items[c].len() > 10922 {
                return false;
            }
            c += 1;
        }
        true
    }

    /// The inventory.
    pub fn draw_playing_inventory(&self, game_data: &GameData, game_state: &GameState) -> (drawn:
        Result<Vec<DrawOp>, DrawError>)
        ensures
            match inventory_scene(game_data@, game_state@) {
                Ok(frame) => drawn is Ok && drawn->Ok_0.deep_view() == frame,
                Err(error) => drawn == Err::<Vec<DrawOp>, DrawError>(error),
            },
    {
        let player = match &game_data.info.player {
            Some(player) => player,
            None => {
                return Err(DrawError::NoPlayer);
            },
        };
        if player.attributes.len() > 65522 || !self.item_grid_fits(&player.inventory) {
            return Err(DrawError::TooLarge);
        }
        let mut frame = self.draw_border(0, 0, 80, 20);
        put_all(&mut frame, self.draw_face(5, 2, player));
        put_all(&mut frame, self.draw_stat_display(&player.attributes, 2, 13));
        put_all(
            &mut frame,
            self.draw_item_grid(
                &player.inventory,
                28,
                0,
                game_state.inventory_x,
                game_state.inventory_y,
            ),
        );
        Ok(frame)
    }

    /// A conversation.
    pub fn draw_playing_character_interaction(
        &self,
        game_data: &GameData,
        game_state: &GameState,
    ) -> (drawn: Result<Vec<DrawOp>, DrawError>)
        ensures
            match interaction_scene(game_data@, game_state@) {
                Ok(frame) => drawn is Ok && drawn->Ok_0.deep_view() == frame,
                Err(error) => drawn == Err::<Vec<DrawOp>, DrawError>(error),
            },
    {
        let at = find_dialog(&game_data.dialogs, &game_state.npc_dialog_id);
        if at >= game_data.dialogs.len() {
            return Err(DrawError::NoDialog);
        }
        let dialog = &game_data.dialogs[at];
        assert(game_data@.dialogs[at as int] == dialog@);
        let first = wrap_text(dialog.option_0.dialog.as_str(), 16);
        let second = wrap_text(dialog.option_1.dialog.as_str(), 18);
        let said = wrap_text(dialog.npc_dialog.as_str(), 36);
        if first.len() > 65515 || second.len() > 65515 || said.len() > 65515 {
            return Err(DrawError::TooLarge);
        }
        let player = match &game_data.info.player {
            Some(player) => player,
            None => {
                return Err(DrawError::NoPlayer);
            },
        };
        let occupant = match game_data.cell(
            game_state.current_map,
            game_state.current_player_x as usize,
            game_state.current_player_y as usize,
        ) {
            Some(occupant) => occupant,
            None => {
                return Err(DrawError::NobodyThere);
            },
        };
        let mut frame = self.draw_border(0, 0, 80, 20);
        put_all(&mut frame, self.draw_border(40, 0, 40, 20));
        put_all(
            &mut frame,
            self.draw_text_box(0, 12, 20, 8, &first, game_state.dialog_selected == 0),
        );
        put_all(
            &mut frame,
            self.draw_text_box(19, 12, 22, 8, &second, game_state.dialog_selected == 1),
        );
        put_all(&mut frame, self.draw_text_box(40, 12, 40, 8, &said, false));
        let mut cover = repeat_text(" ", 38);
        cover.append("|");
        put_text(&mut frame, 41, 12, cover);
        put_all(&mut frame, self.draw_face(11, 2, player));
        match occupant {
            MapData::Character(character) => {
                put_all(&mut frame, self.draw_face(51, 2, character));
            },
            MapData::Object(_) => {
                assert(frame.deep_view() + Seq::<DrawOpView>::empty() =~= frame.deep_view());
            },
        }
        Ok(frame)
    }

    /// A fight, of which nothing is shown yet.
    pub fn draw_playing_character_fight(&self) -> (drawn: Result<Vec<DrawOp>, DrawError>)
        ensures
            drawn is Ok,
            drawn->Ok_0.deep_view() == Seq::<DrawOpView>::empty(),
    {
        let frame: Vec<DrawOp> = Vec::new();
        assert(frame.deep_view() =~= Seq::<DrawOpView>::empty());
        Ok(frame)
    }
}

} // verus!

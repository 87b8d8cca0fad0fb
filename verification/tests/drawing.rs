use radiance::characters::{Attribute, Character, Interactions};
use radiance::dialogs::{Dialog, DialogOption};
use radiance::maps::{GameMap, MapData, MapInfo, Size};
use radiance::objects::Object;
use radiance::screen::frame::{decimal_text, repeat_text, DrawOp};
use radiance::screen::scenes::DrawError;
use radiance::screen::Screen;
use radiance::session::{GameState, Key, VisualState};
use radiance::world::{GameData, GameInfo};

fn text(col: u16, row: u16, text: &str) -> DrawOp {
    DrawOp::Text { col, row, text: text.to_string() }
}

fn glyph(col: u16, row: u16, icon: char) -> DrawOp {
    DrawOp::Glyph { col, row, icon }
}

fn screen() -> Screen {
    Screen::new(100, 30)
}

fn thing(id: &str, name: &str, category: &str, icon: char) -> Object {
    Object {
        id: id.to_string(),
        name: name.to_string(),
        category: category.to_string(),
        icon,
        state: vec![],
        interactions: vec![],
    }
}

fn person(id: &str, name: &str, icon: char, columns: usize, rows: usize) -> Character {
    Character {
        id: id.to_string(),
        name: name.to_string(),
        attributes: vec![],
        inventory: (0..columns).map(|_| (0..rows).map(|_| None).collect()).collect(),
        icon,
        interactions: Interactions { attacks: vec![], object_use: vec![] },
        dialog_id: "hello".to_string(),
    }
}

fn world() -> GameData {
    let mut hall = GameMap {
        info: MapInfo {
            id: "hall".to_string(),
            description: "A hall.".to_string(),
            size: Size { width: 4, height: 3 },
        },
        grid: (0..4).map(|_| (0..3).map(|_| None).collect()).collect(),
    };
    hall.grid[1][1] = Some(MapData::Character(person("cat", "Cat", 'c', 0, 0)));
    hall.grid[0][2] = Some(MapData::Object(thing("door", "door", "door", '#')));
    hall.grid[3][0] = Some(MapData::Object(thing("rock", "rock", "collidable", 'o')));
    GameData {
        maps: vec![hall],
        dialogs: vec![Dialog {
            id: "hello".to_string(),
            npc_dialog: "Meow".to_string(),
            option_0: DialogOption { dialog: "Hi".to_string(), next: "exit".to_string() },
            option_1: DialogOption { dialog: "Shoo".to_string(), next: "exit".to_string() },
        }],
        info: GameInfo {
            name: "Castle".to_string(),
            description: "Dark.".to_string(),
            author: "Ada".to_string(),
            min_screen_cols: 80,
            min_screen_rows: 20,
            starting_map: "hall".to_string(),
            starting_position_x: 1,
            starting_position_y: 1,
            player: Some(person("player", "Hero", '@', 1, 1)),
        },
    }
}

fn box_80_by_20() -> Vec<DrawOp> {
    screen().draw_border(0, 0, 80, 20)
}

#[test]
fn border_has_corners_sides_and_blanks() {
    let s = screen();
    assert_eq!(s.draw_border(3, 5, 4, 3), vec![text(3, 5, "+--+"), text(3, 6, "|  |"), text(3, 7, "+--+")]);
    assert_eq!(s.draw_border(0, 0, 1, 3), vec![text(0, 0, "+"), text(0, 1, "|"), text(0, 2, "+")]);
    assert_eq!(s.draw_border(0, 9, 2, 1), vec![text(0, 9, "++")]);
    assert_eq!(s.draw_border(7, 0, 0, 2), vec![text(7, 0, ""), text(7, 1, "")]);
    assert_eq!(s.draw_border(7, 0, 9, 0), vec![]);
    let full = box_80_by_20();
    assert_eq!(full.len(), 20);
    assert_eq!(full[0], text(0, 0, &format!("+{}+", "-".repeat(78))));
    assert_eq!(full[7], text(0, 7, &format!("|{}|", " ".repeat(78))));
    assert_eq!(full[19], text(0, 19, &format!("+{}+", "-".repeat(78))));
}

#[test]
fn highlight_border_runs_inside_the_border() {
    let s = screen();
    let mut expected = s.draw_border(2, 1, 6, 5);
    expected.extend(vec![text(3, 2, "===="), text(3, 3, "=  ="), text(3, 4, "====")]);
    assert_eq!(s.draw_highlight_border(2, 1, 6, 5), expected);
    let mut narrow = s.draw_border(0, 0, 3, 4);
    narrow.extend(vec![text(1, 1, "="), text(1, 2, "=")]);
    assert_eq!(s.draw_highlight_border(0, 0, 3, 4), narrow);
    assert_eq!(s.draw_highlight_border(0, 0, 2, 2), s.draw_border(0, 0, 2, 2));
    let mut edge = s.draw_border(0, 0, 2, 3);
    edge.push(text(1, 1, ""));
    assert_eq!(s.draw_highlight_border(0, 0, 2, 3), edge);
}

#[test]
fn numbers_and_repeats_are_written_out() {
    assert_eq!(decimal_text(0), "0");
    assert_eq!(decimal_text(7), "7");
    assert_eq!(decimal_text(10), "10");
    assert_eq!(decimal_text(99), "99");
    assert_eq!(decimal_text(100), "100");
    assert_eq!(decimal_text(209), "209");
    assert_eq!(decimal_text(255), "255");
    for n in 0..=255u8 {
        assert_eq!(decimal_text(n), n.to_string());
    }
    assert_eq!(repeat_text("=", 3), "===");
    assert_eq!(repeat_text("ab", 2), "abab");
    assert_eq!(repeat_text("x", 0), "");
}

#[test]
fn stats_show_value_and_maximum() {
    let stats = vec![
        Attribute { id: "hp".to_string(), display_name: "Health".to_string(), min_val: 0, max_val: 255, current_val: 7 },
        Attribute { id: "mp".to_string(), display_name: "Mana".to_string(), min_val: 0, max_val: 40, current_val: 0 },
    ];
    assert_eq!(
        screen().draw_stat_display(&stats, 2, 13),
        vec![text(2, 13, "Health: 7/255"), text(2, 14, "Mana: 0/40")]
    );
}

#[test]
fn faces_differ_between_player_and_others() {
    let s = screen();
    let mut expected = s.draw_border(5, 2, 18, 7);
    expected.extend(vec![
        text(10, 3, ".       ."),
        text(8, 6, "|          |"),
        text(8, 7, "+----------+"),
        text(12, 10, "Hero"),
    ]);
    assert_eq!(s.draw_face(5, 2, &person("player", "Hero", '@', 0, 0)), expected);
    let mut expected = s.draw_border(51, 2, 18, 7);
    expected.extend(vec![
        text(56, 3, "v       v"),
        text(54, 6, "+----------+"),
        text(54, 7, "|          |"),
        text(51, 10, "A name that is too long"),
    ]);
    assert_eq!(s.draw_face(51, 2, &person("cat", "A name that is too long", 'c', 0, 0)), expected);
}

#[test]
fn text_box_sets_lines_in_the_middle() {
    let s = screen();
    let lines = vec!["Hi".to_string(), "there you".to_string()];
    let mut expected = s.draw_border(0, 12, 20, 8);
    expected.extend(vec![text(9, 15, "Hi"), text(5, 16, "there you")]);
    assert_eq!(s.draw_text_box(0, 12, 20, 8, &lines, false), expected);
    let mut expected = s.draw_highlight_border(19, 12, 22, 8);
    expected.push(text(29, 15, "Hi"));
    assert_eq!(s.draw_text_box(19, 12, 22, 8, &vec!["Hi".to_string()], true), expected);
    let many: Vec<String> = (0..6).map(|i| i.to_string()).collect();
    let drawn = s.draw_text_box(0, 0, 10, 8, &many, false);
    assert_eq!(drawn[8], text(4, 2, "0"));
    assert_eq!(drawn[13], text(4, 7, "5"));
}

#[test]
fn inventory_boxes_hold_items_and_mark_the_selection() {
    let s = screen();
    let items = vec![
        vec![Some(thing("key", "brass key", "collectable", 'k')), None, None],
        vec![None, None, Some(thing("coin", "coin", "collectable", '$'))],
    ];
    let drawn = s.draw_item_grid(&items, 28, 0, 1, 2);
    let mut expected = s.draw_border(28, 0, 18, 7);
    expected.extend(vec![text(32, 2, "brass key"), glyph(36, 3, 'k')]);
    expected.extend(s.draw_border(28, 6, 18, 7));
    expected.extend(s.draw_border(28, 12, 18, 8));
    expected.extend(s.draw_border(45, 0, 18, 7));
    expected.extend(s.draw_border(45, 6, 18, 7));
    expected.extend(s.draw_highlight_border(45, 12, 18, 8));
    expected.extend(vec![text(52, 14, "coin"), glyph(53, 15, '$'), text(52, 18, "Use?")]);
    assert_eq!(drawn, expected);
    assert_eq!(s.draw_item_grid(&vec![], 28, 0, 0, 0), vec![]);
    assert_eq!(s.draw_item_box(&None, 28, 0, 0, 0, true), s.draw_highlight_border(28, 0, 18, 7));
}

#[test]
fn start_screen_shows_the_game_and_the_controls() {
    let drawn = screen().draw_start_screen(&world()).unwrap();
    let mut expected = box_80_by_20();
    expected.extend(vec![
        text(31, 2, "Welcome to Castle"),
        text(33, 3, "Written by Ada"),
        text(24, 4, "Powered by the Radiance Platform"),
        text(40, 5, ""),
        text(37, 6, "Dark."),
        text(40, 7, ""),
        text(35, 8, "Controls:"),
        text(14, 9, "Use WASD or the Arrow Keys to move around the world."),
        text(16, 10, "Use Enter to interact with objects in the world."),
        text(19, 11, "Use E to open your inventory, WASD/Arrows"),
        text(19, 12, "to move within, and Enter to select items."),
        text(15, 13, "Press Enter to select options within dialog boxes."),
        text(40, 14, ""),
        text(40, 15, ""),
        text(25, 16, "Press Enter to start the game."),
    ]);
    assert_eq!(drawn, expected);
}

#[test]
fn long_texts_are_wrapped_by_textwrap() {
    let mut state = GameState::new(0, 1, 1);
    let message = "You tried to use the brass key on the cellar door, but it didn't work!";
    screen().show_game_message(&mut state, message.to_string());
    let drawn = screen().draw_playing_dialog(&state).unwrap();
    let wrapped: Vec<String> = textwrap::wrap(message, 46).into_iter().map(|l| l.into_owned()).collect();
    assert_eq!(wrapped.len(), 2);
    assert!(wrapped.iter().all(|line| line.len() <= 46));
    assert_eq!(wrapped.join(" "), message);
    let lines: Vec<DrawOp> = drawn[18..20].to_vec();
    assert_eq!(
        lines,
        vec![
            text(((80 - wrapped[0].len()) / 2) as u16, 8, &wrapped[0]),
            text(((80 - wrapped[1].len()) / 2) as u16, 9, &wrapped[1]),
        ]
    );
    assert_eq!(drawn.len(), 23);
}

#[test]
fn dialog_shows_message_and_marks_the_selected_answer() {
    let s = screen();
    let mut state = GameState::new(0, 1, 1);
    state.raise_dialog(
        "The door is locked! Try to find a key.".to_string(),
        "Open inventory",
        "Close",
        VisualState::PlayingInventory,
    );
    let mut expected = s.draw_border(15, 4, 50, 12);
    expected.extend(s.draw_border(15, 13, 50, 3));
    expected.extend(s.draw_border(15, 13, 25, 3));
    let mut first = expected.clone();
    first.extend(vec![
        text(21, 8, "The door is locked! Try to find a key."),
        text(16, 14, &"=".repeat(23)),
        text(20, 14, "Open inventory"),
        text(50, 14, "Close"),
    ]);
    assert_eq!(s.draw_playing_dialog(&state).unwrap(), first);
    state.dialog_selected = 1;
    expected.extend(vec![
        text(21, 8, "The door is locked! Try to find a key."),
        text(40, 14, &"=".repeat(24)),
        text(20, 14, "Open inventory"),
        text(50, 14, "Close"),
    ]);
    assert_eq!(s.draw_playing_dialog(&state).unwrap(), expected);
    state.dialog_message = "".to_string();
    assert_eq!(s.draw_playing_dialog(&state).unwrap().len(), 22);
    state.dialog_message = "a\n".repeat(17);
    assert_eq!(s.draw_playing_dialog(&state).unwrap()[18], text(39, 0, "a"));
    state.dialog_message = "a\n".repeat(18);
    assert_eq!(s.draw_playing_dialog(&state), Err(DrawError::TooLarge));
}

#[test]
fn map_shows_the_room_and_a_blinking_cursor() {
    let s = screen();
    let data = world();
    let mut state = GameState::new(0, 1, 1);
    state.visual_state = VisualState::PlayingMap;
    let mut expected = box_80_by_20();
    expected.extend(s.draw_border(0, 0, 80, 3));
    expected.push(text(2, 1, "A hall."));
    expected.extend(s.draw_border(8, 6, 4, 3));
    expected.extend(vec![glyph(8, 8, '#'), glyph(9, 7, 'c'), glyph(11, 6, 'o')]);
    let mut solid = expected.clone();
    solid.push(glyph(9, 7, '@'));
    assert_eq!(s.draw_playing_map(&data, &mut state).unwrap(), solid);
    assert!(!state.cursor_blink);
    let mut hollow = expected.clone();
    hollow.push(glyph(9, 7, 'c'));
    assert_eq!(s.draw_playing_map(&data, &mut state).unwrap(), hollow);
    assert!(state.cursor_blink);
    state.current_player_x = 2;
    state.cursor_blink = false;
    assert_eq!(s.draw_playing_map(&data, &mut state).unwrap(), expected);
    assert!(state.cursor_blink);
}

#[test]
fn inventory_shows_player_stats_and_items() {
    let s = screen();
    let mut data = world();
    let player = data.info.player.as_mut().unwrap();
    player.attributes = vec![Attribute {
        id: "hp".to_string(),
        display_name: "Health".to_string(),
        min_val: 0,
        max_val: 9,
        current_val: 3,
    }];
    player.inventory[0][0] = Some(thing("key", "key", "collectable", 'k'));
    let mut state = GameState::new(0, 1, 1);
    state.visual_state = VisualState::PlayingInventory;
    let mut expected = box_80_by_20();
    expected.extend(s.draw_face(5, 2, data.info.player.as_ref().unwrap()));
    expected.push(text(2, 13, "Health: 3/9"));
    expected.extend(s.draw_highlight_border(28, 0, 18, 7));
    expected.extend(vec![text(35, 2, "key"), glyph(36, 3, 'k'), text(35, 5, "Use?")]);
    assert_eq!(s.draw_playing_inventory(&data, &state).unwrap(), expected);
    data.info.player = None;
    assert_eq!(s.draw_playing_inventory(&data, &state), Err(DrawError::NoPlayer));
}

#[test]
fn conversation_shows_both_faces_and_the_dialog() {
    let s = screen();
    let data = world();
    let mut state = GameState::new(0, 1, 1);
    state.visual_state = VisualState::PlayingCharacterInteraction;
    state.npc_dialog_id = "hello".to_string();
    state.dialog_selected = 1;
    let mut expected = box_80_by_20();
    expected.extend(s.draw_border(40, 0, 40, 20));
    expected.extend(s.draw_text_box(0, 12, 20, 8, &vec!["Hi".to_string()], false));
    expected.extend(s.draw_text_box(19, 12, 22, 8, &vec!["Shoo".to_string()], true));
    expected.extend(s.draw_text_box(40, 12, 40, 8, &vec!["Meow".to_string()], false));
    expected.push(text(41, 12, &format!("{}|", " ".repeat(38))));
    expected.extend(s.draw_face(11, 2, data.info.player.as_ref().unwrap()));
    expected.extend(s.draw_face(51, 2, &person("cat", "Cat", 'c', 0, 0)));
    assert_eq!(s.draw_playing_character_interaction(&data, &state).unwrap(), expected);
    state.current_player_x = 0;
    state.current_player_y = 2;
    let drawn = s.draw_playing_character_interaction(&data, &state).unwrap();
    assert_eq!(drawn.len(), expected.len() - 11);
}

#[test]
fn screens_that_cannot_be_shown_say_why() {
    let s = screen();
    let mut data = world();
    let mut state = GameState::new(0, 1, 1);
    state.visual_state = VisualState::PlayingCharacterInteraction;
    assert_eq!(s.draw_playing_character_interaction(&data, &state), Err(DrawError::NoDialog));
    state.npc_dialog_id = "hello".to_string();
    state.current_player_x = 2;
    assert_eq!(s.draw_playing_character_interaction(&data, &state), Err(DrawError::NobodyThere));
    data.info.player = None;
    assert_eq!(s.draw_playing_character_interaction(&data, &state), Err(DrawError::NoPlayer));
    data.dialogs[0].npc_dialog = "a\n".repeat(65515);
    assert_eq!(s.draw_playing_character_interaction(&data, &state), Err(DrawError::TooLarge));
    state.visual_state = VisualState::PlayingMap;
    state.current_map = 1;
    assert_eq!(s.draw_playing_map(&data, &mut state), Err(DrawError::NoMap));
    state.current_map = 0;
    state.current_player_x = 65528;
    assert_eq!(s.draw_playing_map(&data, &mut state), Err(DrawError::TooLarge));
    state.current_player_x = 1;
    data.maps[0].grid = vec![];
    assert_eq!(s.draw_playing_map(&data, &mut state), Err(DrawError::EmptyMap));
    assert!(state.cursor_blink);
    assert_eq!(s.draw_playing_character_fight(), Ok(vec![]));
}

#[test]
fn a_turn_shows_handles_and_shows_again() {
    let s = screen();
    let mut data = world();
    let mut state = GameState::new(0, 1, 1);
    let start = s.draw_start_screen(&data).unwrap();
    assert_eq!(s.draw(&mut data, &mut state).unwrap(), start);
    assert_eq!(state, GameState::new(0, 1, 1));
    state.last_character_pressed = Key::Enter;
    state.last_character_processed = false;
    let drawn = s.draw(&mut data, &mut state).unwrap();
    assert_eq!(state.visual_state, VisualState::PlayingMap);
    assert!(state.last_character_processed);
    assert!(!state.cursor_blink);
    let mut again = GameState::new(0, 1, 1);
    again.visual_state = VisualState::PlayingMap;
    let mut expected = s.draw_start_screen(&data).unwrap();
    expected.extend(s.draw_playing_map(&data, &mut again).unwrap());
    assert_eq!(drawn, expected);
    state.last_character_pressed = Key::Char('e');
    state.last_character_processed = false;
    let drawn = s.draw(&mut data, &mut state).unwrap();
    assert_eq!(state.visual_state, VisualState::PlayingInventory);
    assert!(state.cursor_blink);
    let mut expected = s.draw_playing_map(&data, &mut again).unwrap();
    expected.push(text(10, 11, "Changing to Inventory"));
    expected.extend(s.draw_playing_inventory(&data, &state).unwrap());
    assert_eq!(drawn, expected);
    state.last_character_pressed = Key::Esc;
    state.last_character_processed = false;
    let drawn = s.draw(&mut data, &mut state).unwrap();
    assert_eq!(state.visual_state, VisualState::PlayingMap);
    assert!(drawn.contains(&text(10, 11, "Changing to map view")));
    state.last_character_pressed = Key::Char('H');
    state.last_character_processed = false;
    let drawn = s.draw(&mut data, &mut state).unwrap();
    assert_eq!(state.visual_state, VisualState::StartScreen);
    assert!(drawn.contains(&text(10, 11, "Changing to start screen")));
}

#[test]
fn a_turn_ends_where_a_screen_cannot_be_shown() {
    let s = screen();
    let mut data = world();
    data.dialogs.clear();
    let mut state = GameState::new(0, 1, 1);
    state.visual_state = VisualState::PlayingMap;
    state.last_character_pressed = Key::Enter;
    state.last_character_processed = false;
    assert_eq!(s.draw(&mut data, &mut state), Err(DrawError::NoDialog));
    assert_eq!(state.visual_state, VisualState::PlayingCharacterInteraction);
    assert!(state.last_character_processed);
    assert!(!state.cursor_blink);
    assert_eq!(s.draw(&mut data, &mut state), Err(DrawError::NoDialog));
}

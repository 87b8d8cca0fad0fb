use radiance::characters::{Character, Interactions, ObjectUse};
use radiance::dialogs::{Dialog, DialogOption};
use radiance::maps::{GameMap, MapData, MapInfo, Size};
use radiance::objects::{
    Object, ObjectInteraction, ObjectInteractionActivate, ObjectInteractionObjectUse, ObjectState,
};
use radiance::screen::Screen;
use radiance::session::{GameState, Key, VisualState};
use radiance::world::{GameData, GameInfo};

fn flag(name: &str, value: bool) -> ObjectState {
    ObjectState { name: name.to_string(), value }
}

fn plain_object(id: &str, name: &str, category: &str) -> Object {
    Object {
        id: id.to_string(),
        name: name.to_string(),
        category: category.to_string(),
        icon: '*',
        state: vec![],
        interactions: vec![],
    }
}

fn locked_door() -> Object {
    Object {
        id: "cellar_door".to_string(),
        name: "cellar door".to_string(),
        category: "door".to_string(),
        icon: '#',
        state: vec![flag("key_taken", false)],
        interactions: vec![
            ObjectInteraction::ObjectInteractionActivate(ObjectInteractionActivate {
                category: "travel".to_string(),
                prereqs: vec![flag("key_taken", true)],
                destination: None,
            }),
            ObjectInteraction::ObjectInteractionObjectUse(ObjectInteractionObjectUse {
                foreign_object_id: "brass_key".to_string(),
                self_action: vec![flag("key_taken", true)],
                consume_item: true,
            }),
        ],
    }
}

fn brass_key() -> Object {
    plain_object("brass_key", "brass key", "collectable")
}

fn empty_grid(width: usize, height: usize) -> Vec<Vec<Option<MapData>>> {
    let mut grid = Vec::new();
    for _ in 0..width {
        let mut column = Vec::new();
        for _ in 0..height {
            column.push(None);
        }
        grid.push(column);
    }
    grid
}

fn room(id: &str, width: usize, height: usize) -> GameMap {
    GameMap {
        info: MapInfo {
            id: id.to_string(),
            description: format!("The {}", id),
            size: Size { width: width as i64, height: height as i64 },
        },
        grid: empty_grid(width, height),
    }
}

fn person(id: &str, name: &str, dialog_id: &str, columns: usize, rows: usize) -> Character {
    let mut inventory = Vec::new();
    for _ in 0..columns {
        let mut column = Vec::new();
        for _ in 0..rows {
            column.push(None);
        }
        inventory.push(column);
    }
    Character {
        id: id.to_string(),
        name: name.to_string(),
        attributes: vec![],
        inventory,
        icon: '@',
        interactions: Interactions { attacks: vec![], object_use: vec![] },
        dialog_id: dialog_id.to_string(),
    }
}

fn dialog(id: &str, next_0: &str, next_1: &str) -> Dialog {
    Dialog {
        id: id.to_string(),
        npc_dialog: format!("{} speaking", id),
        option_0: DialogOption { dialog: "first".to_string(), next: next_0.to_string() },
        option_1: DialogOption { dialog: "second".to_string(), next: next_1.to_string() },
    }
}

/// Two rooms joined by a locked door: the door stands at (1, 1) of "start"
/// and at (0, 2) of "cellar".
fn world() -> GameData {
    let mut start = room("start", 5, 4);
    start.grid[1][1] = Some(MapData::Object(locked_door()));
    let mut cellar = room("cellar", 4, 5);
    cellar.grid[0][2] = Some(MapData::Object(locked_door()));
    GameData {
        maps: vec![start, cellar],
        dialogs: vec![dialog("hello", "more", "exit"), dialog("more", "inventory", "nowhere")],
        info: GameInfo {
            name: "Test".to_string(),
            description: "A test world".to_string(),
            author: "Nobody".to_string(),
            min_screen_cols: 80,
            min_screen_rows: 20,
            starting_map: "start".to_string(),
            starting_position_x: 1,
            starting_position_y: 1,
            player: Some(person("player", "Hero", "", 2, 2)),
        },
    }
}

fn screen() -> Screen {
    Screen::new(120, 40)
}

fn on_map(x: u16, y: u16) -> GameState {
    let mut state = GameState::new(0, x, y);
    state.visual_state = VisualState::PlayingMap;
    state
}

fn door_flag(data: &GameData, m: usize, x: usize, y: usize) -> bool {
    match &data.maps[m].grid[x][y] {
        Some(MapData::Object(door)) => door.get_state("key_taken"),
        _ => panic!("no door at ({}, {}) of map {}", x, y, m),
    }
}

#[test]
fn locked_door_raises_dialog_and_keeps_player() {
    let mut data = world();
    let before = world();
    let mut state = on_map(1, 1);
    screen().handle_key(&mut state, &mut data, Key::Enter);
    assert_eq!(state.visual_state, VisualState::PlayingDialog);
    assert_eq!(state.dialog_message, "The door is locked! Try to find a key.");
    assert_eq!(state.dialog_option_0, "Open inventory");
    assert_eq!(state.dialog_option_1, "Close");
    assert_eq!(state.dialog_return_0, VisualState::PlayingInventory);
    assert_eq!(state.dialog_return_1, VisualState::PlayingMap);
    assert_eq!(state.dialog_return_cancel, VisualState::PlayingMap);
    assert!(!state.pre_exit);
    assert_eq!((state.current_map, state.current_player_x, state.current_player_y), (0, 1, 1));
    assert_eq!(data, before);
}

#[test]
fn key_unlocks_both_sides_and_is_consumed() {
    let mut data = world();
    data.info.player.as_mut().unwrap().inventory[1][0] = Some(brass_key());
    let mut state = on_map(1, 1);
    state.visual_state = VisualState::PlayingInventory;
    state.inventory_x = 1;
    state.inventory_y = 0;
    screen().handle_key(&mut state, &mut data, Key::Enter);
    assert!(door_flag(&data, 0, 1, 1));
    assert!(door_flag(&data, 1, 0, 2));
    assert_eq!(data.info.player.as_ref().unwrap().inventory[1][0], None);
    assert_eq!(state.visual_state, VisualState::PlayingDialog);
    assert_eq!(state.dialog_message, "You used the brass key on the cellar door!");
    assert_eq!(state.dialog_option_0, "Continue");
    assert_eq!(state.dialog_option_1, "Close");
    assert_eq!(state.dialog_return_0, VisualState::PlayingInventory);
    assert_eq!(state.dialog_return_1, VisualState::PlayingInventory);
    assert_eq!(state.dialog_return_cancel, VisualState::PlayingInventory);
}

#[test]
fn yes_on_exit_question_ends_the_game() {
    let mut data = world();
    let mut state = on_map(2, 2);
    let s = screen();
    s.handle_key(&mut state, &mut data, Key::Esc);
    assert!(state.pre_exit);
    assert_eq!(state.visual_state, VisualState::PlayingDialog);
    assert_eq!(state.dialog_message, "Would you like to exit the game?");
    assert_eq!(state.dialog_option_0, "No");
    assert_eq!(state.dialog_option_1, "Yes");
    s.handle_key(&mut state, &mut data, Key::Right);
    assert_eq!(state.dialog_selected, 1);
    assert!(!state.do_exit);
    s.handle_key(&mut state, &mut data, Key::Enter);
    assert!(state.do_exit);
    assert_eq!(state.dialog_selected, 0);
}

#[test]
fn no_on_exit_question_returns_to_the_map() {
    let mut data = world();
    let mut state = on_map(2, 2);
    let s = screen();
    s.handle_key(&mut state, &mut data, Key::Esc);
    s.handle_key(&mut state, &mut data, Key::Enter);
    assert!(!state.do_exit);
    assert!(!state.pre_exit);
    assert_eq!(state.visual_state, VisualState::PlayingMap);
}

#[test]
fn unlocked_door_is_travelled_both_ways() {
    let mut data = world();
    data.info.player.as_mut().unwrap().inventory[0][0] = Some(brass_key());
    let s = screen();
    let mut state = on_map(1, 1);
    state.visual_state = VisualState::PlayingInventory;
    s.handle_key(&mut state, &mut data, Key::Enter);
    s.handle_key(&mut state, &mut data, Key::Esc);
    assert_eq!(state.visual_state, VisualState::PlayingInventory);
    s.handle_key(&mut state, &mut data, Key::Esc);
    assert_eq!(state.visual_state, VisualState::PlayingMap);
    s.handle_key(&mut state, &mut data, Key::Enter);
    assert_eq!((state.current_map, state.current_player_x, state.current_player_y), (1, 0, 2));
    assert_eq!(state.visual_state, VisualState::PlayingMap);
    s.handle_key(&mut state, &mut data, Key::Enter);
    assert_eq!((state.current_map, state.current_player_x, state.current_player_y), (0, 1, 1));
}

#[test]
fn getters_default_and_set_state() {
    let mut door = locked_door();
    assert!(!door.get_state("key_taken"));
    assert!(!door.get_state("never_recorded"));
    assert!(door.prereqs_met(&[]));
    assert!(!door.prereqs_met(&[flag("key_taken", true)]));
    assert!(door.prereqs_met(&[flag("key_taken", false), flag("never_recorded", false)]));
    assert!(!door.prereqs_met(&[flag("never_recorded", true)]));
    door.set_state("never_recorded".to_string(), true);
    assert_eq!(door, locked_door());
    door.set_state("key_taken".to_string(), true);
    assert!(door.get_state("key_taken"));
    assert!(door.prereqs_met(&[flag("key_taken", true)]));
}

#[test]
fn set_state_sets_every_flag_of_that_name() {
    let mut object = plain_object("lamp", "lamp", "simple");
    object.state = vec![flag("lit", false), flag("hot", false), flag("lit", false)];
    object.set_state("lit".to_string(), true);
    assert_eq!(object.state, vec![flag("lit", true), flag("hot", false), flag("lit", true)]);
    object.set_states(&vec![flag("hot", true), flag("lit", false), flag("hot", false)]);
    assert_eq!(object.state, vec![flag("lit", false), flag("hot", false), flag("lit", false)]);
}

#[test]
fn moves_follow_walls_doors_and_obstacles() {
    let mut data = world();
    data.maps[0].grid[2][2] = Some(MapData::Object(plain_object("rock", "rock", "collidable")));
    data.maps[0].grid[3][1] = Some(MapData::Object(plain_object("rug", "rug", "simple")));
    data.maps[0].grid[0][2] = Some(MapData::Object(plain_object("gate", "gate", "door")));
    data.maps[0].grid[4][1] = Some(MapData::Object(plain_object("rock2", "rock", "collidable")));
    data.maps[0].grid[2][0] = Some(MapData::Character(person("guard", "Guard", "hello", 0, 0)));
    data.maps[0].grid[2][1] = Some(MapData::Character(person("cat", "Cat", "hello", 0, 0)));
    let s = screen();
    let mut at = on_map(1, 2);
    assert!(!s.check_move_available(&data, &mut at, 1, 0));
    assert!(s.check_move_available(&data, &mut at, -1, 0));
    assert!(s.check_move_available(&data, &mut at, 0, -1));
    assert!(!s.check_move_available(&data, &mut at, 0, 1));
    let mut at = on_map(2, 1);
    assert!(s.check_move_available(&data, &mut at, 1, 0));
    assert!(!s.check_move_available(&data, &mut at, 0, -1));
    assert!(!s.check_move_available(&data, &mut at, 0, 1));
    let mut at = on_map(3, 1);
    assert!(!s.check_move_available(&data, &mut at, 1, 0));
    assert!(s.check_move_available(&data, &mut at, -1, 0));
    let mut at = on_map(0, 0);
    assert!(!s.check_move_available(&data, &mut at, -1, 0));
    assert!(!s.check_move_available(&data, &mut at, 0, -1));
    let mut at = on_map(4, 3);
    assert!(!s.check_move_available(&data, &mut at, 1, 0));
    assert!(!s.check_move_available(&data, &mut at, 0, 1));
    let mut lost = on_map(1, 1);
    lost.current_map = 7;
    assert!(!s.check_move_available(&data, &mut lost, 1, 0));
}

#[test]
fn arrows_and_letters_move_the_player() {
    let mut data = world();
    let s = screen();
    let mut state = on_map(2, 2);
    state.cursor_blink = false;
    s.handle_key(&mut state, &mut data, Key::Right);
    assert_eq!((state.current_player_x, state.current_player_y), (3, 2));
    assert!(state.cursor_blink);
    s.handle_key(&mut state, &mut data, Key::Char('d'));
    assert_eq!((state.current_player_x, state.current_player_y), (3, 2));
    s.handle_key(&mut state, &mut data, Key::Up);
    assert_eq!((state.current_player_x, state.current_player_y), (3, 1));
    s.handle_key(&mut state, &mut data, Key::Char('w'));
    assert_eq!((state.current_player_x, state.current_player_y), (3, 1));
    s.handle_key(&mut state, &mut data, Key::Char('a'));
    assert_eq!((state.current_player_x, state.current_player_y), (2, 1));
    s.handle_key(&mut state, &mut data, Key::Left);
    assert_eq!((state.current_player_x, state.current_player_y), (1, 1));
    s.handle_key(&mut state, &mut data, Key::Char('s'));
    assert_eq!((state.current_player_x, state.current_player_y), (1, 2));
    s.handle_key(&mut state, &mut data, Key::Down);
    assert_eq!((state.current_player_x, state.current_player_y), (1, 2));
    s.handle_key(&mut state, &mut data, Key::Other);
    s.handle_key(&mut state, &mut data, Key::Char('x'));
    assert_eq!((state.current_player_x, state.current_player_y), (1, 2));
    assert_eq!(state.visual_state, VisualState::PlayingMap);
}

#[test]
fn collecting_fills_the_first_empty_slot() {
    let mut data = world();
    data.maps[0].grid[2][2] = Some(MapData::Object(brass_key()));
    data.info.player.as_mut().unwrap().inventory[0][0] =
        Some(plain_object("coin", "coin", "collectable"));
    let s = screen();
    let mut state = on_map(2, 2);
    s.handle_key(&mut state, &mut data, Key::Enter);
    assert_eq!(data.maps[0].grid[2][2], None);
    let inventory = &data.info.player.as_ref().unwrap().inventory;
    assert_eq!(inventory[0][1], Some(brass_key()));
    assert_eq!(inventory[1][0], None);
    assert_eq!(inventory[1][1], None);
    assert_eq!(state.visual_state, VisualState::PlayingDialog);
    assert_eq!(state.dialog_message, "You've found the brass key!\n\nNow, what will you do with it?");
    assert_eq!(state.dialog_option_0, "Open inventory");
    assert_eq!(state.dialog_option_1, "Close");
    assert_eq!(state.dialog_return_0, VisualState::PlayingInventory);
    assert_eq!(state.dialog_return_1, VisualState::PlayingMap);
}

#[test]
fn collecting_with_a_full_inventory_changes_nothing() {
    let mut data = world();
    data.maps[0].grid[2][2] = Some(MapData::Object(brass_key()));
    for column in data.info.player.as_mut().unwrap().inventory.iter_mut() {
        for slot in column.iter_mut() {
            *slot = Some(plain_object("coin", "coin", "collectable"));
        }
    }
    let mut before = world();
    before.maps[0].grid[2][2] = Some(MapData::Object(brass_key()));
    before.info.player = Some(person("player", "Hero", "", 2, 2));
    for column in before.info.player.as_mut().unwrap().inventory.iter_mut() {
        for slot in column.iter_mut() {
            *slot = Some(plain_object("coin", "coin", "collectable"));
        }
    }
    let s = screen();
    let mut state = on_map(2, 2);
    assert!(!s.collect_object(&mut state, &mut data, &brass_key()));
    assert_eq!(data, before);
    assert_eq!(state.visual_state, VisualState::PlayingDialog);
    assert_eq!(state.dialog_message, "Your inventory is full! You can't carry the brass key.");
    assert_eq!(state.dialog_option_0, "Open inventory");
    assert_eq!(state.dialog_option_1, "Close");
}

#[test]
fn dialog_selection_is_clamped() {
    let mut data = world();
    let s = screen();
    let mut state = on_map(2, 2);
    s.show_game_message(&mut state, "Hello".to_string());
    assert_eq!(state.dialog_selected, 0);
    s.handle_key(&mut state, &mut data, Key::Left);
    assert_eq!(state.dialog_selected, 0);
    s.handle_key(&mut state, &mut data, Key::Right);
    assert_eq!(state.dialog_selected, 1);
    s.handle_key(&mut state, &mut data, Key::Right);
    assert_eq!(state.dialog_selected, 1);
    s.handle_key(&mut state, &mut data, Key::Left);
    assert_eq!(state.dialog_selected, 0);
    s.handle_key(&mut state, &mut data, Key::Right);
    s.handle_key(&mut state, &mut data, Key::Enter);
    assert_eq!(state.dialog_selected, 0);
    assert!(state.dialog_result_ready);
    assert_eq!(state.visual_state, VisualState::PlayingMap);
}

#[test]
fn dialog_cancel_discards_the_result() {
    let mut data = world();
    let s = screen();
    let mut state = on_map(2, 2);
    state.dialog_result_ready = true;
    state.raise_dialog("Pick".to_string(), "A", "B", VisualState::PlayingInventory);
    s.handle_key(&mut state, &mut data, Key::Right);
    s.handle_key(&mut state, &mut data, Key::Esc);
    assert!(!state.dialog_result_ready);
    assert_eq!(state.dialog_selected, 0);
    assert_eq!(state.visual_state, VisualState::PlayingMap);
    state.raise_dialog("Pick".to_string(), "A", "B", VisualState::PlayingInventory);
    s.handle_key(&mut state, &mut data, Key::Enter);
    assert_eq!(state.visual_state, VisualState::PlayingInventory);
    state.raise_dialog("Pick".to_string(), "A", "B", VisualState::PlayingMap);
    s.handle_key(&mut state, &mut data, Key::Char('H'));
    assert_eq!(state.visual_state, VisualState::StartScreen);
    state.visual_state = VisualState::PlayingDialog;
    s.handle_key(&mut state, &mut data, Key::Char('M'));
    assert_eq!(state.visual_state, VisualState::PlayingMap);
}

#[test]
fn inventory_cursor_wraps_on_both_axes() {
    let mut data = world();
    data.info.player = Some(person("player", "Hero", "", 3, 2));
    let s = screen();
    let mut state = on_map(2, 2);
    state.visual_state = VisualState::PlayingInventory;
    s.handle_key(&mut state, &mut data, Key::Left);
    assert_eq!((state.inventory_x, state.inventory_y), (2, 0));
    s.handle_key(&mut state, &mut data, Key::Right);
    assert_eq!((state.inventory_x, state.inventory_y), (0, 0));
    s.handle_key(&mut state, &mut data, Key::Right);
    assert_eq!((state.inventory_x, state.inventory_y), (1, 0));
    s.handle_key(&mut state, &mut data, Key::Up);
    assert_eq!((state.inventory_x, state.inventory_y), (1, 1));
    s.handle_key(&mut state, &mut data, Key::Down);
    assert_eq!((state.inventory_x, state.inventory_y), (1, 0));
    s.handle_key(&mut state, &mut data, Key::Down);
    assert_eq!((state.inventory_x, state.inventory_y), (1, 1));
    s.handle_key(&mut state, &mut data, Key::Char('e'));
    assert_eq!(state.visual_state, VisualState::PlayingMap);
    state.visual_state = VisualState::PlayingInventory;
    s.handle_key(&mut state, &mut data, Key::Char('m'));
    assert_eq!(state.visual_state, VisualState::PlayingMap);
    state.visual_state = VisualState::PlayingInventory;
    s.handle_key(&mut state, &mut data, Key::Char('H'));
    assert_eq!(state.visual_state, VisualState::StartScreen);
}

#[test]
fn inventory_without_slots_keeps_the_cursor() {
    let mut data = world();
    data.info.player = None;
    let s = screen();
    let mut state = on_map(2, 2);
    state.visual_state = VisualState::PlayingInventory;
    for key in [Key::Left, Key::Right, Key::Up, Key::Down] {
        s.handle_key(&mut state, &mut data, key);
        assert_eq!((state.inventory_x, state.inventory_y), (0, 0));
    }
}

#[test]
fn start_screen_and_mode_keys() {
    let mut data = world();
    let s = screen();
    let mut state = GameState::new(0, 1, 1);
    assert_eq!(state.visual_state, VisualState::StartScreen);
    s.handle_key(&mut state, &mut data, Key::Char('x'));
    assert_eq!(state.visual_state, VisualState::StartScreen);
    s.handle_key(&mut state, &mut data, Key::Enter);
    assert_eq!(state.visual_state, VisualState::PlayingMap);
    s.handle_key(&mut state, &mut data, Key::Char('E'));
    assert_eq!(state.visual_state, VisualState::PlayingInventory);
    s.handle_key(&mut state, &mut data, Key::Esc);
    assert_eq!(state.visual_state, VisualState::PlayingMap);
    s.handle_key(&mut state, &mut data, Key::Char('e'));
    assert_eq!(state.visual_state, VisualState::PlayingInventory);
    s.handle_key(&mut state, &mut data, Key::Esc);
    s.handle_key(&mut state, &mut data, Key::Char('H'));
    assert_eq!(state.visual_state, VisualState::StartScreen);
    s.handle_key(&mut state, &mut data, Key::Esc);
    assert_eq!(state.visual_state, VisualState::PlayingDialog);
    assert!(state.pre_exit);
    assert_eq!(state.dialog_return_0, VisualState::StartScreen);
    assert_eq!(state.dialog_return_cancel, VisualState::StartScreen);
    s.handle_key(&mut state, &mut data, Key::Esc);
    assert_eq!(state.visual_state, VisualState::StartScreen);
    state.visual_state = VisualState::PlayingCharacterFight;
    let before = state.clone();
    s.handle_key(&mut state, &mut data, Key::Enter);
    assert_eq!(state, before);
}

#[test]
fn next_map_key_cycles_through_the_maps() {
    let mut data = world();
    let s = screen();
    let mut state = on_map(1, 1);
    s.handle_key(&mut state, &mut data, Key::Char('M'));
    assert_eq!(state.current_map, 1);
    s.handle_key(&mut state, &mut data, Key::Char('M'));
    assert_eq!(state.current_map, 0);
    assert_eq!((state.current_player_x, state.current_player_y), (1, 1));
}

#[test]
fn conversation_follows_the_dialog_graph() {
    let mut data = world();
    data.maps[0].grid[2][2] = Some(MapData::Character(person("cat", "Cat", "hello", 0, 0)));
    let s = screen();
    let mut state = on_map(2, 2);
    s.handle_key(&mut state, &mut data, Key::Enter);
    assert_eq!(state.visual_state, VisualState::PlayingCharacterInteraction);
    assert_eq!(state.npc_dialog_id, "hello");
    assert_eq!(state.dialog_return_cancel, VisualState::PlayingMap);
    s.handle_key(&mut state, &mut data, Key::Right);
    assert_eq!(state.dialog_selected, 1);
    s.handle_key(&mut state, &mut data, Key::Right);
    assert_eq!(state.dialog_selected, 1);
    s.handle_key(&mut state, &mut data, Key::Left);
    assert_eq!(state.dialog_selected, 0);
    s.handle_key(&mut state, &mut data, Key::Enter);
    assert_eq!(state.npc_dialog_id, "more");
    assert_eq!(state.visual_state, VisualState::PlayingCharacterInteraction);
    s.handle_key(&mut state, &mut data, Key::Right);
    s.handle_key(&mut state, &mut data, Key::Enter);
    assert_eq!(state.npc_dialog_id, "more");
    assert_eq!(state.dialog_selected, 0);
    assert_eq!(state.visual_state, VisualState::PlayingCharacterInteraction);
    s.handle_key(&mut state, &mut data, Key::Enter);
    assert_eq!(state.visual_state, VisualState::PlayingInventory);
    state.visual_state = VisualState::PlayingCharacterInteraction;
    state.npc_dialog_id = "hello".to_string();
    s.handle_key(&mut state, &mut data, Key::Right);
    s.handle_key(&mut state, &mut data, Key::Enter);
    assert_eq!(state.visual_state, VisualState::PlayingMap);
    state.visual_state = VisualState::PlayingCharacterInteraction;
    s.handle_key(&mut state, &mut data, Key::Right);
    s.handle_key(&mut state, &mut data, Key::Char('m'));
    assert_eq!(state.visual_state, VisualState::PlayingMap);
    assert_eq!(state.dialog_selected, 0);
    state.visual_state = VisualState::PlayingCharacterInteraction;
    s.handle_key(&mut state, &mut data, Key::Char('H'));
    assert_eq!(state.visual_state, VisualState::StartScreen);
}

#[test]
fn item_used_on_a_character_changes_the_dialog() {
    let mut data = world();
    let mut cat = person("cat", "Cat", "hello", 0, 0);
    cat.interactions.object_use = vec![
        ObjectUse { object_id: "fish".to_string(), set_dialog: "more".to_string(), consume_item: true },
        ObjectUse { object_id: "fish".to_string(), set_dialog: "hello".to_string(), consume_item: false },
        ObjectUse { object_id: "brass_key".to_string(), set_dialog: "".to_string(), consume_item: false },
    ];
    data.maps[0].grid[2][2] = Some(MapData::Character(cat));
    data.info.player.as_mut().unwrap().inventory[0][0] = Some(plain_object("fish", "fish", "collectable"));
    data.info.player.as_mut().unwrap().inventory[0][1] = Some(brass_key());
    data.info.player.as_mut().unwrap().inventory[1][0] = Some(plain_object("coin", "coin", "collectable"));
    let s = screen();
    let mut state = on_map(2, 2);
    state.visual_state = VisualState::PlayingInventory;
    s.handle_key(&mut state, &mut data, Key::Enter);
    match &data.maps[0].grid[2][2] {
        Some(MapData::Character(cat)) => assert_eq!(cat.dialog_id, "more"),
        _ => panic!("the cat has gone"),
    }
    assert_eq!(data.info.player.as_ref().unwrap().inventory[0][0], None);
    assert_eq!(state.visual_state, VisualState::PlayingInventory);
    s.handle_key(&mut state, &mut data, Key::Enter);
    assert_eq!(state.visual_state, VisualState::PlayingInventory);
    s.handle_key(&mut state, &mut data, Key::Down);
    s.handle_key(&mut state, &mut data, Key::Enter);
    match &data.maps[0].grid[2][2] {
        Some(MapData::Character(cat)) => assert_eq!(cat.dialog_id, "more"),
        _ => panic!("the cat has gone"),
    }
    assert_eq!(data.info.player.as_ref().unwrap().inventory[0][1], Some(brass_key()));
    assert_eq!(state.visual_state, VisualState::PlayingInventory);
    s.handle_key(&mut state, &mut data, Key::Right);
    s.handle_key(&mut state, &mut data, Key::Up);
    assert_eq!((state.inventory_x, state.inventory_y), (1, 0));
    s.handle_key(&mut state, &mut data, Key::Enter);
    assert_eq!(state.visual_state, VisualState::PlayingDialog);
    assert_eq!(state.dialog_message, "You can't use this item here!");
}

#[test]
fn item_without_effect_says_so() {
    let mut data = world();
    data.info.player.as_mut().unwrap().inventory[0][0] = Some(plain_object("coin", "coin", "collectable"));
    let before_maps = world().maps;
    let s = screen();
    let mut state = on_map(1, 1);
    state.visual_state = VisualState::PlayingInventory;
    s.handle_key(&mut state, &mut data, Key::Enter);
    assert_eq!(state.dialog_message, "You tried to use the coin on the cellar door, but it didn't work!");
    assert_eq!(state.dialog_option_0, "Continue");
    assert_eq!(data.maps, before_maps);
    assert_eq!(
        data.info.player.as_ref().unwrap().inventory[0][0],
        Some(plain_object("coin", "coin", "collectable"))
    );
    let mut state = on_map(2, 2);
    state.visual_state = VisualState::PlayingInventory;
    s.handle_key(&mut state, &mut data, Key::Enter);
    assert_eq!(state.dialog_message, "You can't use this item here!");
    let mut state = on_map(1, 1);
    state.visual_state = VisualState::PlayingInventory;
    state.inventory_x = 1;
    s.handle_key(&mut state, &mut data, Key::Enter);
    assert_eq!(state.visual_state, VisualState::PlayingInventory);
}

#[test]
fn door_without_other_side_is_left_alone() {
    let mut data = world();
    data.maps[1].grid[0][2] = None;
    data.info.player.as_mut().unwrap().inventory[0][0] = Some(brass_key());
    let s = screen();
    let mut state = on_map(1, 1);
    state.visual_state = VisualState::PlayingInventory;
    s.handle_key(&mut state, &mut data, Key::Enter);
    assert!(!door_flag(&data, 0, 1, 1));
    assert_eq!(data.info.player.as_ref().unwrap().inventory[0][0], Some(brass_key()));
    assert_eq!(
        state.dialog_message,
        "You tried to use the brass key on the cellar door, but it didn't work!"
    );
    assert_eq!(s.get_door_other_side(&state, &data, "cellar_door".to_string()), None);
    let mut door = locked_door();
    door.set_state("key_taken".to_string(), true);
    data.maps[0].grid[1][1] = Some(MapData::Object(door));
    let mut state = on_map(1, 1);
    s.handle_key(&mut state, &mut data, Key::Enter);
    assert_eq!((state.current_map, state.current_player_x, state.current_player_y), (0, 1, 1));
}

#[test]
fn door_search_skips_the_current_map_and_takes_the_first_match() {
    let mut data = world();
    data.maps[0].grid[3][3] = Some(MapData::Object(locked_door()));
    data.maps[1].grid[2][1] = Some(MapData::Object(locked_door()));
    data.maps[1].grid[0][4] = Some(MapData::Object(locked_door()));
    let s = screen();
    let state = on_map(1, 1);
    assert_eq!(s.get_door_other_side(&state, &data, "cellar_door".to_string()), Some((1, 0, 2)));
    let mut there = on_map(0, 2);
    there.current_map = 1;
    assert_eq!(s.get_door_other_side(&there, &data, "cellar_door".to_string()), Some((0, 1, 1)));
    assert_eq!(s.get_door_other_side(&there, &data, "brass_key".to_string()), None);
}

#[test]
fn pending_key_is_handled_once() {
    let mut data = world();
    let s = screen();
    let mut state = on_map(2, 2);
    state.last_character_pressed = Key::Right;
    assert!(!s.process_pending_key(&mut state, &mut data));
    assert_eq!(state.current_player_x, 2);
    state.last_character_processed = false;
    assert!(s.process_pending_key(&mut state, &mut data));
    assert_eq!(state.current_player_x, 3);
    assert!(state.last_character_processed);
    assert!(!s.process_pending_key(&mut state, &mut data));
    assert_eq!(state.current_player_x, 3);
}

#[test]
fn cursor_blinks_between_player_and_occupant() {
    let data = world();
    let s = screen();
    let mut state = on_map(1, 1);
    assert_eq!(s.blink_player_cursor(&data, &mut state), Some('@'));
    assert!(!state.cursor_blink);
    assert_eq!(s.blink_player_cursor(&data, &mut state), Some('#'));
    assert!(state.cursor_blink);
    let mut state = on_map(2, 2);
    state.cursor_blink = false;
    assert_eq!(s.blink_player_cursor(&data, &mut state), None);
}

#[test]
fn centering_positions() {
    let s = screen();
    assert_eq!(s.horizontally_center_start_position("Use?", 18), 7);
    assert_eq!(s.horizontally_center_start_position("i", 18), 8);
    assert_eq!(s.horizontally_center_start_position("", 80), 40);
    assert_eq!(s.horizontally_center_start_position("too long for this", 4), 0);
    assert_eq!(s.vertically_center_start_position(1, 7), 3);
    assert_eq!(s.vertically_center_start_position(16, 20), 2);
    assert_eq!(s.vertically_center_start_position(21, 20), 0);
    assert!(Screen::check_screen_size(80, 20));
    assert!(!Screen::check_screen_size(79, 20));
    assert!(!Screen::check_screen_size(80, 19));
    assert_eq!((s.current_columns(), s.current_rows()), (80, 20));
    assert_eq!((s.original_columns(), s.original_rows()), (120, 40));
}

#[test]
fn map_lookup_by_id() {
    let data = world();
    assert_eq!(GameState::map_from_id(&data, &"start".to_string()), Some(0));
    assert_eq!(GameState::map_from_id(&data, &"cellar".to_string()), Some(1));
    assert_eq!(GameState::map_from_id(&data, &"attic".to_string()), None);
}

#[test]
fn using_an_item_twice_changes_nothing_more() {
    let mut data = world();
    if let Some(MapData::Object(door)) = &mut data.maps[0].grid[1][1] {
        door.interactions[1] = ObjectInteraction::ObjectInteractionObjectUse(ObjectInteractionObjectUse {
            foreign_object_id: "brass_key".to_string(),
            self_action: vec![flag("key_taken", true), flag("key_taken", false), flag("key_taken", true)],
            consume_item: false,
        });
    }
    data.info.player.as_mut().unwrap().inventory[0][0] = Some(brass_key());
    let s = screen();
    let mut state = on_map(1, 1);
    state.visual_state = VisualState::PlayingInventory;
    s.use_object(&mut state, &mut data);
    assert!(door_flag(&data, 0, 1, 1));
    assert!(door_flag(&data, 1, 0, 2));
    assert_eq!(data.info.player.as_ref().unwrap().inventory[0][0], Some(brass_key()));
    let mut once = world();
    once.maps = data.maps.clone();
    once.info.player = data.info.player.clone();
    s.use_object(&mut state, &mut data);
    assert_eq!(data, once);
    assert_eq!(state.dialog_message, "You used the brass key on the cellar door!");
}

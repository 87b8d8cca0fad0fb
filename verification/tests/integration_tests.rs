use radiance::characters::{Character, Interactions};
use radiance::config::maps::{MapItemData, MapObject, Position};
use radiance::config::ConfigError;
use radiance::maps::{MapData, Size};
use radiance::objects::Object;
use radiance::world::{GameData, GameInfo};

fn add(a: i32, b: i32) -> i32 {
    a + b
}

fn sqrt(x: f64) -> Result<f64, String> {
    if x >= 0.0 {
        Ok(x.sqrt())
    } else {
        Err("negative floats don't have square roots".to_owned())
    }
}

fn blank_world() -> GameData {
    GameData {
        maps: vec![],
        dialogs: vec![],
        info: GameInfo {
            name: "".to_string(),
            description: "".to_string(),
            author: "".to_string(),
            min_screen_cols: 0,
            min_screen_rows: 0,
            starting_map: "".to_string(),
            starting_position_x: 0,
            starting_position_y: 0,
            player: None,
        },
    }
}

fn chest() -> Object {
    Object {
        id: "chest".to_string(),
        name: "chest".to_string(),
        category: "collidable".to_string(),
        icon: 'c',
        state: vec![],
        interactions: vec![],
    }
}

fn somebody(id: &str) -> Character {
    Character {
        id: id.to_string(),
        name: id.to_string(),
        attributes: vec![],
        inventory: vec![vec![None, None]],
        icon: '@',
        interactions: Interactions { attacks: vec![], object_use: vec![] },
        dialog_id: "".to_string(),
    }
}

fn placed(id: &str, x: usize, y: usize) -> MapObject {
    MapObject { id: id.to_string(), position: Position { x, y } }
}

fn room(objects: Vec<MapObject>) -> MapItemData {
    MapItemData {
        id: "hall".to_string(),
        description: "A hall".to_string(),
        size: Size { width: 4, height: 3 },
        objects,
    }
}

#[test]
fn test_add() {
    assert_eq!(add(1, 2), 3);
}

#[test]
fn test_good_room() {
    let mut test_rooms = Vec::<MapItemData>::new();
    test_rooms.push(room(vec![placed("chest", 1, 2), placed("guard", 3, 0), placed("ghost", 9, 9)]));
    let mut world = blank_world();
    let done = world.set_map_grid(test_rooms, vec![somebody("guard"), somebody("player")], vec![chest()]);
    assert_eq!(done, Ok(()));
    assert_eq!(world.maps.len(), 1);
    assert_eq!(world.maps[0].info.id, "hall");
    assert_eq!(world.maps[0].info.size, Size { width: 4, height: 3 });
    assert_eq!(world.maps[0].grid.len(), 4);
    for column in &world.maps[0].grid {
        assert_eq!(column.len(), 3);
    }
    assert_eq!(world.maps[0].grid[1][2], Some(MapData::Object(chest())));
    assert_eq!(world.maps[0].grid[3][0], Some(MapData::Character(somebody("guard"))));
    let occupied = world.maps[0].grid.iter().flatten().filter(|cell| cell.is_some()).count();
    assert_eq!(occupied, 2);
    assert_eq!(world.info.player, Some(somebody("player")));
}

#[test]
fn test_sqrt() -> Result<(), String> {
    let x = 4.0;
    assert_eq!(sqrt(x)?.powf(2.0), x);
    Ok(())
}

#[test]
fn bad_rooms_are_refused_and_leave_the_world_alone() {
    let mut world = blank_world();
    let outside = room(vec![placed("chest", 4, 0)]);
    assert_eq!(
        world.set_map_grid(vec![room(vec![]), outside], vec![somebody("player")], vec![chest()]),
        Err(ConfigError::PositionOutsideMap)
    );
    assert_eq!(world, blank_world());
    let mut negative = room(vec![]);
    negative.size = Size { width: -1, height: 3 };
    assert_eq!(world.set_map_grid(vec![negative], vec![], vec![]), Err(ConfigError::MapSize));
    assert_eq!(world, blank_world());
}

#[test]
fn an_object_takes_the_cell_from_a_character_of_the_same_id() {
    let mut world = blank_world();
    let mut twin = somebody("chest");
    twin.icon = 'x';
    let done = world.set_map_grid(vec![room(vec![placed("chest", 0, 0)])], vec![twin], vec![chest()]);
    assert_eq!(done, Ok(()));
    assert_eq!(world.maps[0].grid[0][0], Some(MapData::Object(chest())));
    assert_eq!(world.info.player, None);
}

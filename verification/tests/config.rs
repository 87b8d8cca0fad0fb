use radiance::characters::{Attack, Attribute, Character, Interactions, Modifier, ObjectUse};
use radiance::config::characters::{
    get_character_from_data, insert_character, AffectedBy, Attack as AttackData, CharacterData,
    Interactions as InteractionsData, InventorySize, ObjectUseData, Trait,
};
use radiance::config::game;
use radiance::config::objects::{insert_object, object_from_yaml, process_config};
use radiance::config::yaml::{find_entry, YamlNode};
use radiance::config::ConfigError;
use radiance::dialogs::{insert_dialog, insert_dialogs, Dialog, DialogOption};
use radiance::maps::{GameMap, MapData, MapInfo, Size};
use radiance::objects::{
    Object, ObjectInteraction, ObjectInteractionActivate, ObjectInteractionObjectUse, ObjectState,
};
use radiance::world::{GameData, GameInfo};

fn text(s: &str) -> YamlNode {
    YamlNode::Text(s.to_string())
}

fn entry(key: &str, value: YamlNode) -> (YamlNode, YamlNode) {
    (text(key), value)
}

fn hash(entries: Vec<(YamlNode, YamlNode)>) -> YamlNode {
    YamlNode::Hash(entries)
}

fn flag(name: &str, value: bool) -> ObjectState {
    ObjectState { name: name.to_string(), value }
}

fn door_document() -> YamlNode {
    hash(vec![
        entry("id", text("cellar_door")),
        entry("name", text("cellar door")),
        entry("category", text("door")),
        entry("icon", text("#!")),
        entry("comment", YamlNode::Integer(3)),
        entry("nothing", YamlNode::Null),
        entry(
            "state",
            YamlNode::Array(vec![
                hash(vec![entry("id", text("key_taken")), entry("default", YamlNode::Boolean(false))]),
                hash(vec![entry("id", text("open")), entry("other", YamlNode::Integer(1))]),
                hash(vec![]),
            ]),
        ),
        entry(
            "interactions",
            hash(vec![
                entry(
                    "object_use",
                    YamlNode::Array(vec![hash(vec![
                        entry("foreign_objects_id", text("brass_key")),
                        entry(
                            "self_action",
                            YamlNode::Array(vec![
                                hash(vec![entry("key_taken", YamlNode::Boolean(true))]),
                                hash(vec![
                                    entry("open", YamlNode::Boolean(false)),
                                    entry("ajar", YamlNode::Boolean(true)),
                                ]),
                            ]),
                        ),
                        entry("consume_item", YamlNode::Boolean(true)),
                    ])]),
                ),
                entry("world", YamlNode::Array(vec![])),
                entry(
                    "activate",
                    YamlNode::Array(vec![
                        hash(vec![
                            entry("category", text("travel")),
                            entry(
                                "prereqs",
                                YamlNode::Array(vec![hash(vec![entry("key_taken", YamlNode::Boolean(true))])]),
                            ),
                            entry("destination", text("cellar")),
                        ]),
                        hash(vec![]),
                    ]),
                ),
            ]),
        ),
    ])
}

fn door() -> Object {
    Object {
        id: "cellar_door".to_string(),
        name: "cellar door".to_string(),
        category: "door".to_string(),
        icon: '#',
        state: vec![flag("key_taken", false), flag("open", true), flag("", true)],
        interactions: vec![
            ObjectInteraction::ObjectInteractionObjectUse(ObjectInteractionObjectUse {
                foreign_object_id: "brass_key".to_string(),
                self_action: vec![flag("key_taken", true), flag("ajar", true)],
                consume_item: true,
            }),
            ObjectInteraction::ObjectInteractionActivate(ObjectInteractionActivate {
                category: "travel".to_string(),
                prereqs: vec![flag("key_taken", true)],
                destination: Some("cellar".to_string()),
            }),
            ObjectInteraction::ObjectInteractionActivate(ObjectInteractionActivate {
                category: "".to_string(),
                prereqs: vec![],
                destination: None,
            }),
        ],
    }
}

#[test]
fn object_is_read_from_its_document() {
    assert_eq!(object_from_yaml(&door_document()), Ok(door()));
    let mut objects = vec![];
    assert_eq!(process_config(&mut objects, &vec![door_document(), YamlNode::Null]), Ok(()));
    assert_eq!(objects, vec![door()]);
    let renamed = hash(vec![entry("id", text("cellar_door")), entry("name", text("trapdoor"))]);
    assert_eq!(process_config(&mut objects, &vec![renamed]), Ok(()));
    assert_eq!(objects.len(), 1);
    assert_eq!(objects[0].name, "trapdoor");
    assert_eq!(objects[0].icon, ' ');
    assert!(objects[0].state.is_empty());
}

#[test]
fn object_documents_with_errors_are_refused() {
    let mut objects = vec![door()];
    assert_eq!(process_config(&mut objects, &vec![]), Err(ConfigError::NoDocument));
    assert_eq!(process_config(&mut objects, &vec![text("door")]), Err(ConfigError::NotAMapping));
    let cases = vec![
        (hash(vec![(YamlNode::Integer(1), text("x"))]), ConfigError::KeyNotText),
        (hash(vec![(YamlNode::Integer(1), YamlNode::Null)]), ConfigError::KeyNotText),
        (hash(vec![entry("id", YamlNode::Integer(7))]), ConfigError::NotText),
        (hash(vec![entry("icon", text(""))]), ConfigError::EmptyIcon),
        (hash(vec![entry("state", text("lit"))]), ConfigError::NotAList),
        (hash(vec![entry("state", YamlNode::Array(vec![text("lit")]))]), ConfigError::NotAMapping),
        (
            hash(vec![entry(
                "state",
                YamlNode::Array(vec![hash(vec![entry("default", text("yes"))])]),
            )]),
            ConfigError::NotABoolean,
        ),
        (hash(vec![entry("interactions", YamlNode::Array(vec![]))]), ConfigError::NotAMapping),
        (
            hash(vec![entry("interactions", hash(vec![entry("activate", hash(vec![]))]))]),
            ConfigError::NotAList,
        ),
        (
            hash(vec![entry(
                "interactions",
                hash(vec![entry(
                    "object_use",
                    YamlNode::Array(vec![hash(vec![entry("consume_item", YamlNode::Integer(1))])]),
                )]),
            )]),
            ConfigError::NotABoolean,
        ),
        (
            hash(vec![entry(
                "interactions",
                hash(vec![entry(
                    "activate",
                    YamlNode::Array(vec![hash(vec![entry(
                        "prereqs",
                        YamlNode::Array(vec![hash(vec![(YamlNode::Boolean(true), YamlNode::Boolean(true))])]),
                    )])]),
                )]),
            )]),
            ConfigError::KeyNotText,
        ),
        (
            hash(vec![entry("id", text("lamp")), entry("name", YamlNode::Boolean(true)), entry("icon", text(""))]),
            ConfigError::NotText,
        ),
    ];
    for (document, error) in cases {
        assert_eq!(object_from_yaml(&document), Err(error));
        assert_eq!(process_config(&mut objects, &vec![document]), Err(error));
        assert_eq!(objects, vec![door()]);
    }
}

fn blank_world() -> GameData {
    GameData {
        maps: vec![],
        dialogs: vec![],
        info: GameInfo {
            name: "".to_string(),
            description: "".to_string(),
            author: "".to_string(),
            min_screen_cols: 0,
            min_screen_rows: 0,
            starting_map: "".to_string(),
            starting_position_x: 0,
            starting_position_y: 0,
            player: None,
        },
    }
}

fn size(first: &str, a: i64, second: &str, b: i64) -> YamlNode {
    hash(vec![entry(first, YamlNode::Integer(a)), entry(second, YamlNode::Integer(b))])
}

#[test]
fn game_is_read_from_its_document() {
    let mut world = blank_world();
    let document = hash(vec![
        entry("name", text("Castle")),
        entry("author", text("Ada")),
        entry("description", text("A castle.")),
        entry("license", text("none")),
        entry("min_screen_size", size("height", 24, "width", 80)),
        entry("starting_map", text("hall")),
        entry("starting_position", size("x", 3, "y", 65541)),
        entry("name", text("Castle II")),
    ]);
    assert_eq!(game::process_config(&mut world, &vec![document]), Ok(()));
    let mut expected = blank_world();
    expected.info.name = "Castle II".to_string();
    expected.info.author = "Ada".to_string();
    expected.info.description = "A castle.".to_string();
    expected.info.min_screen_cols = 80;
    expected.info.min_screen_rows = 24;
    expected.info.starting_map = "hall".to_string();
    expected.info.starting_position_x = 3;
    expected.info.starting_position_y = 5;
    assert_eq!(world, expected);
    let negative = hash(vec![entry("min_screen_size", size("width", -1, "height", 65535))]);
    assert_eq!(game::process_config(&mut world, &vec![negative]), Ok(()));
    assert_eq!((world.info.min_screen_cols, world.info.min_screen_rows), (65535, 65535));
}

#[test]
fn game_documents_with_errors_leave_the_world_alone() {
    let cases = vec![
        (vec![], ConfigError::NoDocument),
        (vec![YamlNode::Array(vec![])], ConfigError::NotAMapping),
        (vec![hash(vec![entry("name", text("Castle")), (YamlNode::Null, text("x"))])], ConfigError::KeyNotText),
        (vec![hash(vec![entry("name", text("Castle")), entry("author", YamlNode::Integer(1))])], ConfigError::NotText),
        (vec![hash(vec![entry("name", text("Castle")), entry("min_screen_size", text("80x20"))])], ConfigError::NotAMapping),
        (
            vec![hash(vec![entry("name", text("Castle")), entry("min_screen_size", hash(vec![entry("width", YamlNode::Integer(80))]))])],
            ConfigError::NotAnInteger,
        ),
        (
            vec![hash(vec![entry("starting_position", hash(vec![entry("x", text("1")), entry("y", YamlNode::Integer(1))]))])],
            ConfigError::NotAnInteger,
        ),
    ];
    for (documents, error) in cases {
        let mut world = blank_world();
        assert_eq!(game::process_config(&mut world, &documents), Err(error));
        assert_eq!(world, blank_world());
    }
}

#[test]
fn first_entry_with_a_key_is_found() {
    let entries = vec![
        (YamlNode::Integer(1), text("number")),
        entry("width", YamlNode::Integer(80)),
        entry("width", YamlNode::Integer(90)),
    ];
    assert_eq!(find_entry(&entries, "width"), Some(&YamlNode::Integer(80)));
    assert_eq!(find_entry(&entries, "height"), None);
    assert_eq!(YamlNode::Integer(4).as_i64(), Some(4));
    assert_eq!(text("4").as_i64(), None);
    assert_eq!(YamlNode::Boolean(true).as_bool(), Some(true));
    assert_eq!(YamlNode::Null.as_bool(), None);
    assert!(YamlNode::Null.is_null());
    assert!(!YamlNode::BadValue.is_null());
    assert_eq!(text("a").as_str(), Some(&"a".to_string()));
    assert_eq!(YamlNode::Real("1.5".to_string()).as_str(), None);
    assert!(YamlNode::Array(vec![]).as_vec().is_some());
    assert!(YamlNode::Array(vec![]).as_hash().is_none());
    assert!(hash(vec![]).as_hash().is_some());
    assert!(YamlNode::Alias(1).as_vec().is_none());
}

fn hero_data() -> CharacterData {
    CharacterData {
        id: "player".to_string(),
        name: "Hero".to_string(),
        icon: '@',
        inventory_size: InventorySize { width: 3, height: 2 },
        traits: vec![
            Trait { id: "str".to_string(), display_name: "Strength".to_string(), starting_value: 5, max_value: 9 },
            Trait { id: "wit".to_string(), display_name: "Wits".to_string(), starting_value: 7, max_value: 8 },
        ],
        interactions: InteractionsData {
            attacks: vec![AttackData {
                id: "punch".to_string(),
                display_name: "Punch".to_string(),
                base_damage: -4,
                affected_by: vec![
                    AffectedBy { attribute_id: "str".to_string(), effect_per_point: "+0.5".to_string() },
                    AffectedBy { attribute_id: "wit".to_string(), effect_per_point: "-".to_string() },
                ],
            }],
            object_use: vec![ObjectUseData {
                object_id: "fish".to_string(),
                set_dialog: "purr".to_string(),
                consume_item: true,
            }],
        },
        dialog_id: "hello".to_string(),
    }
}

fn hero() -> Character {
    Character {
        id: "player".to_string(),
        name: "Hero".to_string(),
        attributes: vec![
            Attribute { id: "str".to_string(), display_name: "Strength".to_string(), min_val: 0, max_val: 9, current_val: 5 },
            Attribute { id: "wit".to_string(), display_name: "Wits".to_string(), min_val: 0, max_val: 8, current_val: 7 },
        ],
        inventory: vec![vec![None, None], vec![None, None], vec![None, None]],
        icon: '@',
        interactions: Interactions {
            attacks: vec![Attack {
                id: "punch".to_string(),
                display_name: "Punch".to_string(),
                base_damage: -4,
                affected_by: vec![
                    Modifier { attribute_id: "str".to_string(), sign: '+', value: "0.5".to_string() },
                    Modifier { attribute_id: "wit".to_string(), sign: '-', value: "".to_string() },
                ],
            }],
            object_use: vec![ObjectUse {
                object_id: "fish".to_string(),
                set_dialog: "purr".to_string(),
                consume_item: true,
            }],
        },
        dialog_id: "hello".to_string(),
    }
}

#[test]
fn character_is_made_from_its_definition() {
    let mut characters = vec![];
    assert_eq!(get_character_from_data(&mut characters, hero_data()), Ok(()));
    assert_eq!(characters, vec![hero()]);
    let mut second = hero_data();
    second.id = "guard".to_string();
    second.inventory_size = InventorySize { width: 0, height: 5 };
    assert_eq!(get_character_from_data(&mut characters, second), Ok(()));
    assert_eq!(characters.len(), 2);
    assert!(characters[1].inventory.is_empty());
    let mut again = hero_data();
    again.name = "Heroine".to_string();
    assert_eq!(get_character_from_data(&mut characters, again), Ok(()));
    assert_eq!(characters.len(), 2);
    assert_eq!(characters[0].name, "Heroine");
    assert_eq!(characters[1].id, "guard");
}

#[test]
fn character_definitions_with_errors_are_refused() {
    let mut characters = vec![hero()];
    let mut narrow = hero_data();
    narrow.inventory_size = InventorySize { width: -1, height: 2 };
    narrow.interactions.attacks[0].affected_by[0].effect_per_point = "".to_string();
    assert_eq!(get_character_from_data(&mut characters, narrow), Err(ConfigError::InventorySize));
    let mut low = hero_data();
    low.inventory_size = InventorySize { width: 1, height: -2 };
    assert_eq!(get_character_from_data(&mut characters, low), Err(ConfigError::InventorySize));
    let mut unsigned = hero_data();
    unsigned.interactions.attacks[0].affected_by[1].effect_per_point = "".to_string();
    assert_eq!(get_character_from_data(&mut characters, unsigned), Err(ConfigError::EmptyModifier));
    assert_eq!(characters, vec![hero()]);
}

#[test]
fn entries_are_kept_under_their_ids() {
    let mut characters = vec![];
    insert_character(&mut characters, hero());
    let mut other = hero();
    other.icon = 'H';
    insert_character(&mut characters, other);
    assert_eq!(characters.len(), 1);
    assert_eq!(characters[0].icon, 'H');
    let mut objects = vec![];
    insert_object(&mut objects, door());
    let mut key = door();
    key.id = "key".to_string();
    insert_object(&mut objects, key);
    let mut second = door();
    second.icon = '+';
    insert_object(&mut objects, second);
    assert_eq!(objects.len(), 2);
    assert_eq!((objects[0].id.as_str(), objects[0].icon), ("cellar_door", '+'));
    assert_eq!(objects[1].id, "key");
}

fn dialog(id: &str, line: &str, next_0: &str, next_1: &str) -> Dialog {
    Dialog {
        id: id.to_string(),
        npc_dialog: line.to_string(),
        option_0: DialogOption { dialog: "first".to_string(), next: next_0.to_string() },
        option_1: DialogOption { dialog: "second".to_string(), next: next_1.to_string() },
    }
}

#[test]
fn later_dialog_replaces_the_one_with_its_id() {
    let mut dialogs = vec![dialog("hello", "Hello", "exit", "exit")];
    insert_dialogs(
        &mut dialogs,
        &vec![
            dialog("more", "More", "exit", "exit"),
            dialog("hello", "Hi", "more", "exit"),
            dialog("more", "Even more", "inventory", "exit"),
        ],
    );
    assert_eq!(
        dialogs,
        vec![dialog("hello", "Hi", "more", "exit"), dialog("more", "Even more", "inventory", "exit")]
    );
    insert_dialog(&mut dialogs, dialog("bye", "Bye", "exit", "exit"));
    assert_eq!(dialogs.len(), 3);
    assert_eq!(dialogs[2].id, "bye");
}

fn room(id: &str, width: usize, height: usize) -> GameMap {
    GameMap {
        info: MapInfo {
            id: id.to_string(),
            description: "".to_string(),
            size: Size { width: width as i64, height: height as i64 },
        },
        grid: vec![(0..height).map(|_| None).collect(); 0]
            .into_iter()
            .chain((0..width).map(|_| (0..height).map(|_| None).collect()))
            .collect(),
    }
}

fn good_world() -> GameData {
    let mut world = blank_world();
    world.info.starting_map = "hall".to_string();
    world.dialogs = vec![dialog("hello", "Hello", "more", "exit"), dialog("more", "More", "inventory", "hello")];
    let mut hall = room("hall", 3, 3);
    hall.grid[0][1] = Some(MapData::Object(door()));
    let mut cat = hero();
    cat.id = "cat".to_string();
    cat.interactions.object_use[0].set_dialog = "more".to_string();
    cat.interactions.object_use.push(ObjectUse {
        object_id: "key".to_string(),
        set_dialog: "".to_string(),
        consume_item: false,
    });
    hall.grid[1][1] = Some(MapData::Character(cat));
    let mut cellar = room("cellar", 3, 3);
    cellar.grid[2][1] = Some(MapData::Object(door()));
    world.maps = vec![hall, cellar];
    world
}

#[test]
fn good_world_is_valid() {
    assert_eq!(good_world().validate(), Ok(()));
    assert!(good_world().dialogs_linked());
    assert!(good_world().characters_linked());
    assert!(good_world().doors_all_paired());
    assert_eq!(blank_world().validate(), Err(ConfigError::UnknownStartingMap));
}

#[test]
fn missing_references_are_found() {
    let mut world = good_world();
    world.info.starting_map = "attic".to_string();
    world.dialogs[0].option_0.next = "nowhere".to_string();
    assert_eq!(world.validate(), Err(ConfigError::UnknownStartingMap));
    world.info.starting_map = "cellar".to_string();
    assert_eq!(world.validate(), Err(ConfigError::UnknownDialog));
    assert!(!world.dialogs_linked());
    let mut world = good_world();
    world.dialogs[1].option_1.next = "Hello".to_string();
    world.maps[1].grid[2][1] = None;
    assert_eq!(world.validate(), Err(ConfigError::UnknownDialog));
    let mut world = good_world();
    if let Some(MapData::Character(cat)) = &mut world.maps[0].grid[1][1] {
        cat.dialog_id = "meow".to_string();
    }
    assert!(!world.characters_linked());
    assert_eq!(world.validate(), Err(ConfigError::UnknownDialog));
    let mut world = good_world();
    if let Some(MapData::Character(cat)) = &mut world.maps[0].grid[1][1] {
        cat.interactions.object_use[0].set_dialog = "meow".to_string();
    }
    assert_eq!(world.validate(), Err(ConfigError::UnknownDialog));
}

#[test]
fn doors_without_exactly_one_other_side_are_found() {
    let mut world = good_world();
    world.maps[1].grid[2][1] = None;
    assert!(!world.doors_all_paired());
    assert_eq!(world.validate(), Err(ConfigError::UnpairedDoor));
    let mut world = good_world();
    world.maps[1].grid[0][0] = Some(MapData::Object(door()));
    assert_eq!(world.validate(), Err(ConfigError::UnpairedDoor));
    let mut world = good_world();
    world.maps[1].grid[2][1] = None;
    world.maps[0].grid[2][1] = Some(MapData::Object(door()));
    assert_eq!(world.validate(), Err(ConfigError::UnpairedDoor));
    let mut world = good_world();
    let mut key = door();
    key.category = "collectable".to_string();
    world.maps[0].grid[2][2] = Some(MapData::Object(key));
    assert_eq!(world.validate(), Err(ConfigError::UnpairedDoor));
    let mut world = good_world();
    if let Some(MapData::Object(far)) = &mut world.maps[1].grid[2][1] {
        far.category = "collidable".to_string();
    }
    assert_eq!(world.validate(), Err(ConfigError::UnpairedDoor));
    let mut world = good_world();
    let mut gate = door();
    gate.id = "gate".to_string();
    gate.category = "collidable".to_string();
    world.maps[0].grid[2][2] = Some(MapData::Object(gate));
    assert_eq!(world.validate(), Ok(()));
}

fn node_from_yaml(yaml: &yaml_rust::Yaml) -> YamlNode {
    match yaml {
        yaml_rust::Yaml::Real(text) => YamlNode::Real(text.clone()),
        yaml_rust::Yaml::Integer(number) => YamlNode::Integer(*number),
        yaml_rust::Yaml::String(text) => YamlNode::Text(text.clone()),
        yaml_rust::Yaml::Boolean(value) => YamlNode::Boolean(*value),
        yaml_rust::Yaml::Array(items) => YamlNode::Array(items.iter().map(node_from_yaml).collect()),
        yaml_rust::Yaml::Hash(entries) => YamlNode::Hash(
            entries.iter().map(|(key, value)| (node_from_yaml(key), node_from_yaml(value))).collect(),
        ),
        yaml_rust::Yaml::Alias(id) => YamlNode::Alias(*id),
        yaml_rust::Yaml::Null => YamlNode::Null,
        yaml_rust::Yaml::BadValue => YamlNode::BadValue,
    }
}

fn documents(text: &str) -> Vec<YamlNode> {
    yaml_rust::YamlLoader::load_from_str(text).unwrap().iter().map(node_from_yaml).collect()
}

#[test]
fn object_file_is_read_as_written() {
    let file = "\
id: cellar_door
name: cellar door
category: door
icon: '#'
state:
  - id: key_taken
    default: false
interactions:
  activate:
    - category: travel
      prereqs:
        - key_taken: true
      destination: cellar
  object_use:
    - foreign_objects_id: brass_key
      self_action:
        - key_taken: true
      consume_item: true
";
    let mut objects = vec![];
    assert_eq!(process_config(&mut objects, &documents(file)), Ok(()));
    assert_eq!(
        objects,
        vec![Object {
            id: "cellar_door".to_string(),
            name: "cellar door".to_string(),
            category: "door".to_string(),
            icon: '#',
            state: vec![flag("key_taken", false)],
            interactions: vec![
                ObjectInteraction::ObjectInteractionActivate(ObjectInteractionActivate {
                    category: "travel".to_string(),
                    prereqs: vec![flag("key_taken", true)],
                    destination: Some("cellar".to_string()),
                }),
                ObjectInteraction::ObjectInteractionObjectUse(ObjectInteractionObjectUse {
                    foreign_object_id: "brass_key".to_string(),
                    self_action: vec![flag("key_taken", true)],
                    consume_item: true,
                }),
            ],
        }]
    );
    let bare = "id: rock\nname: rock\ncategory: collidable\nicon: o\nstate:\ninteractions:\n";
    assert_eq!(process_config(&mut objects, &documents(bare)), Ok(()));
    assert_eq!(objects[1].id, "rock");
    assert!(objects[1].state.is_empty());
    assert!(objects[1].interactions.is_empty());
    assert_eq!(process_config(&mut objects, &documents("")), Err(ConfigError::NoDocument));
    assert_eq!(process_config(&mut objects, &documents("id: 7\n")), Err(ConfigError::NotText));
}

#[test]
fn game_file_is_read_as_written() {
    let file = "\
name: Castle
author: Ada
description: A castle.
min_screen_size:
  width: 80
  height: 20
starting_map: hall
starting_position:
  x: 2
  y: 3
";
    let mut world = blank_world();
    assert_eq!(game::process_config(&mut world, &documents(file)), Ok(()));
    assert_eq!(world.info.name, "Castle");
    assert_eq!(world.info.author, "Ada");
    assert_eq!(world.info.description, "A castle.");
    assert_eq!((world.info.min_screen_cols, world.info.min_screen_rows), (80, 20));
    assert_eq!(world.info.starting_map, "hall");
    assert_eq!((world.info.starting_position_x, world.info.starting_position_y), (2, 3));
    let missing = "starting_position:\n  x: 2\n";
    assert_eq!(game::process_config(&mut world, &documents(missing)), Err(ConfigError::NotAnInteger));
    assert_eq!((world.info.starting_position_x, world.info.starting_position_y), (2, 3));
}

//! Building the maps of a world from their definitions.

use crate::catalog::lookup_by;
use crate::characters::{Character, CharacterView};
use crate::config::ConfigError;
use crate::config::characters::{character_key, find_character};
use crate::config::objects::{find_object, object_key};
use crate::config::maps::{MapItemData, MapItemDataView, MapObject, MapObjectView};
use crate::grid::{empty_column, empty_grid, fits_index, grid_size_ok, slot_in_grid, with_slot};
use crate::maps::{GameMap, GameMapView, GridView, MapData, MapDataView, MapInfo, MapInfoView};
use crate::objects::{Object, ObjectView};
use crate::world::{GameData, GameDataView, GameInfoView};
use vstd::prelude::*;

verus! {

/// What the id `id` places on a map: the object known under it, else the
/// character known under it, else nothing.
pub open spec fn occupant_for(
    id: Seq<char>,
    characters: Seq<CharacterView>,
    objects: Seq<ObjectView>,
) -> Option<MapDataView> {
    match lookup_by(objects, object_key(), id) {
        Some(object) => Some(MapDataView::Object(object)),
        None => match lookup_by(characters, character_key(), id) {
            Some(character) => Some(MapDataView::Character(character)),
            None => None,
        },
    }
}

/// The grid after one placement. An id that names nothing places nothing;
/// one that names something must be placed on a cell of the grid.
pub open spec fn place_one(
    grid: GridView,
    placed: MapObjectView,
    characters: Seq<CharacterView>,
    objects: Seq<ObjectView>,
) -> Result<GridView, ConfigError> {
    match occupant_for(placed.id, characters, objects) {
        None => Ok(grid),
        Some(occupant) => if slot_in_grid(
            grid,
            placed.position.x as int,
            placed.position.y as int,
        ) {
            Ok(with_slot(grid, placed.position.x as int, placed.position.y as int, Some(occupant)))
        } else {
            Err(ConfigError::PositionOutsideMap)
        },
    }
}

/// The grid after each placement was made in turn; the first error ends
/// the work.
pub open spec fn place_all(
    grid: GridView,
    placed: Seq<MapObjectView>,
    characters: Seq<CharacterView>,
    objects: Seq<ObjectView>,
) -> Result<GridView, ConfigError>
    decreases placed.len(),
{
    if placed.len() == 0 {
        Ok(grid)
    } else {
        match place_all(grid, placed.drop_last(), characters, objects) {
            Ok(before) => place_one(before, placed.last(), characters, objects),
            Err(error) => Err(error),
        }
    }
}

/// The map a definition describes.
pub open spec fn map_of(
    item: MapItemDataView,
    characters: Seq<CharacterView>,
    objects: Seq<ObjectView>,
) -> Result<GameMapView, ConfigError> {
    if !grid_size_ok(item.size.width as int, item.size.height as int) {
        Err(ConfigError::MapSize)
    } else {
        match place_all(
            empty_grid(item.size.width as int, item.size.height as int),
            item.objects,
            characters,
            objects,
        ) {
            Ok(grid) => Ok(
                GameMapView {
                    info: MapInfoView {
                        id: item.id,
                        description: item.description,
                        size: item.size,
                    },
                    grid,
                },
            ),
            Err(error) => Err(error),
        }
    }
}

/// The maps that the definitions describe, in their order; the first error
/// ends the work.
pub open spec fn maps_of(
    items: Seq<MapItemDataView>,
    characters: Seq<CharacterView>,
    objects: Seq<ObjectView>,
) -> Result<Seq<GameMapView>, ConfigError>
    decreases items.len(),
{
    if items.len() == 0 {
        Ok(Seq::empty())
    } else {
        match maps_of(items.drop_last(), characters, objects) {
            Ok(maps) => match map_of(items.last(), characters, objects) {
                Ok(map) => Ok(maps.push(map)),
                Err(error) => Err(error),
            },
            Err(error) => Err(error),
        }
    }
}

impl GameDataView {
    /// The world with the maps that `items` describe added to its maps,
    /// and with the character known as `"player"`, if there is one, as its
    /// player.
    pub open spec fn set_map_grid(
        self,
        items: Seq<MapItemDataView>,
        characters: Seq<CharacterView>,
        objects: Seq<ObjectView>,
    ) -> Result<GameDataView, ConfigError> {
        match maps_of(items, characters, objects) {
            Ok(maps) => Ok(
                GameDataView {
                    maps: self.maps + maps,
                    info: GameInfoView {
                        player: match lookup_by(characters, character_key(), "player"@) {
                            Some(player) => Some(player),
                            None => self.info.player,
                        },
                        ..self.info
                    },
                    ..self
                },
            ),
            Err(error) => Err(error),
        }
    }
}

/// Whether the grid has `width` columns of `height` rows each.
pub open spec fn is_rectangle(grid: GridView, width: int, height: int) -> bool {
    &&& grid.len() == width
    &&& forall|c: int| 0 <= c < grid.len() ==> (#[trigger] grid[c]).len() == height
}

/// Placing occupants on a rectangle leaves a rectangle of the same size.
proof fn lemma_placing_keeps_rectangle(
    grid: GridView,
    placed: Seq<MapObjectView>,
    characters: Seq<CharacterView>,
    objects: Seq<ObjectView>,
    width: int,
    height: int,
)
    requires
        is_rectangle(grid, width, height),
        place_all(grid, placed, characters, objects) is Ok,
    ensures
        is_rectangle(place_all(grid, placed, characters, objects)->Ok_0, width, height),
    decreases placed.len(),
{
    if placed.len() > 0 {
        lemma_placing_keeps_rectangle(
            grid,
            placed.drop_last(),
            characters,
            objects,
            width,
            height,
        );
    }
}

/// A map is built to the size its definition gives: it has as many columns
/// as the definition is wide, and every column has as many rows as the
/// definition is high.
pub proof fn law_maps_are_built_to_size(
    item: MapItemDataView,
    characters: Seq<CharacterView>,
    objects: Seq<ObjectView>,
)
    requires
        map_of(item, characters, objects) is Ok,
    ensures
        is_rectangle(
            map_of(item, characters, objects)->Ok_0.grid,
            item.size.width as int,
            item.size.height as int,
        ),
        map_of(item, characters, objects)->Ok_0.info.size == item.size,
        map_of(item, characters, objects)->Ok_0.info.id == item.id,
{
    lemma_placing_keeps_rectangle(
        empty_grid(item.size.width as int, item.size.height as int),
        item.objects,
        characters,
        objects,
        item.size.width as int,
        item.size.height as int,
    );
}

/// A copy of what the id `id` places on a map.
fn occupant_for_id(id: &String, characters: &Vec<Character>, objects: &Vec<Object>) -> (occupant:
    Option<MapData>)
    ensures
        occupant.deep_view() == occupant_for(id@, characters.deep_view(), objects.deep_view()),
{
    let at = find_object(objects, id.as_str());
    if at < objects.len() {
        assert(objects.deep_view()[at as int] == objects[at as int]@);
        return Some(MapData::Object(objects[at].clone()));
    }
    let at = find_character(characters, id.as_str());
    if at < characters.len() {
        assert(characters.deep_view()[at as int] == characters[at as int]@);
        return Some(MapData::Character(characters[at].clone()));
    }
    None
}

/// Makes each placement of `placed` on `map` in turn.
fn place_on_map(
    map: &mut GameMap,
    placed: &Vec<MapObject>,
    characters: &Vec<Character>,
    objects: &Vec<Object>,
) -> (done: Result<(), ConfigError>)
    ensures
        final(map)@.info == old(map)@.info,
        match place_all(
            old(map)@.grid,
            placed.deep_view(),
            characters.deep_view(),
            objects.deep_view(),
        ) {
            Ok(grid) => done is Ok && final(map)@.grid == grid,
            Err(error) => done == Err::<(), ConfigError>(error),
        },
{
    let mut i: usize = 0;
    assert(placed.deep_view().take(0) =~= Seq::empty());
    while i < placed.len()
        invariant
            i <= placed.len(),
            map@.info == old(map)@.info,
            place_all(
                old(map)@.grid,
                placed.deep_view().take(i as int),
                characters.deep_view(),
                objects.deep_view(),
            ) == Ok::<GridView, ConfigError>(map@.grid),
        decreases placed.len() - i,
    {
        proof {
            let all = placed.deep_view();
            assert(all.take(i + 1).drop_last() =~= all.take(i as int));
            assert(all.take(i + 1).last() == placed[i as int]@);
            if i + 1 < placed.len() {
                lemma_place_all_error_stays(
                    old(map)@.grid,
                    all,
                    characters.deep_view(),
                    objects.deep_view(),
                    i + 1,
                );
            } else {
                assert(all.take(i + 1) =~= all);
            }
        }
        let x = placed[i].position.x;
        let y = placed[i].position.y;
        match occupant_for_id(&placed[i].id, characters, objects) {
            None => {},
            Some(occupant) => {
                if x < map.grid.len() && y < map.grid[x].len() {
                    map.set_cell(x, y, Some(occupant));
                } else {
                    return Err(ConfigError::PositionOutsideMap);
                }
            },
        }
        i += 1;
    }
    assert(placed.deep_view().take(placed.len() as int) =~= placed.deep_view());
    Ok(())
}

/// An error met after the first `k` placements is the error of the whole
/// list.
proof fn lemma_place_all_error_stays(
    grid: GridView,
    placed: Seq<MapObjectView>,
    characters: Seq<CharacterView>,
    objects: Seq<ObjectView>,
    k: int,
)
    requires
        0 <= k <= placed.len(),
    ensures
        place_all(grid, placed.take(k), characters, objects) is Err ==> place_all(
            grid,
            placed,
            characters,
            objects,
        ) == place_all(grid, placed.take(k), characters, objects),
    decreases placed.len() - k,
{
    if k == placed.len() {
        assert(placed.take(k) =~= placed);
    } else {
        assert(placed.take(k + 1).drop_last() =~= placed.take(k));
        lemma_place_all_error_stays(grid, placed, characters, objects, k + 1);
    }
}

/// An error met among the first `k` maps is the error of the whole list.
proof fn lemma_build_maps_error_stays(
    items: Seq<MapItemDataView>,
    characters: Seq<CharacterView>,
    objects: Seq<ObjectView>,
    k: int,
)
    requires
        0 <= k <= items.len(),
    ensures
        maps_of(items.take(k), characters, objects) is Err ==> maps_of(items, characters, objects)
            == maps_of(items.take(k), characters, objects),
    decreases items.len() - k,
{
    if k == items.len() {
        assert(items.take(k) =~= items);
    } else {
        assert(items.take(k + 1).drop_last() =~= items.take(k));
        lemma_build_maps_error_stays(items, characters, objects, k + 1);
    }
}

/// A map of the size that `item` gives, without occupants.
fn empty_map(item: &MapItemData) -> (map: GameMap)
    requires
        grid_size_ok(item.size.width as int, item.size.height as int),
    ensures
        map@.info == (MapInfoView {
            id: item@.id,
            description: item@.description,
            size: item@.size,
        }),
        map@.grid == empty_grid::<MapDataView>(item.size.width as int, item.size.height as int),
{
    let width = item.size.width as usize;
    let height = item.size.height as usize;
    let mut grid: Vec<Vec<Option<MapData>>> = Vec::new();
    let mut c: usize = 0;
    while c < width
        invariant
            c <= width,
            grid@.len() == c,
            forall|j: int|
                0 <= j < c ==> (#[trigger] grid@[j]).deep_view() =~= Seq::new(
                    height as nat,
                    |r: int| None::<MapDataView>,
                ),
        decreases width - c,
    {
        let column = empty_column::<MapData>(height);
        assert(column.deep_view() =~= Seq::new(height as nat, |r: int| None::<MapDataView>));
        grid.push(column);
        c += 1;
    }
    assert(grid.deep_view() =~= empty_grid::<MapDataView>(width as int, height as int));
    GameMap {
        info: MapInfo {
            id: item.id.clone(),
            description: item.description.clone(),
            size: item.size,
        },
        grid,
    }
}

/// The map that `item` describes.
pub fn build_map(item: &MapItemData, characters: &Vec<Character>, objects: &Vec<Object>) -> (built:
    Result<GameMap, ConfigError>)
    ensures
        match map_of(item@, characters.deep_view(), objects.deep_view()) {
            Ok(map) => built is Ok && built->Ok_0@ == map,
            Err(error) => built == Err::<GameMap, ConfigError>(error),
        },
{
    if !fits_index(item.size.width) || !fits_index(item.size.height) {
        return Err(ConfigError::MapSize);
    }
    let mut map = empty_map(item);
    match place_on_map(&mut map, &item.objects, characters, objects) {
        Ok(()) => Ok(map),
        Err(error) => Err(error),
    }
}

impl GameData {
    /// Adds the maps that `map_item_data` describes to the world, each with
    /// copies of the characters and objects placed on it, and makes the
    /// character known as `"player"` the player. Where a definition has an
    /// error the world stays as it was.
    pub fn set_map_grid(
        &mut self,
        map_item_data: Vec<MapItemData>,
        characters: Vec<Character>,
        objects: Vec<Object>,
    ) -> (done: Result<(), ConfigError>)
        ensures
            match old(self)@.set_map_grid(
                map_item_data.deep_view(),
                characters.deep_view(),
                objects.deep_view(),
            ) {
                Ok(world) => done is Ok && final(self)@ == world,
                Err(error) => done == Err::<(), ConfigError>(error) && final(self)@ == old(self)@,
            },
    {
        let mut maps: Vec<GameMap> = Vec::new();
        let mut i: usize = 0;
        assert(map_item_data.deep_view().take(0) =~= Seq::empty());
        assert(maps.deep_view() =~= Seq::<GameMapView>::empty());
        while i < map_item_data.len()
            invariant
                i <= map_item_data.len(),
                *self == *old(self),
                maps_of(
                    map_item_data.deep_view().take(i as int),
                    characters.deep_view(),
                    objects.deep_view(),
                ) == Ok::<Seq<GameMapView>, ConfigError>(maps.deep_view()),
            decreases map_item_data.len() - i,
        {
            proof {
                let all = map_item_data.deep_view();
                assert(all.take(i + 1).drop_last() =~= all.take(i as int));
                assert(all.take(i + 1).last() == map_item_data[i as int]@);
                lemma_build_maps_error_stays(
                    all,
                    characters.deep_view(),
                    objects.deep_view(),
                    i + 1,
                );
            }
            let ghost before = maps.deep_view();
            match build_map(&map_item_data[i], &characters, &objects) {
                Ok(map) => {
                    let ghost built = map@;
                    maps.push(map);
                    assert(maps.deep_view() =~= before.push(built));
                },
                Err(error) => {
                    return Err(error);
                },
            }
            i += 1;
        }
        assert(map_item_data.deep_view().take(map_item_data.len() as int)
            =~= map_item_data.deep_view());
        let ghost added = maps.deep_view();
        let ghost had = self.maps.deep_view();
        self.maps.append(&mut maps);
        assert(self.maps.deep_view() =~= had + added);
        let at = find_character(&characters, "player");
        if at < characters.len() {
            assert(characters.deep_view()[at as int] == characters[at as int]@);
            self.info.player = Some(characters[at].clone());
        }
        Ok(())
    }
}

} // verus!

//! The world of one game: its maps, its dialogs, and the player's
//! character. Built once, then changed only cell by cell and slot by slot.

use crate::catalog::{lemma_position_by_is, position_by};
use crate::characters::{Character, CharacterView, InventoryView, empty_slot};
use crate::dialogs::{Dialog, DialogView};
use crate::grid::{lemma_first_slot_none, same_shape, slot_at};
use crate::maps::{GameMap, GameMapView, MapData, MapDataView};
use crate::objects::{Object, ObjectView};
use crate::session::GameState;
use vstd::prelude::*;

verus! {

/// What a game says of itself, where the player starts, and the player's
/// character once the world holds one.
#[derive(Debug, PartialEq, Eq)]
pub struct GameInfo {
    pub name: String,
    pub description: String,
    pub author: String,
    pub min_screen_cols: u16,
    pub min_screen_rows: u16,
    pub starting_map: String,
    pub starting_position_x: u16,
    pub starting_position_y: u16,
    pub player: Option<Character>,
}

pub struct GameInfoView {
    pub name: Seq<char>,
    pub description: Seq<char>,
    pub author: Seq<char>,
    pub min_screen_cols: u16,
    pub min_screen_rows: u16,
    pub starting_map: Seq<char>,
    pub starting_position_x: u16,
    pub starting_position_y: u16,
    pub player: Option<CharacterView>,
}

impl DeepView for GameInfo {
    type V = GameInfoView;

    open spec fn deep_view(&self) -> GameInfoView {
        GameInfoView {
            name: self.name@,
            description: self.description@,
            author: self.author@,
            min_screen_cols: self.min_screen_cols,
            min_screen_rows: self.min_screen_rows,
            starting_map: self.starting_map@,
            starting_position_x: self.starting_position_x,
            starting_position_y: self.starting_position_y,
            player: self.player.deep_view(),
        }
    }
}

impl View for GameInfo {
    type V = GameInfoView;

    open spec fn view(&self) -> GameInfoView {
        self.deep_view()
    }
}

#[derive(Debug, PartialEq, Eq)]
pub struct GameData {
    pub maps: Vec<GameMap>,
    pub dialogs: Vec<Dialog>,
    pub info: GameInfo,
}

pub struct GameDataView {
    pub maps: Seq<GameMapView>,
    pub dialogs: Seq<DialogView>,
    pub info: GameInfoView,
}

impl DeepView for GameData {
    type V = GameDataView;

    open spec fn deep_view(&self) -> GameDataView {
        GameDataView {
            maps: self.maps.deep_view(),
            dialogs: self.dialogs.deep_view(),
            info: self.info@,
        }
    }
}

impl View for GameData {
    type V = GameDataView;

    open spec fn view(&self) -> GameDataView {
        self.deep_view()
    }
}

/// The key under which a map is known: its id.
pub open spec fn map_key() -> spec_fn(GameMapView) -> Seq<char> {
    |map: GameMapView| map.info.id
}

/// `(m, c, r)` is where the search for the other side of a door ends: the
/// first cell holding an object with id `id`, in the first map other than
/// `current_map` that holds such an object.
pub open spec fn is_door_other_side(
    maps: Seq<GameMapView>,
    current_map: int,
    id: Seq<char>,
    m: int,
    c: int,
    r: int,
) -> bool {
    &&& 0 <= m < maps.len()
    &&& m != current_map
    &&& maps[m].find_object(id) == Some((c, r))
    &&& forall|m2: int|
        0 <= m2 < m && m2 != current_map ==> (#[trigger] maps[m2]).find_object(id) is None
}

/// Whether the two worlds have the same maps of the same dimensions, and
/// the same player inventory dimensions.
pub open spec fn same_dimensions(a: GameDataView, b: GameDataView) -> bool {
    &&& a.maps.len() == b.maps.len()
    &&& forall|m: int| 0 <= m < a.maps.len() ==> same_shape((#[trigger] a.maps[m]).grid, b.maps[m].grid)
    &&& a.info.player is Some <==> b.info.player is Some
    &&& a.info.player is Some ==> same_shape(a.info.player->0.inventory, b.info.player->0.inventory)
}

impl GameDataView {
    /// The map an id names, if some map has that id.
    pub open spec fn map_from_id(self, id: Seq<char>) -> Option<int> {
        let at = position_by(self.maps, map_key(), id);
        if at < self.maps.len() {
            Some(at)
        } else {
            None
        }
    }

    /// The occupant of cell `(x, y)` of map `m`; nothing where there is no
    /// such map or cell.
    pub open spec fn cell(self, m: int, x: int, y: int) -> Option<MapDataView> {
        if 0 <= m < self.maps.len() {
            self.maps[m].cell(x, y)
        } else {
            None
        }
    }

    pub open spec fn set_cell(
        self,
        m: int,
        x: int,
        y: int,
        occupant: Option<MapDataView>,
    ) -> GameDataView {
        if 0 <= m < self.maps.len() {
            GameDataView { maps: self.maps.update(m, self.maps[m].set_cell(x, y, occupant)), ..self }
        } else {
            self
        }
    }

    /// The player's inventory; a world without a player has no slots.
    pub open spec fn inventory(self) -> InventoryView {
        match self.info.player {
            Some(player) => player.inventory,
            None => Seq::empty(),
        }
    }

    /// The item in slot `(x, y)` of the player's inventory.
    pub open spec fn inventory_slot(self, x: int, y: int) -> Option<ObjectView> {
        slot_at(self.inventory(), x, y)
    }

    pub open spec fn remove_inventory_slot(self, x: int, y: int) -> GameDataView {
        match self.info.player {
            Some(player) => GameDataView {
                info: GameInfoView {
                    player: Some(player.remove_inventory_slot(x, y)),
                    ..self.info
                },
                ..self
            },
            None => self,
        }
    }

    /// Whether a copy of an object can join the player's inventory.
    pub open spec fn can_collect(self) -> bool {
        self.info.player is Some && crate::characters::first_empty_slot(self.inventory()) is Some
    }

    /// The world after `object`, lying in cell `(x, y)` of map `m`, was
    /// picked up: it is in the first empty inventory slot and its cell is
    /// empty. Nothing changes while the inventory cannot take it.
    pub open spec fn collect(self, m: int, x: int, y: int, object: ObjectView) -> GameDataView {
        if self.can_collect() {
            GameDataView {
                info: GameInfoView {
                    player: Some(self.info.player->0.collect_object(object)),
                    ..self.info
                },
                ..self
            }.set_cell(m, x, y, None)
        } else {
            self
        }
    }

    /// Where the door with id `id` leads from map `current_map`.
    pub open spec fn door_other_side(self, current_map: int, id: Seq<char>) -> Option<
        (int, int, int),
    > {
        if exists|m: int, c: int, r: int| is_door_other_side(self.maps, current_map, id, m, c, r) {
            Some(
                choose|p: (int, int, int)|
                    is_door_other_side(self.maps, current_map, id, p.0, p.1, p.2),
            )
        } else {
            None
        }
    }
}

/// At most one place is the other side of a door.
pub proof fn lemma_door_other_side_unique(
    maps: Seq<GameMapView>,
    current_map: int,
    id: Seq<char>,
    m1: int,
    c1: int,
    r1: int,
    m2: int,
    c2: int,
    r2: int,
)
    requires
        is_door_other_side(maps, current_map, id, m1, c1, r1),
        is_door_other_side(maps, current_map, id, m2, c2, r2),
    ensures
        m1 == m2,
        c1 == c2,
        r1 == r2,
{
    if m1 < m2 {
        assert(maps[m1].find_object(id) is None);
    } else if m2 < m1 {
        assert(maps[m2].find_object(id) is None);
    }
}

/// Once a place is known to be the other side of a door, `door_other_side`
/// names it.
pub proof fn lemma_door_other_side_is(
    data: GameDataView,
    current_map: int,
    id: Seq<char>,
    m: int,
    c: int,
    r: int,
)
    requires
        is_door_other_side(data.maps, current_map, id, m, c, r),
    ensures
        data.door_other_side(current_map, id) == Some((m, c, r)),
{
    let p = choose|p: (int, int, int)|
        is_door_other_side(data.maps, current_map, id, p.0, p.1, p.2);
    assert(is_door_other_side(data.maps, current_map, id, (m, c, r).0, (m, c, r).1, (m, c, r).2));
    lemma_door_other_side_unique(data.maps, current_map, id, m, c, r, p.0, p.1, p.2);
}

/// What `door_other_side` names is the other side of the door.
pub proof fn lemma_door_other_side_some(
    data: GameDataView,
    current_map: int,
    id: Seq<char>,
    m: int,
    c: int,
    r: int,
)
    requires
        data.door_other_side(current_map, id) == Some((m, c, r)),
    ensures
        is_door_other_side(data.maps, current_map, id, m, c, r),
{
    let (m0, c0, r0) = choose|m0: int, c0: int, r0: int|
        is_door_other_side(data.maps, current_map, id, m0, c0, r0);
    assert(is_door_other_side(
        data.maps,
        current_map,
        id,
        (m0, c0, r0).0,
        (m0, c0, r0).1,
        (m0, c0, r0).2,
    ));
}

impl GameData {
    /// The occupant of cell `(x, y)` of map `m`; nothing for an empty cell
    /// and where the world has no such map or cell.
    pub fn cell(&self, m: usize, x: usize, y: usize) -> (occupant: Option<&MapData>)
        ensures
            occupant.deep_view() == self@.cell(m as int, x as int, y as int),
    {
        if m < self.maps.len() {
            self.maps[m].cell(x, y)
        } else {
            None
        }
    }

    /// Replaces the occupant of cell `(x, y)` of map `m`; changes nothing
    /// where the world has no such map or cell.
    pub fn set_cell(&mut self, m: usize, x: usize, y: usize, occupant: Option<MapData>)
        ensures
            final(self)@ == old(self)@.set_cell(m as int, x as int, y as int, occupant.deep_view()),
    {
        if m < self.maps.len() {
            let ghost placed = occupant.deep_view();
            self.maps[m].set_cell(x, y, occupant);
            assert(self.maps.deep_view() =~= old(self).maps.deep_view().update(
                m as int,
                old(self).maps[m as int]@.set_cell(x as int, y as int, placed),
            ));
        }
    }

    /// The item in slot `(x, y)` of the player's inventory.
    pub fn inventory_slot(&self, x: usize, y: usize) -> (item: Option<&Object>)
        ensures
            item.deep_view() == self@.inventory_slot(x as int, y as int),
    {
        match &self.info.player {
            Some(player) => player.inventory_slot(x, y),
            None => None,
        }
    }

    /// Empties slot `(x, y)` of the player's inventory.
    pub fn remove_inventory_slot(&mut self, x: usize, y: usize)
        ensures
            final(self)@ == old(self)@.remove_inventory_slot(x as int, y as int),
    {
        match &mut self.info.player {
            Some(player) => {
                player.remove_inventory_slot(x, y);
            },
            None => {},
        }
    }

    /// Moves a copy of `object` into the first empty slot of the player's
    /// inventory and empties cell `(x, y)` of map `m`, where the object lay.
    /// Returns `false`, and changes nothing, in a world without a player and
    /// while every slot is taken.
    pub fn collect(&mut self, m: usize, x: usize, y: usize, object: &Object) -> (collected: bool)
        ensures
            final(self)@ == old(self)@.collect(m as int, x as int, y as int, object@),
            collected == old(self)@.can_collect(),
    {
        proof {
            lemma_first_slot_none(self@.inventory(), empty_slot());
        }
        let placed = match &mut self.info.player {
            Some(player) => player.collect_object(object),
            None => false,
        };
        if placed {
            self.set_cell(m, x, y, None);
        }
        placed
    }

    /// Where the door with id `door_id` leads from map `current_map`: the
    /// first place, map by map and leaving out `current_map`, that holds an
    /// object with that id. A door whose other side is on the same map leads
    /// nowhere. The cells are scanned one by one, which is meant: a world has
    /// a few maps of a few cells.
    pub fn door_other_side(&self, current_map: usize, door_id: &String) -> (found: Option<
        (usize, usize, usize),
    >)
        ensures
            match found {
                Some((m, c, r)) => self@.door_other_side(current_map as int, door_id@) == Some(
                    (m as int, c as int, r as int),
                ),
                None => self@.door_other_side(current_map as int, door_id@) is None,
            },
    {
        let mut m: usize = 0;
        while m < self.maps.len()
            invariant
                m <= self.maps.len(),
                forall|m2: int|
                    0 <= m2 < m && m2 != current_map ==> (#[trigger] self@.maps[m2]).find_object(
                        door_id@,
                    ) is None,
            decreases self.maps.len() - m,
        {
            if m != current_map {
                match self.maps[m].find_object(door_id) {
                    Some((c, r)) => {
                        proof {
                            assert(self@.maps[m as int] == self.maps[m as int]@);
                            assert(is_door_other_side(
                                self@.maps,
                                current_map as int,
                                door_id@,
                                m as int,
                                c as int,
                                r as int,
                            ));
                            lemma_door_other_side_is(
                                self@,
                                current_map as int,
                                door_id@,
                                m as int,
                                c as int,
                                r as int,
                            );
                        }
                        return Some((m, c, r));
                    },
                    None => {
                        assert(self@.maps[m as int] == self.maps[m as int]@);
                    },
                }
            }
            m += 1;
        }
        proof {
            if exists|m: int, c: int, r: int|
                is_door_other_side(self@.maps, current_map as int, door_id@, m, c, r) {
                let (m0, c0, r0) = choose|m: int, c: int, r: int|
                    is_door_other_side(self@.maps, current_map as int, door_id@, m, c, r);
                assert(self@.maps[m0].find_object(door_id@) is None);
            }
        }
        None
    }
}

impl GameState {
    /// Index of the first map with id `map_id`; `None` when no map has it.
    pub fn map_from_id(game_data: &GameData, map_id: &String) -> (found: Option<usize>)
        ensures
            match found {
                Some(m) => game_data@.map_from_id(map_id@) == Some(m as int),
                None => game_data@.map_from_id(map_id@) is None,
            },
    {
        let mut i: usize = 0;
        while i < game_data.maps.len()
            invariant
                i <= game_data.maps.len(),
                forall|j: int| 0 <= j < i ==> map_key()(#[trigger] game_data@.maps[j]) != map_id@,
            decreases game_data.maps.len() - i,
        {
            if game_data.maps[i].info.id == *map_id {
                proof {
                    assert(map_key()(game_data@.maps[i as int]) == map_id@);
                    lemma_position_by_is(game_data@.maps, map_key(), map_id@, i as int);
                }
                return Some(i);
            }
            i += 1;
        }
        proof {
            lemma_position_by_is(game_data@.maps, map_key(), map_id@, i as int);
        }
        None
    }
}

} // verus!

//! The cross references of a world: the starting map, the dialogs that
//! characters and answers name, and the doors with their other sides. A
//! world is checked once, when it has been built.

use crate::characters::{Character, CharacterView};
use crate::config::ConfigError;
use crate::dialogs::{Dialog, find_dialog, has_dialog};
use crate::doors::{doors_paired, holds_id_at, lemma_paired_door_leads_to_its_pair};
use crate::grid::{lemma_first_slot_some, slot_in_grid};
use crate::maps::{MapData, MapDataView, holds_object};
use crate::session::GameState;
use crate::text::text_is;
use crate::world::{GameData, GameDataView, lemma_door_other_side_some};
use vstd::prelude::*;

verus! {

/// Whether an answer may lead to `next`: to the end of the conversation,
/// to the inventory, or to a dialog that exists.
pub open spec fn next_known(data: GameDataView, next: Seq<char>) -> bool {
    next == "exit"@ || next == "inventory"@ || has_dialog(data.dialogs, next)
}

/// Both answers of every dialog lead somewhere.
pub open spec fn dialogs_linked(data: GameDataView) -> bool {
    forall|i: int|
        0 <= i < data.dialogs.len() ==> next_known(
            data,
            (#[trigger] data.dialogs[i]).option_0.next,
        ) && next_known(data, data.dialogs[i].option_1.next)
}

/// The dialog of the character exists, and so does every dialog that an
/// item moves the character to.
pub open spec fn character_linked(data: GameDataView, character: CharacterView) -> bool {
    &&& has_dialog(data.dialogs, character.dialog_id)
    &&& forall|i: int|
        0 <= i < character.interactions.object_use.len() ==> (
        #[trigger] character.interactions.object_use[i]).set_dialog.len() == 0 || has_dialog(
            data.dialogs,
            character.interactions.object_use[i].set_dialog,
        )
}

/// Whether what occupies a cell names only dialogs that exist.
pub open spec fn occupant_linked(data: GameDataView, occupant: Option<MapDataView>) -> bool {
    match occupant {
        Some(MapDataView::Character(character)) => character_linked(data, character),
        _ => true,
    }
}

/// Every character on a map names only dialogs that exist.
pub open spec fn characters_linked(data: GameDataView) -> bool {
    forall|m: int, c: int, r: int|
        0 <= m < data.maps.len() && slot_in_grid(data.maps[m].grid, c, r) ==> occupant_linked(
            data,
            #[trigger] data.maps[m].grid[c][r],
        )
}

/// Whether a cell holds a door.
pub open spec fn is_door(occupant: Option<MapDataView>) -> bool {
    match occupant {
        Some(MapDataView::Object(object)) => object.category == "door"@,
        _ => false,
    }
}

/// The door in cell `(c, r)` of map `m` has exactly one other side: a
/// door with its id on another map, and no third object with that id
/// anywhere.
pub open spec fn door_paired(data: GameDataView, m: int, c: int, r: int) -> bool {
    exists|m2: int, c2: int, r2: int| #[trigger]
        paired_with_door(data, data.maps[m].grid[c][r]->0->Object_0.id, m, c, r, m2, c2, r2)
}

/// The objects with id `id` are a pair, and the one in cell `(c2, r2)` of
/// map `m2` is a door.
pub open spec fn paired_with_door(
    data: GameDataView,
    id: Seq<char>,
    m: int,
    c: int,
    r: int,
    m2: int,
    c2: int,
    r2: int,
) -> bool {
    doors_paired(data, id, m, c, r, m2, c2, r2) && is_door(data.maps[m2].grid[c2][r2])
}

/// Every door of the world has exactly one other side.
pub open spec fn doors_all_paired(data: GameDataView) -> bool {
    forall|m: int, c: int, r: int|
        0 <= m < data.maps.len() && slot_in_grid(data.maps[m].grid, c, r) && is_door(
            #[trigger] data.maps[m].grid[c][r],
        ) ==> door_paired(data, m, c, r)
}

/// What is wrong with the cross references of a world, if anything is: a
/// starting map that does not exist comes before a dialog that does not
/// exist, and that before a door without its other side.
pub open spec fn integrity_error(data: GameDataView) -> Option<ConfigError> {
    if data.map_from_id(data.info.starting_map) is None {
        Some(ConfigError::UnknownStartingMap)
    } else if !(dialogs_linked(data) && characters_linked(data)) {
        Some(ConfigError::UnknownDialog)
    } else if !doors_all_paired(data) {
        Some(ConfigError::UnpairedDoor)
    } else {
        None
    }
}

fn next_is_known(dialogs: &Vec<Dialog>, next: &String) -> (known: bool)
    ensures
        known == (next@ == "exit"@ || next@ == "inventory"@ || has_dialog(
            dialogs.deep_view(),
            next@,
        )),
{
    text_is(next, "exit") || text_is(next, "inventory") || find_dialog(dialogs, next)
        < dialogs.len()
}

impl GameData {
    /// Whether both answers of every dialog lead somewhere.
    pub fn dialogs_linked(&self) -> (linked: bool)
        ensures
            linked == dialogs_linked(self@),
    {
        let mut i: usize = 0;
        while i < self.dialogs.len()
            invariant
                i <= self.dialogs.len(),
                forall|j: int|
                    0 <= j < i ==> next_known(self@, (#[trigger] self@.dialogs[j]).option_0.next)
                        && next_known(self@, self@.dialogs[j].option_1.next),
            decreases self.dialogs.len() - i,
        {
            let dialog = &self.dialogs[i];
            assert(self@.dialogs[i as int] == dialog@);
            if !next_is_known(&self.dialogs, &dialog.option_0.next) || !next_is_known(
                &self.dialogs,
                &dialog.option_1.next,
            ) {
                return false;
            }
            i += 1;
        }
        true
    }

    /// Whether `character` names only dialogs that exist.
    pub fn character_linked(&self, character: &Character) -> (linked: bool)
        ensures
            linked == character_linked(self@, character@),
    {
        if find_dialog(&self.dialogs, &character.dialog_id) >= self.dialogs.len() {
            return false;
        }
        let uses = &character.interactions.object_use;
        let mut i: usize = 0;
        while i < uses.len()
            invariant
                i <= uses.len(),
                uses == &character.interactions.object_use,
                forall|j: int|
                    0 <= j < i ==> (
                    #[trigger] character@.interactions.object_use[j]).set_dialog.len() == 0
                        || has_dialog(
                        self@.dialogs,
                        character@.interactions.object_use[j].set_dialog,
                    ),
            decreases uses.len() - i,
        {
            assert(character@.interactions.object_use[i as int] == uses[i as int]@);
            if !uses[i].set_dialog.as_str().is_empty() && find_dialog(
                &self.dialogs,
                &uses[i].set_dialog,
            ) >= self.dialogs.len() {
                return false;
            }
            i += 1;
        }
        true
    }

    /// Whether every character on a map names only dialogs that exist.
    pub fn characters_linked(&self) -> (linked: bool)
        ensures
            linked == characters_linked(self@),
    {
        let mut m: usize = 0;
        while m < self.maps.len()
            invariant
                m <= self.maps.len(),
                forall|m2: int, c: int, r: int|
                    0 <= m2 < m && slot_in_grid(self@.maps[m2].grid, c, r) ==> occupant_linked(
                        self@,
                        #[trigger] self@.maps[m2].grid[c][r],
                    ),
            decreases self.maps.len() - m,
        {
            let grid = &self.maps[m].grid;
            assert(self@.maps[m as int].grid == grid.deep_view());
            let mut c: usize = 0;
            while c < grid.len()
                invariant
                    m < self.maps.len(),
                    c <= grid.len(),
                    self@.maps[m as int].grid == grid.deep_view(),
                    forall|m2: int, c2: int, r: int|
                        0 <= m2 < m && slot_in_grid(self@.maps[m2].grid, c2, r)
                            ==> occupant_linked(self@, #[trigger] self@.maps[m2].grid[c2][r]),
                    forall|c2: int, r: int|
                        0 <= c2 < c && 0 <= r < grid.deep_view()[c2].len() ==> occupant_linked(
                            self@,
                            #[trigger] grid.deep_view()[c2][r],
                        ),
                decreases grid.len() - c,
            {
                let mut r: usize = 0;
                while r < grid[c].len()
                    invariant
                        m < self.maps.len(),
                        c < grid.len(),
                        r <= grid[c as int].len(),
                        self@.maps[m as int].grid == grid.deep_view(),
                        forall|r2: int|
                            0 <= r2 < r ==> occupant_linked(
                                self@,
                                #[trigger] grid.deep_view()[c as int][r2],
                            ),
                    decreases grid[c as int].len() - r,
                {
                    assert(grid.deep_view()[c as int][r as int] == grid[c as int][r as int].deep_view());
                    match &grid[c][r] {
                        Some(MapData::Character(character)) => {
                            if !self.character_linked(character) {
                                assert(!occupant_linked(
                                    self@,
                                    self@.maps[m as int].grid[c as int][r as int],
                                ));
                                return false;
                            }
                        },
                        _ => {},
                    }
                    r += 1;
                }
                c += 1;
            }
            m += 1;
        }
        true
    }

    /// Whether every object with id `id` lies in cell `(c1, r1)` of map
    /// `m1` or in cell `(c2, r2)` of map `m2`.
    fn only_at(
        &self,
        id: &String,
        m1: usize,
        c1: usize,
        r1: usize,
        m2: usize,
        c2: usize,
        r2: usize,
    ) -> (only: bool)
        ensures
            only == (forall|m: int, c: int, r: int| #[trigger]
                holds_id_at(self@, id@, m, c, r) ==> (m == m1 && c == c1 && r == r1) || (m == m2
                    && c == c2 && r == r2)),
    {
        let ghost here = |m: int, c: int, r: int|
            (m == m1 && c == c1 && r == r1) || (m == m2 && c == c2 && r == r2);
        let mut m: usize = 0;
        while m < self.maps.len()
            invariant
                m <= self.maps.len(),
                here == (|m: int, c: int, r: int|
                    (m == m1 && c == c1 && r == r1) || (m == m2 && c == c2 && r == r2)),
                forall|k: int, c: int, r: int|
                    0 <= k < m && #[trigger] holds_id_at(self@, id@, k, c, r) ==> here(k, c, r),
            decreases self.maps.len() - m,
        {
            let grid = &self.maps[m].grid;
            assert(self@.maps[m as int].grid == grid.deep_view());
            let mut c: usize = 0;
            while c < grid.len()
                invariant
                    m < self.maps.len(),
                    c <= grid.len(),
                    self@.maps[m as int].grid == grid.deep_view(),
                    here == (|m: int, c: int, r: int|
                        (m == m1 && c == c1 && r == r1) || (m == m2 && c == c2 && r == r2)),
                    forall|k: int, c: int, r: int|
                        0 <= k < m && #[trigger] holds_id_at(self@, id@, k, c, r) ==> here(k, c, r),
                    forall|k: int, r: int|
                        0 <= k < c && #[trigger] holds_id_at(self@, id@, m as int, k, r) ==> here(
                            m as int,
                            k,
                            r,
                        ),
                decreases grid.len() - c,
            {
                let mut r: usize = 0;
                while r < grid[c].len()
                    invariant
                        m < self.maps.len(),
                        c < grid.len(),
                        r <= grid[c as int].len(),
                        self@.maps[m as int].grid == grid.deep_view(),
                        here == (|m: int, c: int, r: int|
                            (m == m1 && c == c1 && r == r1) || (m == m2 && c == c2 && r == r2)),
                        forall|k: int|
                            0 <= k < r && #[trigger] holds_id_at(self@, id@, m as int, c as int, k)
                                ==> here(m as int, c as int, k),
                    decreases grid[c as int].len() - r,
                {
                    assert(grid.deep_view()[c as int][r as int] == grid[c as int][r as int].deep_view());
                    let hit = match &grid[c][r] {
                        Some(MapData::Object(object)) => object.id == *id,
                        _ => false,
                    };
                    assert(hit == holds_id_at(self@, id@, m as int, c as int, r as int));
                    if hit && !((m == m1 && c == c1 && r == r1) || (m == m2 && c == c2 && r == r2)) {
                        assert(!here(m as int, c as int, r as int));
                        return false;
                    }
                    r += 1;
                }
                c += 1;
            }
            m += 1;
        }
        assert forall|m: int, c: int, r: int| #[trigger]
            holds_id_at(self@, id@, m, c, r) implies (m == m1 && c == c1 && r == r1) || (m == m2
            && c == c2 && r == r2) by {
            assert(here(m, c, r));
        }
        true
    }

    /// Whether the door with id `id` in cell `(c, r)` of map `m` has
    /// exactly one other side.
    fn door_paired(&self, m: usize, c: usize, r: usize, id: &String) -> (paired: bool)
        requires
            holds_id_at(self@, id@, m as int, c as int, r as int),
        ensures
            paired == (exists|m2: int, c2: int, r2: int| #[trigger]
                paired_with_door(self@, id@, m as int, c as int, r as int, m2, c2, r2)),
    {
        match self.door_other_side(m, id) {
            Some((m2, c2, r2)) => {
                proof {
                    lemma_door_other_side_some(
                        self@,
                        m as int,
                        id@,
                        m2 as int,
                        c2 as int,
                        r2 as int,
                    );
                    lemma_first_slot_some(
                        self@.maps[m2 as int].grid,
                        holds_object(id@),
                        c2 as int,
                        r2 as int,
                    );
                }
                let a_door = match self.cell(m2, c2, r2) {
                    Some(MapData::Object(other)) => text_is(&other.category, "door"),
                    _ => false,
                };
                assert(a_door == is_door(self@.maps[m2 as int].grid[c2 as int][r2 as int]));
                let only = self.only_at(id, m, c, r, m2, c2, r2);
                proof {
                    if only && a_door {
                        assert(paired_with_door(
                            self@,
                            id@,
                            m as int,
                            c as int,
                            r as int,
                            m2 as int,
                            c2 as int,
                            r2 as int,
                        ));
                    } else if exists|m3: int, c3: int, r3: int| #[trigger]
                        paired_with_door(self@, id@, m as int, c as int, r as int, m3, c3, r3) {
                        let (m3, c3, r3) = choose|m3: int, c3: int, r3: int| #[trigger]
                            paired_with_door(self@, id@, m as int, c as int, r as int, m3, c3, r3);
                        lemma_paired_door_leads_to_its_pair(
                            self@,
                            id@,
                            m as int,
                            c as int,
                            r as int,
                            m3,
                            c3,
                            r3,
                        );
                    }
                }
                only && a_door
            },
            None => {
                proof {
                    if exists|m3: int, c3: int, r3: int| #[trigger]
                        paired_with_door(self@, id@, m as int, c as int, r as int, m3, c3, r3) {
                        let (m3, c3, r3) = choose|m3: int, c3: int, r3: int| #[trigger]
                            paired_with_door(self@, id@, m as int, c as int, r as int, m3, c3, r3);
                        lemma_paired_door_leads_to_its_pair(
                            self@,
                            id@,
                            m as int,
                            c as int,
                            r as int,
                            m3,
                            c3,
                            r3,
                        );
                    }
                }
                false
            },
        }
    }

    /// Whether every door of the world has exactly one other side.
    pub fn doors_all_paired(&self) -> (paired: bool)
        ensures
            paired == doors_all_paired(self@),
    {
        let mut m: usize = 0;
        while m < self.maps.len()
            invariant
                m <= self.maps.len(),
                forall|m2: int, c: int, r: int|
                    0 <= m2 < m && slot_in_grid(self@.maps[m2].grid, c, r) && is_door(
                        #[trigger] self@.maps[m2].grid[c][r],
                    ) ==> door_paired(self@, m2, c, r),
            decreases self.maps.len() - m,
        {
            let grid = &self.maps[m].grid;
            assert(self@.maps[m as int].grid == grid.deep_view());
            let mut c: usize = 0;
            while c < grid.len()
                invariant
                    m < self.maps.len(),
                    c <= grid.len(),
                    grid == &self.maps[m as int].grid,
                    self@.maps[m as int].grid == grid.deep_view(),
                    forall|m2: int, c2: int, r: int|
                        0 <= m2 < m && slot_in_grid(self@.maps[m2].grid, c2, r) && is_door(
                            #[trigger] self@.maps[m2].grid[c2][r],
                        ) ==> door_paired(self@, m2, c2, r),
                    forall|c2: int, r: int|
                        0 <= c2 < c && 0 <= r < grid.deep_view()[c2].len() && is_door(
                            #[trigger] self@.maps[m as int].grid[c2][r],
                        ) ==> door_paired(self@, m as int, c2, r),
                decreases grid.len() - c,
            {
                let mut r: usize = 0;
                while r < grid[c].len()
                    invariant
                        m < self.maps.len(),
                        c < grid.len(),
                        r <= grid[c as int].len(),
                        grid == &self.maps[m as int].grid,
                        self@.maps[m as int].grid == grid.deep_view(),
                        forall|r2: int|
                            0 <= r2 < r && is_door(
                                #[trigger] self@.maps[m as int].grid[c as int][r2],
                            ) ==> door_paired(self@, m as int, c as int, r2),
                    decreases grid[c as int].len() - r,
                {
                    assert(grid.deep_view()[c as int][r as int] == grid[c as int][r as int].deep_view());
                    match &grid[c][r] {
                        Some(MapData::Object(object)) => {
                            if text_is(&object.category, "door") {
                                assert(holds_id_at(self@, object.id@, m as int, c as int, r as int));
                                if !self.door_paired(m, c, r, &object.id) {
                                    assert(!door_paired(self@, m as int, c as int, r as int));
                                    return false;
                                }
                                assert(door_paired(self@, m as int, c as int, r as int));
                            }
                        },
                        _ => {},
                    }
                    r += 1;
                }
                c += 1;
            }
            m += 1;
        }
        true
    }

    /// Checks the cross references of the world: that the starting map
    /// exists, that no character and no answer names a dialog that does not
    /// exist, and that every door has exactly one other side.
    pub fn validate(&self) -> (checked: Result<(), ConfigError>)
        ensures
            match integrity_error(self@) {
                Some(error) => checked == Err::<(), ConfigError>(error),
                None => checked is Ok,
            },
    {
        if GameState::map_from_id(self, &self.info.starting_map).is_none() {
            return Err(ConfigError::UnknownStartingMap);
        }
        if !self.dialogs_linked() || !self.characters_linked() {
            return Err(ConfigError::UnknownDialog);
        }
        if !self.doors_all_paired() {
            return Err(ConfigError::UnpairedDoor);
        }
        Ok(())
    }
}

} // verus!

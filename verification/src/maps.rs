//! Maps: a room as a grid of cells, each empty or occupied by a character
//! or an object. The grid is addressed as `[column][row]`.

use crate::characters::{Character, CharacterView};
use crate::grid::{
    first_slot, is_first_slot, lemma_first_slot_is, lemma_first_slot_none, no_slot, slot_at,
    slot_in_grid, with_slot,
};
use crate::objects::{Object, ObjectView};
use crate::text::text_is;
use vstd::prelude::*;

verus! {

/// What occupies a cell of a map. The cell owns its occupant: a copy of the
/// character or object in its current state.
#[derive(Debug, PartialEq, Eq)]
pub enum MapData {
    Character(Character),
    Object(Object),
}

pub enum MapDataView {
    Character(CharacterView),
    Object(ObjectView),
}

impl DeepView for MapData {
    type V = MapDataView;

    open spec fn deep_view(&self) -> MapDataView {
        match self {
            MapData::Character(c) => MapDataView::Character(c@),
            MapData::Object(o) => MapDataView::Object(o@),
        }
    }
}

impl View for MapData {
    type V = MapDataView;

    open spec fn view(&self) -> MapDataView {
        self.deep_view()
    }
}

impl Clone for MapData {
    fn clone(&self) -> (res: Self)
        ensures
            res@ == self@,
    {
        match self {
            MapData::Character(c) => MapData::Character(c.clone()),
            MapData::Object(o) => MapData::Object(o.clone()),
        }
    }
}

#[derive(Clone, Copy, Debug, PartialEq, Eq)]
pub struct Size {
    pub width: i64,
    pub height: i64,
}

#[derive(Debug, PartialEq, Eq)]
pub struct MapInfo {
    pub id: String,
    pub description: String,
    pub size: Size,
}

pub struct MapInfoView {
    pub id: Seq<char>,
    pub description: Seq<char>,
    pub size: Size,
}

impl DeepView for MapInfo {
    type V = MapInfoView;

    open spec fn deep_view(&self) -> MapInfoView {
        MapInfoView { id: self.id@, description: self.description@, size: self.size }
    }
}

impl View for MapInfo {
    type V = MapInfoView;

    open spec fn view(&self) -> MapInfoView {
        self.deep_view()
    }
}

impl Clone for MapInfo {
    fn clone(&self) -> (res: Self)
        ensures
            res@ == self@,
    {
        MapInfo { id: self.id.clone(), description: self.description.clone(), size: self.size }
    }
}

/// The cells of a map.
pub type GridView = Seq<Seq<Option<MapDataView>>>;

#[derive(Debug, PartialEq, Eq)]
pub struct GameMap {
    pub info: MapInfo,
    pub grid: Vec<Vec<Option<MapData>>>,
}

pub struct GameMapView {
    pub info: MapInfoView,
    pub grid: GridView,
}

impl DeepView for GameMap {
    type V = GameMapView;

    open spec fn deep_view(&self) -> GameMapView {
        GameMapView { info: self.info@, grid: self.grid.deep_view() }
    }
}

impl View for GameMap {
    type V = GameMapView;

    open spec fn view(&self) -> GameMapView {
        self.deep_view()
    }
}

fn clone_cells(cells: &Vec<Option<MapData>>) -> (res: Vec<Option<MapData>>)
    ensures
        res.deep_view() == cells.deep_view(),
{
    let mut res: Vec<Option<MapData>> = Vec::new();
    let mut i: usize = 0;
    while i < cells.len()
        invariant
            i <= cells.len(),
            res.len() == i,
            forall|j: int| 0 <= j < i ==> (#[trigger] res[j]).deep_view() == cells[j].deep_view(),
        decreases cells.len() - i,
    {
        let cell = match &cells[i] {
            Some(occupant) => Some(occupant.clone()),
            None => None,
        };
        res.push(cell);
        i += 1;
    }
    assert(res.deep_view() =~= cells.deep_view());
    res
}

impl Clone for GameMap {
    fn clone(&self) -> (res: Self)
        ensures
            res@ == self@,
    {
        let mut grid: Vec<Vec<Option<MapData>>> = Vec::new();
        let mut i: usize = 0;
        while i < self.grid.len()
            invariant
                i <= self.grid.len(),
                grid.len() == i,
                forall|j: int|
                    0 <= j < i ==> (#[trigger] grid[j]).deep_view() == self.grid[j].deep_view(),
            decreases self.grid.len() - i,
        {
            grid.push(clone_cells(&self.grid[i]));
            i += 1;
        }
        assert(grid.deep_view() =~= self.grid.deep_view());
        GameMap { info: self.info.clone(), grid }
    }
}

/// Number of columns of the grid.
pub open spec fn grid_width(grid: GridView) -> int {
    grid.len() as int
}

/// Number of rows of the grid, taken from its first column.
pub open spec fn grid_height(grid: GridView) -> int {
    if grid.len() > 0 {
        grid[0].len() as int
    } else {
        0
    }
}

/// `(x, y)` lies inside the ring of outermost cells.
pub open spec fn in_interior(grid: GridView, x: int, y: int) -> bool {
    0 < x < grid_width(grid) - 1 && 0 < y < grid_height(grid) - 1
}

/// `(x, y)` lies in the first or last column, or in the first or last row.
pub open spec fn on_boundary(grid: GridView, x: int, y: int) -> bool {
    x == 0 || x == grid_width(grid) - 1 || y == 0 || y == grid_height(grid) - 1
}

pub open spec fn holds_category(cell: Option<MapDataView>, category: Seq<char>) -> bool {
    match cell {
        Some(MapDataView::Object(o)) => o.category == category,
        _ => false,
    }
}

/// Whether the player may step onto `(x, y)`. Inside the boundary ring every
/// cell is open but one holding a `"collidable"` object. On the ring only a
/// cell holding a `"door"` object is open. Anywhere else there is no cell to
/// step onto.
pub open spec fn move_allowed(grid: GridView, x: int, y: int) -> bool {
    if !slot_in_grid(grid, x, y) {
        false
    } else if in_interior(grid, x, y) {
        !holds_category(grid[x][y], "collidable"@)
    } else if on_boundary(grid, x, y) {
        holds_category(grid[x][y], "door"@)
    } else {
        false
    }
}

/// The predicate that holds of exactly the cells occupied by an object with
/// id `id`.
pub open spec fn holds_object(id: Seq<char>) -> spec_fn(Option<MapDataView>) -> bool {
    |cell: Option<MapDataView>|
        match cell {
            Some(MapDataView::Object(o)) => o.id == id,
            _ => false,
        }
}

impl GameMapView {
    pub open spec fn cell(self, x: int, y: int) -> Option<MapDataView> {
        slot_at(self.grid, x, y)
    }

    pub open spec fn set_cell(self, x: int, y: int, occupant: Option<MapDataView>) -> GameMapView {
        GameMapView { grid: with_slot(self.grid, x, y, occupant), ..self }
    }

    /// The first cell in scan order that holds an object with id `id`.
    pub open spec fn find_object(self, id: Seq<char>) -> Option<(int, int)> {
        first_slot(self.grid, holds_object(id))
    }
}

/// No cell on the boundary ring can be entered unless it holds a door, and
/// no cell holding a collidable object can be entered at all.
pub proof fn lemma_move_allowed_limits(grid: GridView, x: int, y: int)
    ensures
        slot_in_grid(grid, x, y) && on_boundary(grid, x, y) && !holds_category(
            grid[x][y],
            "door"@,
        ) ==> !move_allowed(grid, x, y),
        slot_in_grid(grid, x, y) && holds_category(grid[x][y], "collidable"@) ==> !move_allowed(
            grid,
            x,
            y,
        ),
{
    reveal_strlit("door");
    reveal_strlit("collidable");
    if slot_in_grid(grid, x, y) && holds_category(grid[x][y], "collidable"@) {
        assert("collidable"@.len() != "door"@.len());
        assert(!holds_category(grid[x][y], "door"@));
    }
}

impl GameMap {
    /// The occupant of cell `(x, y)`; nothing for an empty cell and for a
    /// position outside the grid.
    pub fn cell(&self, x: usize, y: usize) -> (occupant: Option<&MapData>)
        ensures
            occupant.deep_view() == self@.cell(x as int, y as int),
    {
        if x < self.grid.len() && y < self.grid[x].len() {
            self.grid[x][y].as_ref()
        } else {
            None
        }
    }

    /// Replaces the occupant of cell `(x, y)`. A position outside the grid
    /// is left alone; the grid never changes its dimensions.
    pub fn set_cell(&mut self, x: usize, y: usize, occupant: Option<MapData>)
        ensures
            final(self)@ == old(self)@.set_cell(x as int, y as int, occupant.deep_view()),
    {
        if x < self.grid.len() && y < self.grid[x].len() {
            let ghost placed = occupant.deep_view();
            self.grid[x][y] = occupant;
            proof {
                let before = old(self).grid.deep_view();
                let after = self.grid.deep_view();
                assert(after[x as int] =~= before[x as int].update(y as int, placed));
                assert(after =~= with_slot(before, x as int, y as int, placed));
            }
        }
    }

    /// Whether the player may step onto `(x, y)`.
    pub fn can_enter(&self, x: usize, y: usize) -> (allowed: bool)
        ensures
            allowed == move_allowed(self@.grid, x as int, y as int),
    {
        if !(x < self.grid.len() && y < self.grid[x].len()) {
            return false;
        }
        let width = self.grid.len();
        let height = self.grid[0].len();
        assert(self@.grid[0].len() == height);
        assert(self@.grid[x as int][y as int] == self.grid[x as int][y as int].deep_view());
        if 0 < x && x + 1 < width && 0 < y && y + 1 < height {
            match &self.grid[x][y] {
                Some(MapData::Object(object)) => !text_is(&object.category, "collidable"),
                _ => true,
            }
        } else if x == 0 || x == width - 1 || y == 0 || (height > 0 && y == height - 1) {
            match &self.grid[x][y] {
                Some(MapData::Object(object)) => text_is(&object.category, "door"),
                _ => false,
            }
        } else {
            false
        }
    }

    /// The first cell, scanning column by column and each column from its
    /// first row on, that holds an object with id `id`.
    pub fn find_object(&self, id: &String) -> (found: Option<(usize, usize)>)
        ensures
            match found {
                Some((c, r)) => self@.find_object(id@) == Some((c as int, r as int)),
                None => self@.find_object(id@) is None,
            },
    {
        let ghost wanted = holds_object(id@);
        let mut c: usize = 0;
        while c < self.grid.len()
            invariant
                c <= self.grid.len(),
                wanted == holds_object(id@),
                forall|c2: int, r2: int|
                    0 <= c2 < c && 0 <= r2 < self@.grid[c2].len() ==> !wanted(
                        #[trigger] self@.grid[c2][r2],
                    ),
            decreases self.grid.len() - c,
        {
            let mut r: usize = 0;
            while r < self.grid[c].len()
                invariant
                    c < self.grid.len(),
                    r <= self.grid[c as int].len(),
                    wanted == holds_object(id@),
                    forall|c2: int, r2: int|
                        0 <= c2 < c && 0 <= r2 < self@.grid[c2].len() ==> !wanted(
                            #[trigger] self@.grid[c2][r2],
                        ),
                    forall|r2: int| 0 <= r2 < r ==> !wanted(#[trigger] self@.grid[c as int][r2]),
                decreases self.grid[c as int].len() - r,
            {
                assert(self@.grid[c as int][r as int] == self.grid[c as int][r as int].deep_view());
                let hit = match &self.grid[c][r] {
                    Some(MapData::Object(object)) => object.id == *id,
                    _ => false,
                };
                if hit {
                    proof {
                        assert(is_first_slot(self@.grid, wanted, c as int, r as int));
                        lemma_first_slot_is(self@.grid, wanted, c as int, r as int);
                    }
                    return Some((c, r));
                }
                r += 1;
            }
            c += 1;
        }
        proof {
            assert(no_slot(self@.grid, wanted));
            lemma_first_slot_none(self@.grid, wanted);
        }
        None
    }
}

} // verus!

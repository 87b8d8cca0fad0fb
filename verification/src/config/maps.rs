//! Map definitions: a room of a given size and what stands where in it.

use crate::maps::Size;
use vstd::prelude::*;

verus! {

#[derive(Clone, Copy, Debug, PartialEq, Eq)]
pub struct Position {
    pub x: usize,
    pub y: usize,
}

/// A character or an object, named by its id, and the cell it stands on.
#[derive(Debug, PartialEq, Eq)]
pub struct MapObject {
    pub id: String,
    pub position: Position,
}

pub struct MapObjectView {
    pub id: Seq<char>,
    pub position: Position,
}

impl DeepView for MapObject {
    type V = MapObjectView;

    open spec fn deep_view(&self) -> MapObjectView {
        MapObjectView { id: self.id@, position: self.position }
    }
}

impl View for MapObject {
    type V = MapObjectView;

    open spec fn view(&self) -> MapObjectView {
        self.deep_view()
    }
}

#[derive(Debug, PartialEq, Eq)]
pub struct MapItemData {
    pub id: String,
    pub description: String,
    pub size: Size,
    pub objects: Vec<MapObject>,
}

pub struct MapItemDataView {
    pub id: Seq<char>,
    pub description: Seq<char>,
    pub size: Size,
    pub objects: Seq<MapObjectView>,
}

impl DeepView for MapItemData {
    type V = MapItemDataView;

    open spec fn deep_view(&self) -> MapItemDataView {
        MapItemDataView {
            id: self.id@,
            description: self.description@,
            size: self.size,
            objects: self.objects.deep_view(),
        }
    }
}

impl View for MapItemData {
    type V = MapItemDataView;

    open spec fn view(&self) -> MapItemDataView {
        self.deep_view()
    }
}

} // verus!

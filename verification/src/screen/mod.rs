//! The screen: its dimensions, and the controller that decides what each
//! key does on it.

use vstd::prelude::*;

pub mod draw;
pub mod frame;
pub mod integrity_laws;
pub mod interact;
pub mod item_use;
pub mod keys;
pub mod laws;
pub mod pieces;
pub mod rules;
pub mod scenes;
pub mod use_laws;
pub mod wrap;

verus! {

/// The terminal the game is played on: the size it had when the game
/// took it over, and the size the game draws on, which is 80 columns and 20
/// rows.
#[derive(Clone, Copy, Debug, PartialEq, Eq)]
pub struct Screen {
    original_columns: u16,
    original_rows: u16,
    current_columns: u16,
    current_rows: u16,
}

/// Offset at which a run of `len` cells starts so that it sits centred in
/// a container of `container` cells; zero when the run does not fit.
pub open spec fn centered_start(len: int, container: int) -> int {
    if container < len {
        0
    } else {
        (container - len) / 2
    }
}

impl Screen {
    #[verifier::type_invariant]
    spec fn drawn_on_80_by_20(self) -> bool {
        self.current_columns == 80 && self.current_rows == 20
    }

    /// Columns and rows the terminal had before the game took it over.
    pub closed spec fn original_size(self) -> (u16, u16) {
        (self.original_columns, self.original_rows)
    }

    /// The screen of a terminal that had `original_columns` columns and
    /// `original_rows` rows when the game took it over.
    pub fn new(original_columns: u16, original_rows: u16) -> (screen: Screen)
        ensures
            screen.original_size() == (original_columns, original_rows),
    {
        Screen { original_columns, original_rows, current_columns: 80, current_rows: 20 }
    }

    /// Columns the terminal had before the game took it over.
    pub fn original_columns(&self) -> (columns: u16)
        ensures
            columns == self.original_size().0,
    {
        self.original_columns
    }

    /// Rows the terminal had before the game took it over.
    pub fn original_rows(&self) -> (rows: u16)
        ensures
            rows == self.original_size().1,
    {
        self.original_rows
    }

    /// Columns the game draws on.
    pub fn current_columns(&self) -> (columns: u16)
        ensures
            columns == 80,
    {
        proof {
            use_type_invariant(self);
        }
        self.current_columns
    }

    /// Rows the game draws on.
    pub fn current_rows(&self) -> (rows: u16)
        ensures
            rows == 20,
    {
        proof {
            use_type_invariant(self);
        }
        self.current_rows
    }

    /// Whether a terminal of `cols` columns and `rows` rows is large enough
    /// for the game.
    pub fn check_screen_size(cols: u16, rows: u16) -> (fits: bool)
        ensures
            fits == (cols >= 80 && rows >= 20),
    {
        !(cols < 80 || rows < 20)
    }

    /// Column, counted from the left edge of a container of
    /// `container_cols` columns, at which `s` starts when it is centred.
    /// The width of `s` is taken to be its number of bytes.
    pub fn horizontally_center_start_position(&self, s: &str, container_cols: u16) -> (start: u16)
        ensures
            start == centered_start(s.len() as int, container_cols as int),
    {
        let len = s.len();
        if (container_cols as usize) < len {
            return 0;
        }
        let empty_space = container_cols - (len as u16);
        empty_space / 2
    }

    /// Row, counted from the top edge of a container of `container_rows`
    /// rows, at which a block of `c` lines starts when it is centred.
    pub fn vertically_center_start_position(&self, c: u16, container_rows: u16) -> (start: u16)
        ensures
            start == centered_start(c as int, container_rows as int),
    {
        if container_rows < c {
            return 0;
        }
        let empty_space = container_rows - c;
        empty_space / 2
    }
}

} // verus!

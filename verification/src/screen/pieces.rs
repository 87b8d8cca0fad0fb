//! The larger pieces of a frame: the face of a character, the list of its
//! attributes, the boxes of an inventory, a box with text in it.

use crate::characters::{Attribute, AttributeView, Character, CharacterView, InventoryView};
use crate::objects::{Object, ObjectView};
use crate::screen::frame::{
    DrawOp, DrawOpView, FrameView, border, byte_len, centered_lines, decimal, decimal_text,
    highlight_border, put_all, put_glyph, put_text,
};
use crate::screen::{Screen, centered_start};
use crate::text::{join5, text_is};
use vstd::prelude::*;

verus! {

/// The face of a character in a box of 18 columns and 7 rows, with the
/// name of the character set in the middle beneath it. The player looks
/// friendlier than everybody else.
pub open spec fn face(start_col: int, start_row: int, character: CharacterView) -> FrameView {
    let player = character.id == "player"@;
    border(start_col, start_row, 18, 7) + seq![
        DrawOpView::Text {
            col: start_col + 5,
            row: start_row + 1,
            text: if player {
                ".       ."@
            } else {
                "v       v"@
            },
        },
        DrawOpView::Text {
            col: start_col + 3,
            row: start_row + 4,
            text: if player {
                "|          |"@
            } else {
                "+----------+"@
            },
        },
        DrawOpView::Text {
            col: start_col + 3,
            row: start_row + 5,
            text: if player {
                "+----------+"@
            } else {
                "|          |"@
            },
        },
        DrawOpView::Text {
            col: start_col + centered_start(byte_len(character.name), 18),
            row: start_row + 8,
            text: character.name,
        },
    ]
}

/// The line that shows an attribute: its name, its value and the most it
/// can be.
pub open spec fn stat_line(attribute: AttributeView) -> Seq<char> {
    attribute.display_name + ": "@ + decimal(attribute.current_val as int) + "/"@ + decimal(
        attribute.max_val as int,
    )
}

/// The attributes, one row each from `start_row` down, beginning in column
/// `start_col`.
pub open spec fn stat_display(stats: Seq<AttributeView>, start_col: int, start_row: int) -> FrameView {
    Seq::new(
        stats.len(),
        |k: int| DrawOpView::Text { col: start_col, row: start_row + k, text: stat_line(stats[k]) },
    )
}

/// Rows of the box for row `r` of an inventory: the third row of boxes is
/// one row higher than the others, so that three rows fill the screen.
pub open spec fn box_rows(r: int) -> int {
    if r == 2 {
        8
    } else {
        7
    }
}

/// The box of slot `(c, r)` of an inventory whose first box has its top
/// left corner at `(start_col, start_row)`: a border, marked if the slot is
/// selected; the name and the icon of the item in it; and beneath them the
/// offer to use the item, if the slot is selected.
pub open spec fn item_box(
    slot: Option<ObjectView>,
    start_col: int,
    start_row: int,
    c: int,
    r: int,
    selected: bool,
) -> FrameView {
    let box_col = start_col + c * 17;
    let box_row = start_row + r * 6;
    let rows = box_rows(r);
    (if selected {
        highlight_border(box_col, box_row, 18, rows)
    } else {
        border(box_col, box_row, 18, rows)
    }) + (match slot {
        Some(item) => seq![
            DrawOpView::Text {
                col: box_col + centered_start(byte_len(item.name), 18),
                row: box_row + 2,
                text: item.name,
            },
            DrawOpView::Glyph {
                col: box_col + centered_start(byte_len("i"@), 18),
                row: box_row + centered_start(1, rows),
                icon: item.icon,
            },
        ] + (if selected {
            seq![
                DrawOpView::Text {
                    col: box_col + centered_start(byte_len("Use?"@), 18),
                    row: box_row + rows - 2,
                    text: "Use?"@,
                },
            ]
        } else {
            Seq::empty()
        }),
        None => Seq::empty(),
    })
}

/// The boxes of the first `n` slots of column `c`.
pub open spec fn column_boxes(
    items: InventoryView,
    start_col: int,
    start_row: int,
    selected_col: int,
    selected_row: int,
    c: int,
    n: int,
) -> FrameView
    decreases n,
{
    if n <= 0 {
        Seq::empty()
    } else {
        column_boxes(items, start_col, start_row, selected_col, selected_row, c, n - 1) + item_box(
            items[c][n - 1],
            start_col,
            start_row,
            c,
            n - 1,
            selected_col == c && selected_row == n - 1,
        )
    }
}

/// The boxes of the first `n` columns of an inventory.
pub open spec fn grid_boxes(
    items: InventoryView,
    start_col: int,
    start_row: int,
    selected_col: int,
    selected_row: int,
    n: int,
) -> FrameView
    decreases n,
{
    if n <= 0 {
        Seq::empty()
    } else {
        grid_boxes(items, start_col, start_row, selected_col, selected_row, n - 1) + column_boxes(
            items,
            start_col,
            start_row,
            selected_col,
            selected_row,
            n - 1,
            items[n - 1].len() as int,
        )
    }
}

/// The boxes of an inventory, column by column.
pub open spec fn item_grid(
    items: InventoryView,
    start_col: int,
    start_row: int,
    selected_col: int,
    selected_row: int,
) -> FrameView {
    grid_boxes(items, start_col, start_row, selected_col, selected_row, items.len() as int)
}

/// Whether every box of the inventory lies at coordinates a terminal can
/// hold.
pub open spec fn item_grid_fits<T>(items: Seq<Seq<T>>, start_col: int, start_row: int) -> bool {
    &&& start_col + 17 * items.len() + 1 <= u16::MAX
    &&& forall|c: int| 0 <= c < items.len() ==> start_row + 6 * (#[trigger] items[c]).len() + 2 <= u16::MAX
}

/// A box with lines of text set in the middle of it, four columns and four
/// rows smaller than the box.
pub open spec fn text_box(
    start_col: int,
    start_row: int,
    cols: int,
    rows: int,
    lines: Seq<Seq<char>>,
    highlight: bool,
) -> FrameView {
    (if highlight {
        highlight_border(start_col, start_row, cols, rows)
    } else {
        border(start_col, start_row, cols, rows)
    }) + centered_lines(
        lines,
        start_col + 2,
        cols - 4,
        start_row + 2 + centered_start(lines.len() as int, rows - 4),
    )
}

impl Screen {
    /// The face of `character` with its name beneath it.
    pub fn draw_face(&self, start_col: u16, start_row: u16, character: &Character) -> (frame: Vec<
        DrawOp,
    >)
        requires
            start_col + 18 <= u16::MAX,
            start_row + 8 <= u16::MAX,
        ensures
            frame.deep_view() == face(start_col as int, start_row as int, character@),
    {
        let mut frame = self.draw_border(start_col, start_row, 18, 7);
        let ghost outer = frame.deep_view();
        let player = text_is(&character.id, "player");
        put_text(
            &mut frame,
            start_col + 5,
            start_row + 1,
            if player {
                ".       .".to_owned()
            } else {
                "v       v".to_owned()
            },
        );
        put_text(
            &mut frame,
            start_col + 3,
            start_row + 4,
            if player {
                "|          |".to_owned()
            } else {
                "+----------+".to_owned()
            },
        );
        put_text(
            &mut frame,
            start_col + 3,
            start_row + 5,
            if player {
                "+----------+".to_owned()
            } else {
                "|          |".to_owned()
            },
        );
        let name_col = start_col + self.horizontally_center_start_position(
            character.name.as_str(),
            18,
        );
        put_text(&mut frame, name_col, start_row + 8, character.name.clone());
        assert(frame.deep_view() =~= face(start_col as int, start_row as int, character@));
        frame
    }

    /// The attributes, one row each: name, value, and the most the value
    /// can be.
    pub fn draw_stat_display(&self, stats: &Vec<Attribute>, start_col: u16, start_row: u16) -> (frame:
        Vec<DrawOp>)
        requires
            start_row + stats.len() <= u16::MAX,
        ensures
            frame.deep_view() == stat_display(stats.deep_view(), start_col as int, start_row as int),
    {
        let mut frame: Vec<DrawOp> = Vec::new();
        let mut k: usize = 0;
        while k < stats.len()
            invariant
                k <= stats.len(),
                start_row + stats.len() <= u16::MAX,
                frame@.len() == k,
                forall|j: int|
                    0 <= j < k ==> (#[trigger] frame@[j])@ == stat_display(
                        stats.deep_view(),
                        start_col as int,
                        start_row as int,
                    )[j],
            decreases stats.len() - k,
        {
            let stat = &stats[k];
            assert(stats.deep_view()[k as int] == stat@);
            let current = decimal_text(stat.current_val);
            let most = decimal_text(stat.max_val);
            let line = join5(
                stat.display_name.as_str(),
                ": ",
                current.as_str(),
                "/",
                most.as_str(),
            );
            frame.push(DrawOp::Text { col: start_col, row: start_row + k as u16, text: line });
            k += 1;
        }
        assert(frame.deep_view() =~= stat_display(
            stats.deep_view(),
            start_col as int,
            start_row as int,
        ));
        frame
    }

    /// The box of slot `(c, r)` of an inventory.
    pub fn draw_item_box(
        &self,
        slot: &Option<Object>,
        start_col: u16,
        start_row: u16,
        c: usize,
        r: usize,
        selected: bool,
    ) -> (frame: Vec<DrawOp>)
        requires
            start_col + 17 * c + 18 <= u16::MAX,
            start_row + 6 * r + 8 <= u16::MAX,
        ensures
            frame.deep_view() == item_box(
                slot.deep_view(),
                start_col as int,
                start_row as int,
                c as int,
                r as int,
                selected,
            ),
    {
        let box_col = start_col + (c as u16) * 17;
        let box_row = start_row + (r as u16) * 6;
        let rows: u16 = if r == 2 {
            8
        } else {
            7
        };
        let mut frame = if selected {
            self.draw_highlight_border(box_col, box_row, 18, rows)
        } else {
            self.draw_border(box_col, box_row, 18, rows)
        };
        match slot {
            Some(item) => {
                let name_col = box_col + self.horizontally_center_start_position(
                    item.name.as_str(),
                    18,
                );
                let icon_col = box_col + self.horizontally_center_start_position("i", 18);
                let icon_row = box_row + self.vertically_center_start_position(1, rows);
                put_text(&mut frame, name_col, box_row + 2, item.name.clone());
                put_glyph(&mut frame, icon_col, icon_row, item.icon);
                if selected {
                    let use_col = box_col + self.horizontally_center_start_position("Use?", 18);
                    put_text(&mut frame, use_col, box_row + rows - 2, "Use?".to_owned());
                }
            },
            None => {},
        }
        assert(frame.deep_view() =~= item_box(
            slot.deep_view(),
            start_col as int,
            start_row as int,
            c as int,
            r as int,
            selected,
        ));
        frame
    }

    /// The boxes of an inventory, with the box of slot
    /// `(selected_col, selected_row)` marked.
    pub fn draw_item_grid(
        &self,
        items: &Vec<Vec<Option<Object>>>,
        start_col: u16,
        start_row: u16,
        selected_col: usize,
        selected_row: usize,
    ) -> (frame: Vec<DrawOp>)
        requires
            item_grid_fits(items.deep_view(), start_col as int, start_row as int),
        ensures
            frame.deep_view() == item_grid(
                items.deep_view(),
                start_col as int,
                start_row as int,
                selected_col as int,
                selected_row as int,
            ),
    {
        let mut frame: Vec<DrawOp> = Vec::new();
        let ghost all = items.deep_view();
        let mut c: usize = 0;
        while c < items.len()
            invariant
                c <= items.len(),
                all == items.deep_view(),
                item_grid_fits(all, start_col as int, start_row as int),
                frame.deep_view() == grid_boxes(
                    all,
                    start_col as int,
                    start_row as int,
                    selected_col as int,
                    selected_row as int,
                    c as int,
                ),
            decreases items.len() - c,
        {
            let ghost before = frame.deep_view();
            assert(all[c as int] == items[c as int].deep_view());
            let mut r: usize = 0;
            while r < items[c].len()
                invariant
                    c < items.len(),
                    r <= items[c as int].len(),
                    all == items.deep_view(),
                    all[c as int].len() == items[c as int].len(),
                    item_grid_fits(all, start_col as int, start_row as int),
                    frame.deep_view() == before + column_boxes(
                        all,
                        start_col as int,
                        start_row as int,
                        selected_col as int,
                        selected_row as int,
                        c as int,
                        r as int,
                    ),
                decreases items[c as int].len() - r,
            {
                let ghost so_far = frame.deep_view();
                assert(all[c as int][r as int] == items[c as int][r as int].deep_view());
                let one = self.draw_item_box(
                    &items[c][r],
                    start_col,
                    start_row,
                    c,
                    r,
                    selected_col == c && selected_row == r,
                );
                put_all(&mut frame, one);
                assert(frame.deep_view() =~= before + column_boxes(
                    all,
                    start_col as int,
                    start_row as int,
                    selected_col as int,
                    selected_row as int,
                    c as int,
                    r + 1,
                ));
                r += 1;
            }
            c += 1;
        }
        frame
    }

    /// A box with `lines` set in the middle of it, marked if `highlight`
    /// is set.
    pub fn draw_text_box(
        &self,
        start_col: u16,
        start_row: u16,
        cols: u16,
        rows: u16,
        lines: &Vec<String>,
        highlight: bool,
    ) -> (frame: Vec<DrawOp>)
        requires
            cols >= 4,
            rows >= 4,
            start_col + cols <= u16::MAX,
            start_row + rows + lines.len() <= u16::MAX,
        ensures
            frame.deep_view() == text_box(
                start_col as int,
                start_row as int,
                cols as int,
                rows as int,
                lines.deep_view(),
                highlight,
            ),
    {
        let mut frame = if highlight {
            self.draw_highlight_border(start_col, start_row, cols, rows)
        } else {
            self.draw_border(start_col, start_row, cols, rows)
        };
        let text_rows = rows - 4;
        let text_cols = cols - 4;
        let row0 = start_row + 2 + self.vertically_center_start_position(
            lines.len() as u16,
            text_rows,
        );
        let text = self.draw_centered_lines(lines, start_col + 2, text_cols, row0);
        put_all(&mut frame, text);
        frame
    }
}

} // verus!

//! What is shown on the terminal, as a list of things to print and where.
//! The finer pieces of a frame: borders, rows of a repeated character,
//! lines of text set in the middle of a container.

use crate::screen::{Screen, centered_start};
use crate::text::join3;
use vstd::prelude::*;
use vstd::string::StringExecFns;
use vstd::utf8::encode_utf8;

verus! {

/// One thing to print: a text, or a single character, that begins in
/// column `col` of row `row`. Columns and rows count from zero.
#[derive(Debug, PartialEq, Eq)]
pub enum DrawOp {
    Text { col: u16, row: u16, text: String },
    Glyph { col: u16, row: u16, icon: char },
}

pub enum DrawOpView {
    Text { col: int, row: int, text: Seq<char> },
    Glyph { col: int, row: int, icon: char },
}

impl DeepView for DrawOp {
    type V = DrawOpView;

    open spec fn deep_view(&self) -> DrawOpView {
        match self {
            DrawOp::Text { col, row, text } => DrawOpView::Text {
                col: *col as int,
                row: *row as int,
                text: text@,
            },
            DrawOp::Glyph { col, row, icon } => DrawOpView::Glyph {
                col: *col as int,
                row: *row as int,
                icon: *icon,
            },
        }
    }
}

impl View for DrawOp {
    type V = DrawOpView;

    open spec fn view(&self) -> DrawOpView {
        self.deep_view()
    }
}

impl Clone for DrawOp {
    fn clone(&self) -> (res: Self)
        ensures
            res@ == self@,
    {
        match self {
            DrawOp::Text { col, row, text } => DrawOp::Text {
                col: *col,
                row: *row,
                text: text.clone(),
            },
            DrawOp::Glyph { col, row, icon } => DrawOp::Glyph { col: *col, row: *row, icon: *icon },
        }
    }
}

/// Things to print, in the order in which they are printed: what comes
/// later covers what came before.
pub type FrameView = Seq<DrawOpView>;

/// The width that the layout gives to a text: its number of bytes.
pub open spec fn byte_len(text: Seq<char>) -> int {
    (encode_utf8(text).len() as usize) as int
}

/// `piece` written `n` times.
pub open spec fn repeated(piece: Seq<char>, n: int) -> Seq<char>
    decreases n,
{
    if n <= 0 {
        Seq::empty()
    } else {
        repeated(piece, n - 1) + piece
    }
}

/// One row of a border of `cols` columns: a corner or side at each end,
/// and between them the line of the top and bottom row, or the blank of
/// every other row.
pub open spec fn border_row(cols: int, edge: bool) -> Seq<char> {
    let end = if edge {
        "+"@
    } else {
        "|"@
    };
    let fill = if edge {
        "-"@
    } else {
        " "@
    };
    if cols <= 0 {
        Seq::empty()
    } else if cols == 1 {
        end
    } else {
        end + repeated(fill, cols - 2) + end
    }
}

/// A rectangle of `cols` columns and `rows` rows, its top left corner at
/// `(start_col, start_row)`: a border around blanks.
pub open spec fn border(start_col: int, start_row: int, cols: int, rows: int) -> FrameView {
    Seq::new(
        if rows > 0 {
            rows as nat
        } else {
            0
        },
        |k: int|
            DrawOpView::Text {
                col: start_col,
                row: start_row + k,
                text: border_row(cols, k == 0 || k == rows - 1),
            },
    )
}

/// One row of the mark that runs inside the border of a selected box.
pub open spec fn highlight_row(cols: int, edge: bool) -> Seq<char> {
    if edge {
        repeated("="@, cols)
    } else if cols <= 0 {
        Seq::empty()
    } else if cols == 1 {
        "="@
    } else {
        "="@ + repeated(" "@, cols - 2) + "="@
    }
}

/// The border of a selected box: a border, and inside it a second frame
/// of `=`.
pub open spec fn highlight_border(start_col: int, start_row: int, cols: int, rows: int) -> FrameView {
    border(start_col, start_row, cols, rows) + Seq::new(
        if rows > 2 {
            (rows - 2) as nat
        } else {
            0
        },
        |k: int|
            DrawOpView::Text {
                col: start_col + 1,
                row: start_row + 1 + k,
                text: highlight_row(cols - 2, k == 0 || k == rows - 3),
            },
    )
}

/// Lines of text, one row each from `row0` down, every line set in the
/// middle of a container of `container` columns that begins at `left`.
pub open spec fn centered_lines(lines: Seq<Seq<char>>, left: int, container: int, row0: int) -> FrameView {
    Seq::new(
        lines.len(),
        |k: int|
            DrawOpView::Text {
                col: left + centered_start(byte_len(lines[k]), container),
                row: row0 + k,
                text: lines[k],
            },
    )
}

/// Lines of text, one row each from `row0` down, every line beginning in
/// column `col`.
pub open spec fn plain_lines(lines: Seq<Seq<char>>, col: int, row0: int) -> FrameView {
    Seq::new(lines.len(), |k: int| DrawOpView::Text { col, row: row0 + k, text: lines[k] })
}

/// The decimal digit `d`.
pub open spec fn digit(d: int) -> Seq<char> {
    if d == 0 {
        "0"@
    } else if d == 1 {
        "1"@
    } else if d == 2 {
        "2"@
    } else if d == 3 {
        "3"@
    } else if d == 4 {
        "4"@
    } else if d == 5 {
        "5"@
    } else if d == 6 {
        "6"@
    } else if d == 7 {
        "7"@
    } else if d == 8 {
        "8"@
    } else {
        "9"@
    }
}

/// The number `n` in decimal digits, without leading zeros.
pub open spec fn decimal(n: int) -> Seq<char>
    decreases n,
{
    if n < 10 {
        digit(n)
    } else {
        decimal(n / 10) + digit(n % 10)
    }
}

/// `piece` written `n` times.
pub fn repeat_text(piece: &str, n: usize) -> (text: String)
    ensures
        text@ == repeated(piece@, n as int),
{
    let mut text = String::new();
    let mut i: usize = 0;
    while i < n
        invariant
            i <= n,
            text@ == repeated(piece@, i as int),
        decreases n - i,
    {
        text.append(piece);
        i += 1;
    }
    text
}

fn digit_text(d: u8) -> (text: &'static str)
    requires
        d < 10,
    ensures
        text@ == digit(d as int),
{
    match d {
        0 => "0",
        1 => "1",
        2 => "2",
        3 => "3",
        4 => "4",
        5 => "5",
        6 => "6",
        7 => "7",
        8 => "8",
        _ => "9",
    }
}

/// The number `n` in decimal digits.
pub fn decimal_text(n: u8) -> (text: String)
    ensures
        text@ == decimal(n as int),
{
    reveal_with_fuel(decimal, 3);
    if n < 10 {
        digit_text(n).to_owned()
    } else if n < 100 {
        let mut text = digit_text(n / 10).to_owned();
        text.append(digit_text(n % 10));
        text
    } else {
        assert((n / 10) / 10 == n / 100);
        join3(digit_text(n / 100), digit_text((n / 10) % 10), digit_text(n % 10))
    }
}

/// Adds a text to the frame.
pub fn put_text(frame: &mut Vec<DrawOp>, col: u16, row: u16, text: String)
    ensures
        final(frame).deep_view() == old(frame).deep_view().push(
            DrawOpView::Text { col: col as int, row: row as int, text: text@ },
        ),
{
    let ghost before = frame.deep_view();
    let ghost added = DrawOpView::Text { col: col as int, row: row as int, text: text@ };
    frame.push(DrawOp::Text { col, row, text });
    assert(frame.deep_view() =~= before.push(added));
}

/// Adds a single character to the frame.
pub fn put_glyph(frame: &mut Vec<DrawOp>, col: u16, row: u16, icon: char)
    ensures
        final(frame).deep_view() == old(frame).deep_view().push(
            DrawOpView::Glyph { col: col as int, row: row as int, icon },
        ),
{
    let ghost before = frame.deep_view();
    let ghost added = DrawOpView::Glyph { col: col as int, row: row as int, icon };
    frame.push(DrawOp::Glyph { col, row, icon });
    assert(frame.deep_view() =~= before.push(added));
}

/// Adds what `more` holds to the end of the frame.
pub fn put_all(frame: &mut Vec<DrawOp>, more: Vec<DrawOp>)
    ensures
        final(frame).deep_view() == old(frame).deep_view() + more.deep_view(),
{
    let ghost before = frame.deep_view();
    let ghost added = more.deep_view();
    let mut more = more;
    frame.append(&mut more);
    assert(frame.deep_view() =~= before + added);
}

fn border_row_text(cols: u16, edge: bool) -> (text: String)
    ensures
        text@ == border_row(cols as int, edge),
{
    let end = if edge {
        "+"
    } else {
        "|"
    };
    let fill = if edge {
        "-"
    } else {
        " "
    };
    if cols == 0 {
        String::new()
    } else if cols == 1 {
        end.to_owned()
    } else {
        let middle = repeat_text(fill, (cols - 2) as usize);
        join3(end, middle.as_str(), end)
    }
}

fn highlight_row_text(cols: u16, edge: bool) -> (text: String)
    ensures
        text@ == highlight_row(cols as int, edge),
{
    if edge {
        repeat_text("=", cols as usize)
    } else if cols == 0 {
        String::new()
    } else if cols == 1 {
        "=".to_owned()
    } else {
        let middle = repeat_text(" ", (cols - 2) as usize);
        join3("=", middle.as_str(), "=")
    }
}

impl Screen {
    /// A rectangular border with its top left corner at
    /// `(start_col, start_row)`, `cols` columns wide and `rows` rows high,
    /// filled with blanks.
    pub fn draw_border(&self, start_col: u16, start_row: u16, cols: u16, rows: u16) -> (frame: Vec<
        DrawOp,
    >)
        requires
            start_col + cols <= u16::MAX,
            start_row + rows <= u16::MAX,
        ensures
            frame.deep_view() == border(start_col as int, start_row as int, cols as int, rows as int),
    {
        let mut frame: Vec<DrawOp> = Vec::new();
        let mut k: u16 = 0;
        while k < rows
            invariant
                k <= rows,
                start_row + rows <= u16::MAX,
                frame@.len() == k,
                forall|j: int|
                    0 <= j < k ==> (#[trigger] frame@[j])@ == border(
                        start_col as int,
                        start_row as int,
                        cols as int,
                        rows as int,
                    )[j],
            decreases rows - k,
        {
            let text = border_row_text(cols, k == 0 || k == rows - 1);
            frame.push(DrawOp::Text { col: start_col, row: start_row + k, text });
            k += 1;
        }
        assert(frame.deep_view() =~= border(
            start_col as int,
            start_row as int,
            cols as int,
            rows as int,
        ));
        frame
    }

    /// A border as `draw_border` draws it, with a frame of `=` inside it
    /// that marks the box as selected.
    pub fn draw_highlight_border(&self, start_col: u16, start_row: u16, cols: u16, rows: u16) -> (frame:
        Vec<DrawOp>)
        requires
            start_col + cols <= u16::MAX,
            start_row + rows <= u16::MAX,
            cols >= 2,
            rows >= 2,
        ensures
            frame.deep_view() == highlight_border(
                start_col as int,
                start_row as int,
                cols as int,
                rows as int,
            ),
    {
        let mut frame = self.draw_border(start_col, start_row, cols, rows);
        let ghost outer = frame.deep_view();
        let mut inner: Vec<DrawOp> = Vec::new();
        let h_rows = rows - 2;
        let mut k: u16 = 0;
        while k < h_rows
            invariant
                k <= h_rows,
                h_rows == rows - 2,
                cols >= 2,
                start_col + cols <= u16::MAX,
                start_row + rows <= u16::MAX,
                inner@.len() == k,
                forall|j: int|
                    0 <= j < k ==> (#[trigger] inner@[j])@ == (DrawOpView::Text {
                        col: start_col + 1,
                        row: start_row + 1 + j,
                        text: highlight_row(cols - 2, j == 0 || j == rows - 3),
                    }),
            decreases h_rows - k,
        {
            let text = highlight_row_text(cols - 2, k == 0 || k == h_rows - 1);
            inner.push(DrawOp::Text { col: start_col + 1, row: start_row + 1 + k, text });
            k += 1;
        }
        put_all(&mut frame, inner);
        assert(frame.deep_view() =~= highlight_border(
            start_col as int,
            start_row as int,
            cols as int,
            rows as int,
        ));
        frame
    }

    /// The lines, one row each from `row0` down, every line set in the
    /// middle of a container of `container` columns that begins at `left`.
    pub fn draw_centered_lines(&self, lines: &Vec<String>, left: u16, container: u16, row0: u16) -> (frame:
        Vec<DrawOp>)
        requires
            left + container / 2 <= u16::MAX,
            row0 + lines.len() <= u16::MAX,
        ensures
            frame.deep_view() == centered_lines(
                lines.deep_view(),
                left as int,
                container as int,
                row0 as int,
            ),
    {
        let mut frame: Vec<DrawOp> = Vec::new();
        let mut k: usize = 0;
        while k < lines.len()
            invariant
                k <= lines.len(),
                left + container / 2 <= u16::MAX,
                row0 + lines.len() <= u16::MAX,
                frame@.len() == k,
                forall|j: int|
                    0 <= j < k ==> (#[trigger] frame@[j])@ == centered_lines(
                        lines.deep_view(),
                        left as int,
                        container as int,
                        row0 as int,
                    )[j],
            decreases lines.len() - k,
        {
            let line = &lines[k];
            assert(lines.deep_view()[k as int] == line@);
            let start = self.horizontally_center_start_position(line.as_str(), container);
            frame.push(
                DrawOp::Text { col: left + start, row: row0 + k as u16, text: line.clone() },
            );
            k += 1;
        }
        assert(frame.deep_view() =~= centered_lines(
            lines.deep_view(),
            left as int,
            container as int,
            row0 as int,
        ));
        frame
    }

    /// The lines, one row each from `row0` down, every line beginning in
    /// column `col`.
    pub fn draw_plain_lines(&self, lines: &Vec<String>, col: u16, row0: u16) -> (frame: Vec<DrawOp>)
        requires
            row0 + lines.len() <= u16::MAX,
        ensures
            frame.deep_view() == plain_lines(lines.deep_view(), col as int, row0 as int),
    {
        let mut frame: Vec<DrawOp> = Vec::new();
        let mut k: usize = 0;
        while k < lines.len()
            invariant
                k <= lines.len(),
                row0 + lines.len() <= u16::MAX,
                frame@.len() == k,
                forall|j: int|
                    0 <= j < k ==> (#[trigger] frame@[j])@ == plain_lines(
                        lines.deep_view(),
                        col as int,
                        row0 as int,
                    )[j],
            decreases lines.len() - k,
        {
            let line = &lines[k];
            assert(lines.deep_view()[k as int] == line@);
            frame.push(DrawOp::Text { col, row: row0 + k as u16, text: line.clone() });
            k += 1;
        }
        assert(frame.deep_view() =~= plain_lines(lines.deep_view(), col as int, row0 as int));
        frame
    }
}

} // verus!

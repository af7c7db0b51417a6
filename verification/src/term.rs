//! Display state of a terminal: colors, style flags, cells, and the grid
//! of cells with bounds-checked access and resize-with-clipping.

use crate::text::{dec_seq, hex_byte_seq, push_dec, push_hex_byte};
use vstd::prelude::*;
use vstd::string::StringExecFns;

verus! {

/// An exact RGB color with three 8-bit channels.
#[derive(Debug, Clone, Copy, PartialEq, Eq, Structural)]
pub struct Color {
    pub r: u8,
    pub g: u8,
    pub b: u8,
}

/// The color type of `vte`'s ANSI handling, from which a [`Color`] can be
/// converted; a plain struct of three public 8-bit channels.
#[verifier::external_type_specification]
pub struct ExRgb(vte::ansi::Rgb);

impl Color {
    /// The default foreground color, a light gray.
    pub open spec fn spec_default_fg() -> Color {
        Color { r: 204, g: 204, b: 204 }
    }

    /// The default background color, black.
    pub open spec fn spec_default_bg() -> Color {
        Color { r: 0, g: 0, b: 0 }
    }

    /// The web-style functional notation of this color: `rgb(r, g, b)` with
    /// the channels in decimal.
    pub open spec fn css_seq(self) -> Seq<char> {
        "rgb("@ + dec_seq(self.r as nat) + ", "@ + dec_seq(self.g as nat) + ", "@ + dec_seq(
            self.b as nat,
        ) + ")"@
    }

    /// The hex notation of this color: `#` followed by the three channels as
    /// two lowercase hex digits each.
    pub open spec fn hex_seq(self) -> Seq<char> {
        "#"@ + hex_byte_seq(self.r as nat) + hex_byte_seq(self.g as nat) + hex_byte_seq(
            self.b as nat,
        )
    }

    /// Create a color from its three channels.
    pub fn new(r: u8, g: u8, b: u8) -> (c: Color)
        ensures
            c == (Color { r, g, b }),
    {
        Color { r, g, b }
    }

    /// The default foreground color (light gray).
    pub fn default_fg() -> (c: Color)
        ensures
            c == Color::spec_default_fg(),
    {
        Color::new(204, 204, 204)
    }

    /// The default background color (black).
    pub fn default_bg() -> (c: Color)
        ensures
            c == Color::spec_default_bg(),
    {
        Color::new(0, 0, 0)
    }

    /// Render this color in the web-style functional notation.
    pub fn to_css(&self) -> (s: String)
        ensures
            s@ == self.css_seq(),
    {
        let mut s = String::new();
        s.append("rgb(");
        push_dec(&mut s, self.r as u16);
        s.append(", ");
        push_dec(&mut s, self.g as u16);
        s.append(", ");
        push_dec(&mut s, self.b as u16);
        s.append(")");
        proof {
            assert(s@ =~= self.css_seq());
        }
        s
    }

    /// Render this color in hex notation.
    pub fn to_hex(&self) -> (s: String)
        ensures
            s@ == self.hex_seq(),
    {
        let mut s = String::new();
        s.append("#");
        push_hex_byte(&mut s, self.r);
        push_hex_byte(&mut s, self.g);
        push_hex_byte(&mut s, self.b);
        proof {
            assert(s@ =~= self.hex_seq());
        }
        s
    }
}

impl From<vte::ansi::Rgb> for Color {
    /// Carry the three channels over unchanged.
    fn from(rgb: vte::ansi::Rgb) -> (c: Color) {
        Color { r: rgb.r, g: rgb.g, b: rgb.b }
    }
}

impl vstd::std_specs::convert::FromSpecImpl<vte::ansi::Rgb> for Color {
    open spec fn obeys_from_spec() -> bool {
        true
    }

    open spec fn from_spec(rgb: vte::ansi::Rgb) -> Color {
        Color { r: rgb.r, g: rgb.g, b: rgb.b }
    }
}

/// Six independent text style flags; every combination is legal.
#[derive(Debug, Clone, Copy, PartialEq, Eq, Structural)]
pub struct Style {
    pub bold: bool,
    pub italic: bool,
    pub underline: bool,
    pub strikethrough: bool,
    pub dim: bool,
    pub inverse: bool,
}

/// `class` appended to the space-separated class list `acc`.
pub open spec fn add_class(acc: Seq<char>, class: Seq<char>) -> Seq<char> {
    if acc.len() == 0 {
        class
    } else {
        acc + " "@ + class
    }
}

impl Style {
    /// The style with every flag disabled.
    pub open spec fn spec_empty() -> Style {
        Style {
            bold: false,
            italic: false,
            underline: false,
            strikethrough: false,
            dim: false,
            inverse: false,
        }
    }

    /// The space-separated CSS class list of this style. The `inverse` flag
    /// has no class of its own and contributes nothing.
    pub open spec fn css_classes_seq(self) -> Seq<char> {
        let acc = Seq::<char>::empty();
        let acc = if self.bold {
            add_class(acc, "font-bold"@)
        } else {
            acc
        };
        let acc = if self.italic {
            add_class(acc, "italic"@)
        } else {
            acc
        };
        let acc = if self.underline {
            add_class(acc, "underline"@)
        } else {
            acc
        };
        let acc = if self.strikethrough {
            add_class(acc, "line-through"@)
        } else {
            acc
        };
        if self.dim {
            add_class(acc, "opacity-50"@)
        } else {
            acc
        }
    }

    /// Create a style with all flags disabled.
    pub fn new() -> (s: Style)
        ensures
            s == Style::spec_empty(),
    {
        Style {
            bold: false,
            italic: false,
            underline: false,
            strikethrough: false,
            dim: false,
            inverse: false,
        }
    }

    /// Whether at least one flag is set.
    pub fn has_any(&self) -> (r: bool)
        ensures
            r == (self.bold || self.italic || self.underline || self.strikethrough || self.dim
                || self.inverse),
    {
        self.bold || self.italic || self.underline || self.strikethrough || self.dim
            || self.inverse
    }

    /// Render the CSS class list of this style.
    pub fn to_css_classes(&self) -> (r: String)
        ensures
            r@ == self.css_classes_seq(),
    {
        let mut s = String::new();
        if self.bold {
            push_class(&mut s, "font-bold");
        }
        if self.italic {
            push_class(&mut s, "italic");
        }
        if self.underline {
            push_class(&mut s, "underline");
        }
        if self.strikethrough {
            push_class(&mut s, "line-through");
        }
        if self.dim {
            push_class(&mut s, "opacity-50");
        }
        s
    }
}

impl Default for Style {
    /// The style with every flag disabled.
    fn default() -> (s: Style)
        ensures
            s == Style::spec_empty(),
    {
        Style::new()
    }
}

/// Append `class` to the class list in `s`, separating with a space when the
/// list is not empty.
fn push_class(s: &mut String, class: &str)
    ensures
        final(s)@ == add_class(old(s)@, class@),
{
    if !s.as_str().is_empty() {
        s.append(" ");
    }
    s.append(class);
}

/// The Unicode white-space characters, the set that `char::is_whitespace`
/// recognizes.
pub open spec fn is_whitespace_char(c: char) -> bool {
    ||| c == ' '
    ||| c == '\t'
    ||| c == '\n'
    ||| c == '\u{b}'
    ||| c == '\u{c}'
    ||| c == '\r'
    ||| c == '\u{85}'
    ||| c == '\u{a0}'
    ||| c == '\u{1680}'
    ||| ('\u{2000}' <= c && c <= '\u{200a}')
    ||| c == '\u{2028}'
    ||| c == '\u{2029}'
    ||| c == '\u{202f}'
    ||| c == '\u{205f}'
    ||| c == '\u{3000}'
}

/// Decide membership in the Unicode white-space set.
fn is_whitespace(c: char) -> (r: bool)
    ensures
        r == is_whitespace_char(c),
{
    c == ' ' || c == '\t' || c == '\n' || c == '\u{b}' || c == '\u{c}' || c == '\r' || c
        == '\u{85}' || c == '\u{a0}' || c == '\u{1680}' || ('\u{2000}' <= c && c <= '\u{200a}') || c
        == '\u{2028}' || c == '\u{2029}' || c == '\u{202f}' || c == '\u{205f}' || c == '\u{3000}'
}

/// One grid position: a character together with its colors and style.
#[derive(Debug, Clone, Copy, PartialEq, Eq, Structural)]
pub struct Cell {
    /// Character displayed in this cell.
    pub c: char,
    /// Foreground color.
    pub fg: Color,
    /// Background color.
    pub bg: Color,
    /// Text style.
    pub style: Style,
}

impl Cell {
    /// The default cell: a space in the default colors with no style.
    pub open spec fn spec_default() -> Cell {
        Cell {
            c: ' ',
            fg: Color::spec_default_fg(),
            bg: Color::spec_default_bg(),
            style: Style::spec_empty(),
        }
    }

    /// Whether this cell shows nothing: a white-space character in the
    /// default colors. The style is deliberately not considered, so a bold
    /// blank cell still counts as empty.
    pub open spec fn spec_is_empty(self) -> bool {
        is_whitespace_char(self.c) && self.fg == Color::spec_default_fg() && self.bg
            == Color::spec_default_bg()
    }

    /// Create a cell showing `c` with the default colors and style.
    pub fn new(c: char) -> (cell: Cell)
        ensures
            cell == (Cell { c, ..Cell::spec_default() }),
    {
        Cell { c, fg: Color::default_fg(), bg: Color::default_bg(), style: Style::new() }
    }

    /// Create a cell showing `c` with the given colors and the default style.
    pub fn with_colors(c: char, fg: Color, bg: Color) -> (cell: Cell)
        ensures
            cell == (Cell { c, fg, bg, style: Style::spec_empty() }),
    {
        Cell { c, fg, bg, style: Style::new() }
    }

    /// Whether this cell is empty (white-space with default colors).
    pub fn is_empty(&self) -> (r: bool)
        ensures
            r == self.spec_is_empty(),
    {
        is_whitespace(self.c) && self.fg == Color::default_fg() && self.bg == Color::default_bg()
    }
}

impl Default for Cell {
    /// The default cell: a space in the default colors with no style.
    fn default() -> (cell: Cell)
        ensures
            cell == Cell::spec_default(),
    {
        Cell { c: ' ', fg: Color::default_fg(), bg: Color::default_bg(), style: Style::new() }
    }
}

/// The mathematical content of a grid: its dimensions and the row-major
/// sequence of its cells.
#[verifier::ext_equal]
pub struct GridView {
    pub rows: nat,
    pub cols: nat,
    pub cells: Seq<Cell>,
}

impl GridView {
    /// Well-formed: at least one row and one column, and exactly
    /// `rows * cols` cells.
    pub open spec fn wf(self) -> bool {
        &&& 1 <= self.rows
        &&& 1 <= self.cols
        &&& self.cells.len() == self.rows * self.cols
    }

    /// Whether position (r, c) lies inside the grid.
    pub open spec fn in_bounds(self, r: int, c: int) -> bool {
        0 <= r < self.rows && 0 <= c < self.cols
    }

    /// The cell at position (r, c).
    pub open spec fn cell(self, r: int, c: int) -> Cell {
        self.cells[r * self.cols as int + c]
    }

    /// This grid with position (r, c) replaced by `x` when (r, c) is in
    /// bounds, and unchanged otherwise.
    pub open spec fn set_cell(self, r: int, c: int, x: Cell) -> GridView {
        if self.in_bounds(r, c) {
            GridView { cells: self.cells.update(r * self.cols as int + c, x), ..self }
        } else {
            self
        }
    }

    /// This grid with every cell reset to the default.
    pub open spec fn cleared(self) -> GridView {
        GridView { cells: Seq::new(self.cells.len(), |i: int| Cell::spec_default()), ..self }
    }

    /// This grid resized to `nr` rows and `nc` columns: positions inside the
    /// overlap with the old dimensions keep their cells, all others hold the
    /// default cell.
    pub open spec fn resized(self, nr: nat, nc: nat) -> GridView {
        GridView {
            rows: nr,
            cols: nc,
            cells: Seq::new(
                nr * nc,
                |i: int|
                    if i / (nc as int) < self.rows && i % (nc as int) < self.cols {
                        self.cell(i / (nc as int), i % (nc as int))
                    } else {
                        Cell::spec_default()
                    },
            ),
        }
    }
}

/// A row-major position (r, c) of a `rows` x `cols` grid names a valid flat
/// index, which decomposes back into (r, c).
pub proof fn lemma_flat_index(rows: int, cols: int, r: int, c: int)
    requires
        0 <= r < rows,
        0 <= c < cols,
    ensures
        0 <= r * cols + c < rows * cols,
        (r * cols + c) / cols == r,
        (r * cols + c) % cols == c,
{
    assert(0 <= r * cols + c < rows * cols) by (nonlinear_arith)
        requires
            0 <= r < rows,
            0 <= c < cols,
    ;
    vstd::arithmetic::div_mod::lemma_fundamental_div_mod_converse(r * cols + c, cols, r, c);
}

/// A valid flat index of a `rows` x `cols` grid decomposes into an in-bounds
/// row and column.
pub proof fn lemma_index_split(rows: int, cols: int, i: int)
    requires
        1 <= cols,
        0 <= i < rows * cols,
    ensures
        0 <= i / cols < rows,
        0 <= i % cols < cols,
        i == (i / cols) * cols + i % cols,
{
    vstd::arithmetic::div_mod::lemma_fundamental_div_mod(i, cols);
    vstd::arithmetic::div_mod::lemma_mod_pos_bound(i, cols);
    vstd::arithmetic::div_mod::lemma_div_pos_is_pos(i, cols);
    assert(i == cols * (i / cols) + i % cols);
    assert(cols * (i / cols) == (i / cols) * cols) by (nonlinear_arith);
    if i / cols >= rows {
        assert((i / cols) * cols >= rows * cols) by (nonlinear_arith)
            requires
                cols >= 1,
                i / cols >= rows,
        ;
        assert(false);
    }
}

/// A fixed-capacity, row-major grid of cells with bounds-checked access,
/// clearing, and resize that clips to the overlap rectangle.
#[derive(Debug, Clone)]
pub struct Grid {
    cells: Vec<Cell>,
    rows: usize,
    cols: usize,
}

impl View for Grid {
    type V = GridView;

    closed spec fn view(&self) -> GridView {
        GridView { rows: self.rows as nat, cols: self.cols as nat, cells: self.cells@ }
    }
}

impl Grid {
    /// Create a grid of the given dimensions with every cell defaulted.
    /// Zero rows or columns are a caller error and are excluded outright.
    pub fn new(rows: usize, cols: usize) -> (g: Grid)
        requires
            1 <= rows,
            1 <= cols,
            rows * cols <= usize::MAX,
        ensures
            g@.wf(),
            g@.rows == rows as nat,
            g@.cols == cols as nat,
            forall|r: int, c: int| g@.in_bounds(r, c) ==> g@.cell(r, c) == Cell::spec_default(),
    {
        let n = rows * cols;
        let mut cells: Vec<Cell> = Vec::new();
        let mut i: usize = 0;
        while i < n
            invariant
                i <= n,
                cells@.len() == i,
                forall|k: int| 0 <= k < i ==> cells@[k] == Cell::spec_default(),
            decreases n - i,
        {
            cells.push(Cell::default());
            i += 1;
        }
        let g = Grid { cells, rows, cols };
        proof {
            assert forall|r: int, c: int| g@.in_bounds(r, c) implies g@.cell(r, c)
                == Cell::spec_default() by {
                lemma_flat_index(rows as int, cols as int, r, c);
            }
        }
        g
    }

    /// The number of rows.
    pub fn rows(&self) -> (r: usize)
        ensures
            r as nat == self@.rows,
    {
        self.rows
    }

    /// The number of columns.
    pub fn cols(&self) -> (c: usize)
        ensures
            c as nat == self@.cols,
    {
        self.cols
    }

    /// The cell at (row, col), or `None` outside the grid.
    pub fn get(&self, row: usize, col: usize) -> (r: Option<&Cell>)
        requires
            self@.wf(),
        ensures
            self@.in_bounds(row as int, col as int) ==> (r matches Some(cell) && *cell == self@.cell(
                row as int,
                col as int,
            )),
            !self@.in_bounds(row as int, col as int) ==> r is None,
    {
        if row < self.rows && col < self.cols {
            proof {
                vstd::std_specs::vec::axiom_spec_len(&self.cells);
                lemma_flat_index(self.rows as int, self.cols as int, row as int, col as int);
            }
            Some(&self.cells[row * self.cols + col])
        } else {
            None
        }
    }

    /// A mutable borrow of the cell at (row, col), or `None` outside the
    /// grid; a write through the borrow changes only that position.
    pub fn get_mut(&mut self, row: usize, col: usize) -> (r: Option<&mut Cell>)
        requires
            old(self)@.wf(),
        ensures
            old(self)@.in_bounds(row as int, col as int) ==> (r matches Some(cell) && *cell == old(
                self,
            )@.cell(row as int, col as int) && final(self)@ == old(self)@.set_cell(
                row as int,
                col as int,
                *final(cell),
            )),
            !old(self)@.in_bounds(row as int, col as int) ==> (r is None && final(self)@ == old(
                self,
            )@),
            final(self)@.wf(),
    {
        if row < self.rows && col < self.cols {
            proof {
                vstd::std_specs::vec::axiom_spec_len(&self.cells);
                lemma_flat_index(self.rows as int, self.cols as int, row as int, col as int);
            }
            Some(&mut self.cells[row * self.cols + col])
        } else {
            None
        }
    }

    /// Write `cell` at (row, col); a write outside the grid is a no-op.
    pub fn set(&mut self, row: usize, col: usize, cell: Cell)
        requires
            old(self)@.wf(),
        ensures
            final(self)@ == old(self)@.set_cell(row as int, col as int, cell),
            final(self)@.wf(),
    {
        if row < self.rows && col < self.cols {
            proof {
                vstd::std_specs::vec::axiom_spec_len(&self.cells);
                lemma_flat_index(self.rows as int, self.cols as int, row as int, col as int);
            }
            self.cells[row * self.cols + col] = cell;
        }
    }

    /// Reset every cell to the default.
    pub fn clear(&mut self)
        requires
            old(self)@.wf(),
        ensures
            final(self)@ == old(self)@.cleared(),
            final(self)@.wf(),
    {
        let n = self.cells.len();
        let mut i: usize = 0;
        while i < n
            invariant
                i <= n,
                n == self.cells@.len(),
                self.rows == old(self).rows,
                self.cols == old(self).cols,
                self.cells@.len() == old(self).cells@.len(),
                forall|k: int| 0 <= k < i ==> self.cells@[k] == Cell::spec_default(),
            decreases n - i,
        {
            self.cells[i] = Cell::default();
            i += 1;
        }
        proof {
            assert(self@ =~= old(self)@.cleared());
        }
    }

    /// The rows of the grid, top to bottom, each a vector of exactly `cols`
    /// cells.
    pub fn iter_rows(&self) -> (rows: Vec<Vec<Cell>>)
        requires
            self@.wf(),
        ensures
            rows@.len() == self@.rows,
            forall|r: int| 0 <= r < self@.rows ==> #[trigger] rows@[r]@.len() == self@.cols,
            forall|r: int, c: int|
                self@.in_bounds(r, c) ==> #[trigger] rows@[r]@[c] == self@.cell(r, c),
    {
        let mut out: Vec<Vec<Cell>> = Vec::new();
        let mut r: usize = 0;
        while r < self.rows
            invariant
                self@.wf(),
                r <= self.rows,
                out@.len() == r,
                forall|k: int| 0 <= k < r ==> #[trigger] out@[k]@.len() == self@.cols,
                forall|k: int, c: int|
                    0 <= k < r && 0 <= c < self@.cols ==> #[trigger] out@[k]@[c] == self@.cell(
                        k,
                        c,
                    ),
            decreases self.rows - r,
        {
            let mut rowv: Vec<Cell> = Vec::new();
            let mut c: usize = 0;
            while c < self.cols
                invariant
                    self@.wf(),
                    r < self.rows,
                    c <= self.cols,
                    rowv@.len() == c,
                    forall|j: int| 0 <= j < c ==> #[trigger] rowv@[j] == self@.cell(r as int, j),
                decreases self.cols - c,
            {
                proof {
                    vstd::std_specs::vec::axiom_spec_len(&self.cells);
                    lemma_flat_index(self.rows as int, self.cols as int, r as int, c as int);
                }
                rowv.push(self.cells[r * self.cols + c]);
                c += 1;
            }
            out.push(rowv);
            r += 1;
        }
        out
    }

    /// Resize the grid to the given dimensions, keeping the cells of the
    /// overlap rectangle and defaulting all others. Zero rows or columns are
    /// a caller error and are excluded outright.
    pub fn resize(&mut self, new_rows: usize, new_cols: usize)
        requires
            old(self)@.wf(),
            1 <= new_rows,
            1 <= new_cols,
            new_rows * new_cols <= usize::MAX,
        ensures
            final(self)@ == old(self)@.resized(new_rows as nat, new_cols as nat),
            final(self)@.wf(),
    {
        let n = new_rows * new_cols;
        let mut new_cells: Vec<Cell> = Vec::new();
        let mut i: usize = 0;
        while i < n
            invariant
                i <= n,
                new_cells@.len() == i,
                forall|k: int| 0 <= k < i ==> new_cells@[k] == Cell::spec_default(),
            decreases n - i,
        {
            new_cells.push(Cell::default());
            i += 1;
        }
        let min_rows = if new_rows < self.rows {
            new_rows
        } else {
            self.rows
        };
        let min_cols = if new_cols < self.cols {
            new_cols
        } else {
            self.cols
        };
        let mut r: usize = 0;
        while r < min_rows
            invariant
                *self == *old(self),
                self@.wf(),
                r <= min_rows,
                min_rows <= new_rows,
                min_rows <= self.rows,
                min_rows == new_rows || min_rows == self.rows,
                min_cols <= new_cols,
                min_cols <= self.cols,
                min_cols == new_cols || min_cols == self.cols,
                1 <= new_rows,
                1 <= new_cols,
                n == new_rows * new_cols,
                new_cells@.len() == n,
                forall|k: int|
                    0 <= k < n ==> #[trigger] new_cells@[k] == (if k / (new_cols as int) < r && k
                        % (new_cols as int) < self@.cols {
                        self@.cell(k / (new_cols as int), k % (new_cols as int))
                    } else {
                        Cell::spec_default()
                    }),
            decreases min_rows - r,
        {
            let mut c: usize = 0;
            while c < min_cols
                invariant
                    *self == *old(self),
                    self@.wf(),
                    r < min_rows,
                    c <= min_cols,
                    min_rows <= new_rows,
                    min_rows <= self.rows,
                    min_cols <= new_cols,
                    min_cols <= self.cols,
                    1 <= new_rows,
                    1 <= new_cols,
                    n == new_rows * new_cols,
                    new_cells@.len() == n,
                    forall|k: int|
                        0 <= k < n ==> #[trigger] new_cells@[k] == (if (k / (new_cols as int) < r
                            || (k / (new_cols as int) == r && k % (new_cols as int) < c)) && k % (
                        new_cols as int) < self@.cols {
                            self@.cell(k / (new_cols as int), k % (new_cols as int))
                        } else {
                            Cell::spec_default()
                        }),
                decreases min_cols - c,
            {
                proof {
                    vstd::std_specs::vec::axiom_spec_len(&self.cells);
                    lemma_flat_index(new_rows as int, new_cols as int, r as int, c as int);
                    lemma_flat_index(self.rows as int, self.cols as int, r as int, c as int);
                }
                let src = self.cells[r * self.cols + c];
                let ghost prev = new_cells@;
                new_cells[r * new_cols + c] = src;
                proof {
                    assert forall|k: int| 0 <= k < n implies #[trigger] new_cells@[k] == (if (k / (
                    new_cols as int) < r || (k / (new_cols as int) == r && k % (new_cols as int) < c
                        + 1)) && k % (new_cols as int) < self@.cols {
                        self@.cell(k / (new_cols as int), k % (new_cols as int))
                    } else {
                        Cell::spec_default()
                    }) by {
                        lemma_index_split(new_rows as int, new_cols as int, k);
                    }
                }
                c += 1;
            }
            proof {
                assert forall|k: int| 0 <= k < n implies #[trigger] new_cells@[k] == (if k / (
                new_cols as int) < r + 1 && k % (new_cols as int) < self@.cols {
                    self@.cell(k / (new_cols as int), k % (new_cols as int))
                } else {
                    Cell::spec_default()
                }) by {
                    lemma_index_split(new_rows as int, new_cols as int, k);
                }
            }
            r += 1;
        }
        self.cells = new_cells;
        self.rows = new_rows;
        self.cols = new_cols;
        proof {
            let target = old(self)@.resized(new_rows as nat, new_cols as nat);
            assert forall|k: int| 0 <= k < n implies self@.cells[k] == target.cells[k] by {
                lemma_index_split(new_rows as int, new_cols as int, k);
            }
            assert(self@ =~= target);
        }
    }
}

/// Law: a cell written in bounds is read back exactly, every other position
/// keeps its cell, and a write outside the grid changes nothing.
pub proof fn lemma_set_get_round_trip(v: GridView, r: int, c: int, x: Cell)
    requires
        v.wf(),
    ensures
        v.in_bounds(r, c) ==> v.set_cell(r, c, x).cell(r, c) == x,
        forall|r2: int, c2: int|
            v.in_bounds(r2, c2) && (r2 != r || c2 != c) ==> #[trigger] v.set_cell(r, c, x).cell(
                r2,
                c2,
            ) == v.cell(r2, c2),
        !v.in_bounds(r, c) ==> v.set_cell(r, c, x) == v,
{
    if v.in_bounds(r, c) {
        lemma_flat_index(v.rows as int, v.cols as int, r, c);
        assert forall|r2: int, c2: int|
            v.in_bounds(r2, c2) && (r2 != r || c2 != c) implies #[trigger] v.set_cell(
            r,
            c,
            x,
        ).cell(r2, c2) == v.cell(r2, c2) by {
            lemma_flat_index(v.rows as int, v.cols as int, r2, c2);
        }
    }
}

/// Law: after a resize, every in-bounds position of the new grid shows the
/// old cell inside the overlap with the old dimensions, and the default cell
/// outside it.
pub proof fn lemma_resize_overlap(v: GridView, nr: nat, nc: nat, r: int, c: int)
    requires
        v.wf(),
        1 <= nr,
        1 <= nc,
        0 <= r < nr,
        0 <= c < nc,
    ensures
        v.resized(nr, nc).wf(),
        v.resized(nr, nc).cell(r, c) == (if r < v.rows && c < v.cols {
            v.cell(r, c)
        } else {
            Cell::spec_default()
        }),
{
    lemma_flat_index(nr as int, nc as int, r, c);
}

/// Law: clearing is idempotent; a second clear leaves the all-default state
/// of the first unchanged.
pub proof fn lemma_clear_idempotent(v: GridView)
    ensures
        v.cleared().cleared() == v.cleared(),
{
    assert(v.cleared().cleared() =~= v.cleared());
}

} // verus!

//! The render target: a 2D grid of styled character cells addressed by
//! (column, row). The engine writes only through bounds-checked operations,
//! so every paint stays inside the grid and the contract of each operation
//! names exactly the cells it may change.

use vstd::prelude::*;

use crate::geometry::Rect;

verus! {

/// A terminal color. Theme lookup happens outside this crate; the engine
/// only carries resolved colors to the cells it paints.
#[derive(Clone, Copy, PartialEq, Eq, Structural, Debug)]
pub enum Color {
    /// The terminal's default color.
    Reset,
    /// An entry of the terminal's 256-color palette.
    Indexed(u8),
}

/// A foreground/background color pair.
#[derive(Clone, Copy, PartialEq, Eq, Structural, Debug)]
pub struct Style {
    pub fg: Color,
    pub bg: Color,
}

/// One character cell of the grid.
#[derive(Clone, Copy, PartialEq, Eq, Structural, Debug)]
pub struct Cell {
    pub symbol: char,
    pub fg: Color,
    pub bg: Color,
}

impl Cell {
    /// A blank cell carrying the given style.
    pub open spec fn spec_blank(style: Style) -> Cell {
        Cell { symbol: ' ', fg: style.fg, bg: style.bg }
    }

    pub fn blank(style: Style) -> (c: Cell)
        ensures
            c == Cell::spec_blank(style),
    {
        Cell { symbol: ' ', fg: style.fg, bg: style.bg }
    }
}

/// A grid of `width x height` cells stored row-major: the cell at column
/// `x`, row `y` sits at index `y * width + x`.
pub struct Surface {
    pub width: u16,
    pub height: u16,
    pub cells: Vec<Cell>,
}

impl Surface {
    /// The backing vector holds exactly one cell per grid coordinate.
    pub open spec fn wf(self) -> bool {
        self.cells@.len() == self.width * self.height
    }

    /// The index of the cell at column `x`, row `y`.
    pub open spec fn spec_index(self, x: int, y: int) -> int {
        y * self.width + x
    }

    /// The cell at column `x`, row `y`.
    pub open spec fn spec_cell(self, x: int, y: int) -> Cell {
        self.cells@[self.spec_index(x, y)]
    }

    /// The whole screen as a rectangle rooted at the origin.
    pub open spec fn spec_rect(self) -> Rect {
        Rect { x: 0, y: 0, width: self.width, height: self.height }
    }

    /// Both surfaces have the same dimensions and agree on every cell
    /// outside `area`: a paint confined to `area` changes nothing else.
    pub open spec fn spec_same_outside(self, other: Surface, area: Rect) -> bool {
        &&& other.width == self.width
        &&& other.height == self.height
        &&& forall|x: int, y: int|
            0 <= x < self.width && 0 <= y < self.height && !area.spec_contains(x, y)
                ==> other.spec_cell(x, y) == self.spec_cell(x, y)
    }

    /// A fresh surface of blank cells in the default colors.
    pub fn new(width: u16, height: u16) -> (s: Surface)
        ensures
            s.wf(),
            s.width == width,
            s.height == height,
            forall|x: int, y: int|
                0 <= x < width && 0 <= y < height ==> s.spec_cell(x, y) == Cell::spec_blank(
                    Style { fg: Color::Reset, bg: Color::Reset },
                ),
    {
        proof {
            lemma_u16_mul_bound(width as int, height as int);
        }
        let total: usize = (width as usize) * (height as usize);
        let mut cells: Vec<Cell> = Vec::new();
        let blank = Cell { symbol: ' ', fg: Color::Reset, bg: Color::Reset };
        let mut i: usize = 0;
        while i < total
            invariant
                i <= total,
                cells@.len() == i,
                forall|k: int| 0 <= k < i ==> cells@[k] == blank,
            decreases total - i,
        {
            cells.push(blank);
            i = i + 1;
        }
        let s = Surface { width, height, cells };
        proof {
            assert forall|x: int, y: int| 0 <= x < width && 0 <= y < height implies s.spec_cell(
                x,
                y,
            ) == Cell::spec_blank(Style { fg: Color::Reset, bg: Color::Reset }) by {
                lemma_index_in_range(width as int, height as int, x, y);
            }
        }
        s
    }

    /// Reads the cell at column `x`, row `y`.
    pub fn get(&self, x: u16, y: u16) -> (c: Cell)
        requires
            self.wf(),
            x < self.width,
            y < self.height,
        ensures
            c == self.spec_cell(x as int, y as int),
    {
        proof {
            lemma_index_in_range(self.width as int, self.height as int, x as int, y as int);
        }
        let idx: usize = (y as usize) * (self.width as usize) + (x as usize);
        self.cells[idx]
    }

    /// Overwrites the cell at column `x`, row `y`; no other cell changes.
    pub fn put(&mut self, x: u16, y: u16, cell: Cell)
        requires
            old(self).wf(),
            x < old(self).width,
            y < old(self).height,
        ensures
            final(self).wf(),
            final(self).width == old(self).width,
            final(self).height == old(self).height,
            final(self).spec_cell(x as int, y as int) == cell,
            forall|cx: int, cy: int|
                0 <= cx < old(self).width && 0 <= cy < old(self).height && !(cx == x && cy == y)
                    ==> final(self).spec_cell(cx, cy) == old(self).spec_cell(cx, cy),
    {
        proof {
            lemma_index_in_range(self.width as int, self.height as int, x as int, y as int);
        }
        let idx: usize = (y as usize) * (self.width as usize) + (x as usize);
        let c = &mut self.cells[idx];
        *c = cell;
        proof {
            assert forall|cx: int, cy: int|
                0 <= cx < self.width && 0 <= cy < self.height && !(cx == x && cy == y) implies self
                .spec_cell(cx, cy) == old(self).spec_cell(cx, cy) by {
                lemma_index_in_range(self.width as int, self.height as int, cx, cy);
                lemma_index_injective(self.width as int, cx, cy, x as int, y as int);
            }
        }
    }

    /// Replaces the symbol and foreground of the cell at column `x`, row
    /// `y`, keeping its background; no other cell changes.
    pub fn put_symbol_fg(&mut self, x: u16, y: u16, symbol: char, fg: Color)
        requires
            old(self).wf(),
            x < old(self).width,
            y < old(self).height,
        ensures
            final(self).wf(),
            final(self).width == old(self).width,
            final(self).height == old(self).height,
            final(self).spec_cell(x as int, y as int) == (Cell {
                symbol,
                fg,
                bg: old(self).spec_cell(x as int, y as int).bg,
            }),
            forall|cx: int, cy: int|
                0 <= cx < old(self).width && 0 <= cy < old(self).height && !(cx == x && cy == y)
                    ==> final(self).spec_cell(cx, cy) == old(self).spec_cell(cx, cy),
    {
        let old_cell = self.get(x, y);
        self.put(x, y, Cell { symbol, fg, bg: old_cell.bg });
    }

    /// Fills every cell of `area` that lies on the surface with a blank
    /// styled cell; cells outside `area` keep their value.
    pub fn clear_with(&mut self, area: &Rect, style: Style)
        requires
            old(self).wf(),
            area.spec_within(old(self).spec_rect()),
        ensures
            final(self).wf(),
            final(self).spec_same_outside(*old(self), *area),
            forall|cx: int, cy: int|
                area.spec_contains(cx, cy) ==> final(self).spec_cell(cx, cy) == Cell::spec_blank(
                    style,
                ),
    {
        let blank = Cell::blank(style);
        if area.width == 0 || area.height == 0 {
            return ;
        }
        let mut row: u16 = 0;
        while row < area.height
            invariant
                self.wf(),
                row <= area.height,
                area.spec_within(old(self).spec_rect()),
                area.width > 0 && area.height > 0,
                self.width == old(self).width,
                self.height == old(self).height,
                forall|cx: int, cy: int|
                    0 <= cx < self.width && 0 <= cy < self.height && !area.spec_contains(cx, cy)
                        ==> self.spec_cell(cx, cy) == old(self).spec_cell(cx, cy),
                forall|cx: int, cy: int|
                    area.spec_contains(cx, cy) && cy < area.y + row ==> self.spec_cell(cx, cy)
                        == blank,
            decreases area.height - row,
        {
            let mut colu: u16 = 0;
            while colu < area.width
                invariant
                    self.wf(),
                    row < area.height,
                    colu <= area.width,
                    area.spec_within(old(self).spec_rect()),
                    area.width > 0 && area.height > 0,
                    self.width == old(self).width,
                    self.height == old(self).height,
                    forall|cx: int, cy: int|
                        0 <= cx < self.width && 0 <= cy < self.height && !area.spec_contains(
                            cx,
                            cy,
                        ) ==> self.spec_cell(cx, cy) == old(self).spec_cell(cx, cy),
                    forall|cx: int, cy: int|
                        area.spec_contains(cx, cy) && cy < area.y + row ==> self.spec_cell(cx, cy)
                            == blank,
                    forall|cx: int, cy: int|
                        area.spec_contains(cx, cy) && cy == area.y + row && cx < area.x + colu
                            ==> self.spec_cell(cx, cy) == blank,
                decreases area.width - colu,
            {
                self.put(area.x + colu, area.y + row, blank);
                colu = colu + 1;
            }
            row = row + 1;
        }
    }
}

/// The border glyph a cell of `area` receives, if it lies on the edge:
/// corners, then horizontal runs, then vertical runs.
pub open spec fn spec_border_symbol(area: Rect, x: int, y: int) -> Option<char> {
    let on_top = y == area.y;
    let on_bottom = y == area.spec_bottom() - 1;
    let on_left = x == area.x;
    let on_right = x == area.spec_right() - 1;
    if on_bottom && on_right {
        Some('┘')
    } else if on_bottom && on_left {
        Some('└')
    } else if on_top && on_right {
        Some('┐')
    } else if on_top && on_left {
        Some('┌')
    } else if on_top || on_bottom {
        Some('─')
    } else if on_left || on_right {
        Some('│')
    } else {
        None
    }
}

/// The border glyph for the cell of `area` at column `x`, row `y`.
fn border_symbol_at(area: &Rect, x: u16, y: u16) -> (r: Option<char>)
    requires
        area.wf(),
        area.spec_contains(x as int, y as int),
    ensures
        r == spec_border_symbol(*area, x as int, y as int),
{
    let on_top = y == area.y;
    let on_bottom = (y as usize) + 1 == (area.y as usize) + (area.height as usize);
    let on_left = x == area.x;
    let on_right = (x as usize) + 1 == (area.x as usize) + (area.width as usize);
    if on_bottom && on_right {
        Some('┘')
    } else if on_bottom && on_left {
        Some('└')
    } else if on_top && on_right {
        Some('┐')
    } else if on_top && on_left {
        Some('┌')
    } else if on_top || on_bottom {
        Some('─')
    } else if on_left || on_right {
        Some('│')
    } else {
        None
    }
}

impl Surface {
    /// Draws a one-cell box border along the edge of `area`, keeping each
    /// edge cell's colors; interior cells and cells outside `area` are
    /// untouched.
    pub fn draw_border(&mut self, area: &Rect)
        requires
            old(self).wf(),
            area.spec_within(old(self).spec_rect()),
        ensures
            final(self).wf(),
            final(self).spec_same_outside(*old(self), *area),
            forall|cx: int, cy: int|
                area.spec_contains(cx, cy) ==> final(self).spec_cell(cx, cy) == (match spec_border_symbol(
                    *area,
                    cx,
                    cy,
                ) {
                    Some(sym) => Cell {
                        symbol: sym,
                        fg: old(self).spec_cell(cx, cy).fg,
                        bg: old(self).spec_cell(cx, cy).bg,
                    },
                    None => old(self).spec_cell(cx, cy),
                }),
    {
        if area.width == 0 || area.height == 0 {
            return ;
        }
        let mut row: u16 = 0;
        while row < area.height
            invariant
                self.wf(),
                row <= area.height,
                area.spec_within(old(self).spec_rect()),
                area.width > 0 && area.height > 0,
                self.width == old(self).width,
                self.height == old(self).height,
                forall|cx: int, cy: int|
                    0 <= cx < self.width && 0 <= cy < self.height && !area.spec_contains(cx, cy)
                        ==> self.spec_cell(cx, cy) == old(self).spec_cell(cx, cy),
                forall|cx: int, cy: int|
                    area.spec_contains(cx, cy) && cy < area.y + row ==> self.spec_cell(cx, cy)
                        == (match spec_border_symbol(*area, cx, cy) {
                        Some(sym) => Cell {
                            symbol: sym,
                            fg: old(self).spec_cell(cx, cy).fg,
                            bg: old(self).spec_cell(cx, cy).bg,
                        },
                        None => old(self).spec_cell(cx, cy),
                    }),
                forall|cx: int, cy: int|
                    area.spec_contains(cx, cy) && cy >= area.y + row ==> self.spec_cell(cx, cy)
                        == old(self).spec_cell(cx, cy),
            decreases area.height - row,
        {
            let mut colu: u16 = 0;
            while colu < area.width
                invariant
                    self.wf(),
                    row < area.height,
                    colu <= area.width,
                    area.spec_within(old(self).spec_rect()),
                    area.width > 0 && area.height > 0,
                    self.width == old(self).width,
                    self.height == old(self).height,
                    forall|cx: int, cy: int|
                        0 <= cx < self.width && 0 <= cy < self.height && !area.spec_contains(
                            cx,
                            cy,
                        ) ==> self.spec_cell(cx, cy) == old(self).spec_cell(cx, cy),
                    forall|cx: int, cy: int|
                        area.spec_contains(cx, cy) && (cy < area.y + row || (cy == area.y + row
                            && cx < area.x + colu)) ==> self.spec_cell(cx, cy) == (match spec_border_symbol(
                            *area,
                            cx,
                            cy,
                        ) {
                            Some(sym) => Cell {
                                symbol: sym,
                                fg: old(self).spec_cell(cx, cy).fg,
                                bg: old(self).spec_cell(cx, cy).bg,
                            },
                            None => old(self).spec_cell(cx, cy),
                        }),
                    forall|cx: int, cy: int|
                        area.spec_contains(cx, cy) && (cy > area.y + row || (cy == area.y + row
                            && cx >= area.x + colu)) ==> self.spec_cell(cx, cy) == old(
                            self,
                        ).spec_cell(cx, cy),
                decreases area.width - colu,
            {
                let x = area.x + colu;
                let y = area.y + row;
                match border_symbol_at(area, x, y) {
                    Some(sym) => {
                        let old_cell = self.get(x, y);
                        self.put(x, y, Cell { symbol: sym, fg: old_cell.fg, bg: old_cell.bg });
                    },
                    None => {},
                }
                colu = colu + 1;
            }
            row = row + 1;
        }
    }
}

/// Two paints in a row, the second confined to a sub-rectangle of the
/// first's region, together change nothing outside the first's region.
pub proof fn lemma_same_outside_chain(
    a: Surface,
    b: Surface,
    c: Surface,
    outer: Rect,
    inner: Rect,
)
    requires
        b.spec_same_outside(a, outer),
        c.spec_same_outside(b, inner),
        inner.spec_within(outer),
    ensures
        c.spec_same_outside(a, outer),
{
    crate::geometry::lemma_within_contains(inner, outer);
    assert forall|x: int, y: int|
        0 <= x < a.width && 0 <= y < a.height && !outer.spec_contains(x, y) implies c.spec_cell(
        x,
        y,
    ) == a.spec_cell(x, y) by {
        assert(!inner.spec_contains(x, y));
    }
}

/// A product of two cell counts fits comfortably in 32 bits.
pub proof fn lemma_u16_mul_bound(a: int, b: int)
    by (nonlinear_arith)
    requires
        0 <= a <= 0xffff,
        0 <= b <= 0xffff,
    ensures
        0 <= a * b <= 0xfffe_0001,
{
}

/// Row-major indices stay inside the backing vector.
proof fn lemma_index_in_range(width: int, height: int, x: int, y: int)
    requires
        0 <= x < width,
        0 <= y < height,
    ensures
        0 <= y * width + x < width * height,
        width <= 0xffff && height <= 0xffff ==> y * width + x < 0xffff_0000,
{
    if width <= 0xffff && height <= 0xffff {
        lemma_u16_mul_bound(width, height);
    }
    assert(y * width + x < width * height) by (nonlinear_arith)
        requires
            0 <= x < width,
            0 <= y < height,
    ;
    assert(y * width >= 0) by (nonlinear_arith)
        requires
            y >= 0,
            width > 0,
    ;
}

/// Distinct coordinates map to distinct row-major indices.
proof fn lemma_index_injective(width: int, x1: int, y1: int, x2: int, y2: int)
    requires
        0 <= x1 < width,
        0 <= x2 < width,
        0 <= y1,
        0 <= y2,
        !(x1 == x2 && y1 == y2),
    ensures
        y1 * width + x1 != y2 * width + x2,
{
    if y1 == y2 {
        assert(y1 * width == y2 * width);
    } else {
        assert(y1 * width + x1 != y2 * width + x2) by (nonlinear_arith)
            requires
                0 <= x1 < width,
                0 <= x2 < width,
                0 <= y1,
                0 <= y2,
                y1 != y2,
        ;
    }
}

} // verus!

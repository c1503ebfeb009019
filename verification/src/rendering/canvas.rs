//! A fixed-size grid of colors, addressed by column and row.

use vstd::prelude::*;
use crate::rendering::colors::Color;
use crate::text::{decimal, decimal_string};

verus! {

/// The axis of a pixel coordinate.
#[derive(Clone, Copy, Debug, PartialEq, Eq, Structural)]
pub enum Axis {
    /// Columns, counted from the left.
    X,
    /// Rows, counted from the top.
    Y,
}

/// Why a canvas operation was refused.
#[derive(Clone, Copy, Debug, PartialEq, Eq, Structural)]
pub enum CanvasError {
    /// A coordinate was not below the canvas's extent along `axis`.
    PixelPosOutOfBounds { axis: Axis, position: usize, limit: usize },
    /// A canvas of these dimensions would hold more cells than `max_cells()`.
    SizeOverflow { width: usize, height: usize },
}

impl CanvasError {
    /// The text of the error: the axis, the offending position and the limit
    /// it had to stay below, as in `x: 10 >= 10`; for a refused size, the two
    /// dimensions and the number of cells they may not exceed.
    pub open spec fn spec_message(self) -> Seq<char> {
        match self {
            CanvasError::PixelPosOutOfBounds { axis: Axis::X, position, limit } => {
                "x: "@ + decimal(position as nat) + " >= "@ + decimal(limit as nat)
            },
            CanvasError::PixelPosOutOfBounds { axis: Axis::Y, position, limit } => {
                "y: "@ + decimal(position as nat) + " >= "@ + decimal(limit as nat)
            },
            CanvasError::SizeOverflow { width, height } => {
                "size: "@ + decimal(width as nat) + " * "@ + decimal(height as nat) + " > "@
                    + decimal(max_cells())
            },
        }
    }

    /// Renders the error as text.
    pub fn message(&self) -> (s: String)
        ensures
            s@ == self.spec_message(),
    {
        match self {
            CanvasError::PixelPosOutOfBounds { axis, position, limit } => {
                let mut s = match axis {
                    Axis::X => String::from_str("x: "),
                    Axis::Y => String::from_str("y: "),
                };
                s.append(decimal_string(*position).as_str());
                s.append(" >= ");
                s.append(decimal_string(*limit).as_str());
                s
            },
            CanvasError::SizeOverflow { width, height } => {
                let mut s = String::from_str("size: ");
                s.append(decimal_string(*width).as_str());
                s.append(" * ");
                s.append(decimal_string(*height).as_str());
                s.append(" > ");
                s.append(decimal_string(cell_limit()).as_str());
                s
            },
        }
    }
}

/// The number of bytes that one stored color occupies.
pub const CELL_BYTES: usize = 12;

/// The largest number of cells that a canvas may hold: as many colors as fit
/// in the largest allocation, which is `isize::MAX` bytes.
pub open spec fn max_cells() -> nat {
    ((isize::MAX as int) / (CELL_BYTES as int)) as nat
}

/// The largest number of cells that a canvas may hold, on this machine.
pub fn cell_limit() -> (n: usize)
    ensures
        n == max_cells(),
{
    (isize::MAX as usize) / CELL_BYTES
}

/// The mathematical content of a canvas: its dimensions and a color for each
/// coordinate inside them.
pub struct Grid {
    pub width: nat,
    pub height: nat,
    pub cells: Map<(nat, nat), Color>,
}

impl Grid {
    /// Whether `(x, y)` names a cell of the grid.
    pub open spec fn contains(self, x: nat, y: nat) -> bool {
        x < self.width && y < self.height
    }

    /// The cells are exactly the coordinates inside the dimensions.
    pub open spec fn wf(self) -> bool {
        forall|x: nat, y: nat| #[trigger] self.cells.dom().contains((x, y)) <==> self.contains(x, y)
    }

    /// The grid of the given dimensions in which every cell is black.
    pub open spec fn blank(width: nat, height: nat) -> Grid {
        Grid {
            width,
            height,
            cells: Map::new(
                |p: (nat, nat)| p.0 < width && p.1 < height,
                |p: (nat, nat)| Color::black(),
            ),
        }
    }

    /// The outcome of checking `(x, y)` against the dimensions. The column is
    /// checked first, so a coordinate outside on both axes is reported for `X`.
    pub open spec fn check(self, x: usize, y: usize) -> Result<(), CanvasError> {
        if x >= self.width {
            Err(CanvasError::PixelPosOutOfBounds { axis: Axis::X, position: x, limit: self.width as usize })
        } else if y >= self.height {
            Err(CanvasError::PixelPosOutOfBounds { axis: Axis::Y, position: y, limit: self.height as usize })
        } else {
            Ok(())
        }
    }

    /// The outcome of reading the cell `(x, y)`.
    pub open spec fn read(self, x: usize, y: usize) -> Result<Color, CanvasError> {
        match self.check(x, y) {
            Ok(_) => Ok(self.cells[(x as nat, y as nat)]),
            Err(e) => Err(e),
        }
    }

    /// The grid after an attempt to write `color` to `(x, y)`: that cell is
    /// replaced when the coordinate is inside, and nothing changes otherwise.
    pub open spec fn write(self, x: usize, y: usize, color: Color) -> Grid {
        if self.contains(x as nat, y as nat) {
            Grid { cells: self.cells.insert((x as nat, y as nat), color), ..self }
        } else {
            self
        }
    }
}

/// A blank grid is well formed and black everywhere.
pub proof fn lemma_blank_is_black(width: nat, height: nat, x: usize, y: usize)
    requires
        x < width,
        y < height,
    ensures
        Grid::blank(width, height).wf(),
        Grid::blank(width, height).read(x, y) == Ok::<Color, CanvasError>(Color::black()),
{
}

/// Round trip: reading a cell after writing it gives back the color written,
/// and the write keeps the dimensions and the well-formedness of the grid.
pub proof fn lemma_write_then_read(grid: Grid, x: usize, y: usize, color: Color)
    requires
        grid.wf(),
        grid.contains(x as nat, y as nat),
    ensures
        grid.check(x, y) is Ok,
        grid.write(x, y, color).read(x, y) == Ok::<Color, CanvasError>(color),
        grid.write(x, y, color).width == grid.width,
        grid.write(x, y, color).height == grid.height,
        grid.write(x, y, color).wf(),
{
    let after = grid.write(x, y, color);
    assert forall|a: nat, b: nat| #[trigger]
        after.cells.dom().contains((a, b)) <==> after.contains(a, b) by {
        assert(grid.cells.dom().contains((a, b)) <==> grid.contains(a, b));
    }
}

/// A write to one cell leaves what is read at every other coordinate as it
/// was, whether the write succeeds or not.
pub proof fn lemma_write_keeps_other_cells(
    grid: Grid,
    x: usize,
    y: usize,
    color: Color,
    other_x: usize,
    other_y: usize,
)
    requires
        other_x != x || other_y != y,
    ensures
        grid.write(x, y, color).read(other_x, other_y) == grid.read(other_x, other_y),
{
}

/// Outside the grid nothing is read and nothing is written: at a column equal
/// to the width, or a row equal to the height, and at every coordinate beyond,
/// the check names the axis and the limit, and a write leaves the grid as it
/// was. The column is reported when both are outside.
pub proof fn lemma_out_of_bounds(grid: Grid, x: usize, y: usize, color: Color)
    requires
        grid.width <= usize::MAX,
        grid.height <= usize::MAX,
        x >= grid.width || y >= grid.height,
    ensures
        x >= grid.width ==> grid.check(x, y) == Err::<(), CanvasError>(
            CanvasError::PixelPosOutOfBounds { axis: Axis::X, position: x, limit: grid.width as usize },
        ),
        x < grid.width ==> grid.check(x, y) == Err::<(), CanvasError>(
            CanvasError::PixelPosOutOfBounds { axis: Axis::Y, position: y, limit: grid.height as usize },
        ),
        grid.read(x, y) is Err,
        grid.read(x, y)->Err_0 == grid.check(x, y)->Err_0,
        grid.write(x, y, color) == grid,
{
}

/// Whether a canvas of the given dimensions can be built.
pub open spec fn fits(width: usize, height: usize) -> bool {
    width * height <= max_cells()
}

/// A raster of colors with dimensions fixed at construction.
#[derive(Debug)]
pub struct Canvas {
    width: usize,
    height: usize,
    buffer: Vec<Color>,
}

/// Cells of one row lie side by side, rows one after the other.
proof fn lemma_offset_in_range(width: nat, height: nat, x: nat, y: nat)
    requires
        x < width,
        y < height,
    ensures
        y * width + x < width * height,
{
    assert(y * width + width <= height * width) by (nonlinear_arith)
        requires
            y + 1 <= height,
    ;
    assert(height * width == width * height) by (nonlinear_arith);
}

/// Two cells share an offset only if they are the same cell.
proof fn lemma_offset_injective(width: nat, x1: nat, y1: nat, x2: nat, y2: nat)
    requires
        x1 < width,
        x2 < width,
        y1 * width + x1 == y2 * width + x2,
    ensures
        x1 == x2,
        y1 == y2,
{
    if y1 < y2 {
        assert(y1 * width + width <= y2 * width) by (nonlinear_arith)
            requires
                y1 + 1 <= y2,
        ;
    } else if y2 < y1 {
        assert(y2 * width + width <= y1 * width) by (nonlinear_arith)
            requires
                y2 + 1 <= y1,
        ;
    }
}

impl View for Canvas {
    type V = Grid;

    closed spec fn view(&self) -> Grid {
        Grid {
            width: self.width as nat,
            height: self.height as nat,
            cells: Map::new(
                |p: (nat, nat)| p.0 < self.width && p.1 < self.height,
                |p: (nat, nat)| self.buffer@[p.1 * self.width + p.0],
            ),
        }
    }
}

/// The content of every canvas is well formed, and its dimensions are those
/// of machine integers.
pub proof fn lemma_view_wf(canvas: Canvas)
    ensures
        canvas@.wf(),
        canvas@.width <= usize::MAX,
        canvas@.height <= usize::MAX,
{
}

impl Canvas {
    #[verifier::type_invariant]
    spec fn inv(self) -> bool {
        &&& self.buffer@.len() == self.width * self.height
        &&& fits(self.width, self.height)
    }

    /// A canvas of `width` columns and `height` rows, every cell black.
    ///
    /// Fails with `SizeOverflow` exactly when the dimensions do not fit.
    pub fn new(width: usize, height: usize) -> (r: Result<Canvas, CanvasError>)
        ensures
            fits(width, height) ==> r is Ok && r->Ok_0@ == Grid::blank(width as nat, height as nat),
            !fits(width, height) ==> r == Err::<Canvas, CanvasError>(
                CanvasError::SizeOverflow { width, height },
            ),
    {
        let limit: usize = cell_limit();
        match width.checked_mul(height) {
            Some(cells) => {
                if cells <= limit {
                    let buffer = vec![Color::black(); cells];
                    let canvas = Canvas { width, height, buffer };
                    proof {
                        assert forall|x: nat, y: nat| x < width && y < height implies
                            #[trigger] canvas.buffer@[y * width + x] == Color::black() by {
                            lemma_offset_in_range(width as nat, height as nat, x, y);
                        }
                        assert(canvas@.cells =~= Grid::blank(width as nat, height as nat).cells);
                    }
                    Ok(canvas)
                } else {
                    Err(CanvasError::SizeOverflow { width, height })
                }
            },
            None => Err(CanvasError::SizeOverflow { width, height }),
        }
    }

    /// The number of columns.
    pub fn width(&self) -> (w: usize)
        ensures
            w == self@.width,
    {
        self.width
    }

    /// The number of rows.
    pub fn height(&self) -> (h: usize)
        ensures
            h == self@.height,
    {
        self.height
    }

    /// Checks a coordinate against the dimensions, column first.
    pub fn assert_pixel_bounds(&self, x: usize, y: usize) -> (r: Result<(), CanvasError>)
        ensures
            r == self@.check(x, y),
    {
        if x >= self.width {
            Err(CanvasError::PixelPosOutOfBounds { axis: Axis::X, position: x, limit: self.width })
        } else if y >= self.height {
            Err(CanvasError::PixelPosOutOfBounds { axis: Axis::Y, position: y, limit: self.height })
        } else {
            Ok(())
        }
    }

    /// Writes `color` to the cell `(x, y)`, replacing what was there.
    ///
    /// Fails, and changes nothing, when the coordinate is outside the canvas.
    pub fn set_pixel(&mut self, x: usize, y: usize, color: &Color) -> (r: Result<(), CanvasError>)
        ensures
            r == old(self)@.check(x, y),
            final(self)@ == old(self)@.write(x, y, *color),
    {
        proof {
            use_type_invariant(&*self);
        }
        match self.assert_pixel_bounds(x, y) {
            Err(e) => Err(e),
            Ok(_) => {
                proof {
                    lemma_offset_in_range(self.width as nat, self.height as nat, x as nat, y as nat);
                }
                let offset: usize = y * self.width + x;
                self.buffer[offset] = *color;
                proof {
                    assert forall|p: (nat, nat)| p.0 < self.width && p.1 < self.height implies
                        #[trigger] self@.cells[p] == old(self)@.write(x, y, *color).cells[p] by {
                        if p.1 * self.width + p.0 == offset {
                            lemma_offset_injective(self.width as nat, p.0, p.1, x as nat, y as nat);
                        }
                        lemma_offset_in_range(self.width as nat, self.height as nat, p.0, p.1);
                    }
                    assert(self@.cells =~= old(self)@.write(x, y, *color).cells);
                }
                Ok(())
            },
        }
    }

    /// Reads the cell `(x, y)`.
    ///
    /// Fails when the coordinate is outside the canvas.
    pub fn get_pixel(&self, x: usize, y: usize) -> (r: Result<&Color, CanvasError>)
        ensures
            match r {
                Ok(color) => self@.read(x, y) == Ok::<Color, CanvasError>(*color),
                Err(e) => self@.read(x, y) == Err::<Color, CanvasError>(e),
            },
    {
        proof {
            use_type_invariant(self);
        }
        match self.assert_pixel_bounds(x, y) {
            Err(e) => Err(e),
            Ok(_) => {
                proof {
                    lemma_offset_in_range(self.width as nat, self.height as nat, x as nat, y as nat);
                }
                Ok(&self.buffer[y * self.width + x])
            },
        }
    }
}

} // verus!

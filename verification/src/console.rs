//! The console presentation of a module grid: two characters a module, so
//! that the symbol looks square in a terminal's tall cells.

use vstd::prelude::*;
use vstd::string::*;
use crate::grid::{dark_at, ModuleGrid};

verus! {

/// What stands for a dark module: two full blocks.
pub const DARK_CELL: &'static str = "\u{2588}\u{2588}";

/// What stands for a light module: two spaces.
pub const LIGHT_CELL: &'static str = "  ";

/// The side of the printed square, in modules.
pub open spec fn console_dimension(size: int, border: int) -> int {
    size + 2 * border
}

/// The two characters of the module at `(x, y)`; outside the grid every
/// module is light.
pub open spec fn console_cell(rows: Seq<Seq<bool>>, x: int, y: int) -> Seq<char> {
    if dark_at(rows, x, y) {
        DARK_CELL@
    } else {
        LIGHT_CELL@
    }
}

/// The cells of row `y` for the columns from `-border` up to, not including,
/// `x`.
pub open spec fn console_row_before(rows: Seq<Seq<bool>>, border: nat, x: int, y: int) -> Seq<char>
    decreases x + border,
{
    if x <= -border {
        Seq::empty()
    } else {
        console_row_before(rows, border, x - 1, y) + console_cell(rows, x - 1, y)
    }
}

/// Row `y` as printed: the cells of the columns from `-border` up to, not
/// including, `size + border`, and a line end.
pub open spec fn console_line(rows: Seq<Seq<bool>>, border: nat, y: int) -> Seq<char> {
    console_row_before(rows, border, (rows.len() + border) as int, y) + "\n"@
}

/// The printed lines of the rows from `-border` up to, not including, `y`.
pub open spec fn console_text_before(rows: Seq<Seq<bool>>, border: nat, y: int) -> Seq<char>
    decreases y + border,
{
    if y <= -border {
        Seq::empty()
    } else {
        console_text_before(rows, border, y - 1) + console_line(rows, border, y - 1)
    }
}

/// Everything that is printed: the rows from `-border` up to, not
/// including, `size + border`.
pub open spec fn console_text(rows: Seq<Seq<bool>>, border: nat) -> Seq<char> {
    console_text_before(rows, border, (rows.len() + border) as int)
}

/// Draws the grid for a terminal, with `border` modules of light cells on
/// every side.
pub fn render_console(grid: &ModuleGrid, border: u32) -> (text: String)
    requires
        grid.wf(),
    ensures
        text@ == console_text(grid@, border as nat),
{
    let first: i128 = -(border as i128);
    let end: i128 = grid.size() as i128 + border as i128;
    let mut text = String::new();
    let mut y: i128 = first;
    assert(text@ =~= console_text_before(grid@, border as nat, y as int));
    while y < end
        invariant
            grid.wf(),
            first == -(border as int),
            end == grid.spec_size() + border,
            first <= y <= end,
            text@ == console_text_before(grid@, border as nat, y as int),
        decreases end - y,
    {
        let ghost text_before = text@;
        let mut x: i128 = first;
        assert(text@ =~= text_before + console_row_before(grid@, border as nat, x as int, y as int));
        while x < end
            invariant
                grid.wf(),
                first == -(border as int),
                end == grid.spec_size() + border,
                first <= x <= end,
                text@ == text_before + console_row_before(grid@, border as nat, x as int, y as int),
            decreases end - x,
        {
            if grid.is_dark_wide(x, y) {
                text.append(DARK_CELL);
            } else {
                text.append(LIGHT_CELL);
            }
            x += 1;
            assert(text@ =~= text_before + console_row_before(
                grid@,
                border as nat,
                x as int,
                y as int,
            ));
        }
        text.append("\n");
        y += 1;
        assert(text@ =~= console_text_before(grid@, border as nat, y as int));
    }
    text
}

/// A printed row holds two characters for every column and ends the line.
pub proof fn lemma_console_line_len(rows: Seq<Seq<bool>>, border: nat, y: int)
    ensures
        console_line(rows, border, y).len() == 2 * console_dimension(
            rows.len() as int,
            border as int,
        ) + 1,
{
    reveal_strlit("\n");
    lemma_console_row_len(rows, border, (rows.len() + border) as int, y);
}

/// The cells of the columns before `x` take two characters each.
pub proof fn lemma_console_row_len(rows: Seq<Seq<bool>>, border: nat, x: int, y: int)
    requires
        x >= -border,
    ensures
        console_row_before(rows, border, x, y).len() == 2 * (x + border),
    decreases x + border,
{
    reveal_strlit("\u{2588}\u{2588}");
    reveal_strlit("  ");
    if x > -border {
        lemma_console_row_len(rows, border, x - 1, y);
    }
}

/// The printed text holds one line for every row of the bordered square:
/// its length is that of `size + 2 * border` lines.
pub proof fn lemma_console_text_len(rows: Seq<Seq<bool>>, border: nat)
    ensures
        console_text(rows, border).len() == console_dimension(rows.len() as int, border as int) * (
        2 * console_dimension(rows.len() as int, border as int) + 1),
{
    lemma_console_text_before_len(rows, border, (rows.len() + border) as int);
}

proof fn lemma_console_text_before_len(rows: Seq<Seq<bool>>, border: nat, y: int)
    requires
        y >= -border,
    ensures
        console_text_before(rows, border, y).len() == (y + border) * (2 * console_dimension(
            rows.len() as int,
            border as int,
        ) + 1),
    decreases y + border,
{
    let width = 2 * console_dimension(rows.len() as int, border as int) + 1;
    if y > -border {
        lemma_console_text_before_len(rows, border, y - 1);
        lemma_console_line_len(rows, border, y - 1);
        assert((y + border) * width == (y - 1 + border) * width + width) by (nonlinear_arith);
    } else {
        assert((y + border) * width == 0) by (nonlinear_arith)
            requires
                y + border == 0,
        ;
    }
}

/// Every cell outside the grid is printed light.
pub proof fn lemma_console_border_is_light(rows: Seq<Seq<bool>>, x: int, y: int)
    requires
        x < 0 || x >= rows.len() || y < 0 || y >= rows.len(),
    ensures
        console_cell(rows, x, y) == LIGHT_CELL@,
{
}

} // verus!

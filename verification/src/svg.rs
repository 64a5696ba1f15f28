//! The vector presentation of a module grid: an SVG document, one unit a
//! module, with the origin at the top left and `y` growing downward.

use vstd::prelude::*;
use vstd::string::*;
use crate::decimal::{append_decimal, decimal};
use crate::grid::{dark_at, ModuleGrid};

verus! {

/// Everything of the document before the first of the two numbers of its
/// view box.
pub const SVG_OPENING: &'static str =
    "<?xml version=\"1.0\" encoding=\"UTF-8\"?><!DOCTYPE svg PUBLIC \"-//W3C//DTD SVG 1.1//EN\" \"http://www.w3.org/Graphics/SVG/1.1/DTD/svg11.dtd\"><svg xmlns=\"http://www.w3.org/2000/svg\" version=\"1.1\" viewBox=\"0 0 ";

/// From the view box's end to the background's fill colour.
pub const SVG_BACKGROUND: &'static str = "\" stroke=\"none\">\t<rect width=\"100%\" height=\"100%\" fill=\"";

/// From the background's fill colour to the path data.
pub const SVG_PATH: &'static str = "\"/>\t<path d=\"\n";

/// From the path data to the foreground's fill colour.
pub const SVG_FOREGROUND: &'static str = "\" fill=\"";

/// The document's end.
pub const SVG_CLOSING: &'static str = "\"/>\n</svg>\n";

/// The side of the drawing, in modules: the grid and its border on both
/// sides.
pub open spec fn svg_dimension(size: int, border: int) -> int {
    size + 2 * border
}

/// The path segment of the unit square whose top left corner is `(x, y)`.
pub open spec fn svg_segment(x: nat, y: nat) -> Seq<char> {
    "M"@ + decimal(x) + ","@ + decimal(y) + "h1v1h-1z"@
}

/// Path data with one more segment: a space parts it from what is there,
/// and the first segment gets none.
pub open spec fn with_segment(path: Seq<char>, segment: Seq<char>) -> Seq<char> {
    if path.len() == 0 {
        segment
    } else {
        path + " "@ + segment
    }
}

/// The path data for the dark modules that come before `(x, y)` when the
/// grid is read row by row from the top, each row from the left. A dark module at
/// `(mx, my)` gives the unit square at `(mx + border, my + border)`.
pub open spec fn svg_path_before(rows: Seq<Seq<bool>>, border: nat, x: int, y: int) -> Seq<char>
    decreases y, x,
{
    if y < 0 || x < 0 {
        Seq::empty()
    } else if x == 0 {
        if y == 0 {
            Seq::empty()
        } else {
            svg_path_before(rows, border, rows.len() as int, y - 1)
        }
    } else {
        let before = svg_path_before(rows, border, x - 1, y);
        if dark_at(rows, x - 1, y) {
            with_segment(before, svg_segment((x - 1 + border) as nat, (y + border) as nat))
        } else {
            before
        }
    }
}

/// The path data of the whole grid.
pub open spec fn svg_path(rows: Seq<Seq<bool>>, border: nat) -> Seq<char> {
    svg_path_before(rows, border, 0, rows.len() as int)
}

/// The document: a background rectangle filled with `bg`, and one path of
/// unit squares filled with `fg`. The two colours are written as given.
pub open spec fn svg_document(rows: Seq<Seq<bool>>, border: nat, fg: Seq<char>, bg: Seq<char>) -> Seq<
    char,
> {
    let dimension = svg_dimension(rows.len() as int, border as int) as nat;
    SVG_OPENING@ + decimal(dimension) + " "@ + decimal(dimension) + SVG_BACKGROUND@ + bg + SVG_PATH@
        + svg_path(rows, border) + SVG_FOREGROUND@ + fg + SVG_CLOSING@
}

fn append_segment(path: &mut String, x: u128, y: u128)
    ensures
        final(path)@ == with_segment(old(path)@, svg_segment(x as nat, y as nat)),
{
    let mut segment = String::from_str("M");
    append_decimal(&mut segment, x);
    segment.append(",");
    append_decimal(&mut segment, y);
    segment.append("h1v1h-1z");
    proof {
        reveal_strlit("M");
        assert(segment@.len() > 0);
    }
    let ghost old_path = path@;
    if !path.as_str().is_empty() {
        path.append(" ");
    }
    path.append(segment.as_str());
    assert(path@ =~= with_segment(old_path, svg_segment(x as nat, y as nat)));
}

/// The path data of the grid.
pub fn render_svg_path(grid: &ModuleGrid, border: u32) -> (path: String)
    requires
        grid.wf(),
    ensures
        path@ == svg_path(grid@, border as nat),
{
    let n = grid.size();
    let mut path = String::new();
    let mut y: usize = 0;
    while y < n
        invariant
            grid.wf(),
            n == grid.spec_size(),
            y <= n,
            path@ == svg_path_before(grid@, border as nat, 0, y as int),
        decreases n - y,
    {
        let mut x: usize = 0;
        while x < n
            invariant
                grid.wf(),
                n == grid.spec_size(),
                y < n,
                x <= n,
                path@ == svg_path_before(grid@, border as nat, x as int, y as int),
            decreases n - x,
        {
            if grid.is_dark_wide(x as i128, y as i128) {
                append_segment(&mut path, x as u128 + border as u128, y as u128 + border as u128);
            }
            x += 1;
        }
        y += 1;
    }
    path
}

/// Draws the grid as an SVG document with `border` modules of background on
/// every side.
pub fn render_svg(grid: &ModuleGrid, border: u32, fg: &str, bg: &str) -> (document: String)
    requires
        grid.wf(),
    ensures
        document@ == svg_document(grid@, border as nat, fg@, bg@),
{
    let dimension: u128 = grid.size() as u128 + 2 * (border as u128);
    let path = render_svg_path(grid, border);
    let mut document = String::from_str(SVG_OPENING);
    append_decimal(&mut document, dimension);
    document.append(" ");
    append_decimal(&mut document, dimension);
    document.append(SVG_BACKGROUND);
    document.append(bg);
    document.append(SVG_PATH);
    document.append(path.as_str());
    document.append(SVG_FOREGROUND);
    document.append(fg);
    document.append(SVG_CLOSING);
    document
}

} // verus!

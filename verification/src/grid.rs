//! The module grid of a QR symbol, and the encoder that produces one.

use vstd::prelude::*;
use vstd::string::*;
use crate::decimal::decimal;
use crate::error::Error;
use crate::text::text_is;

verus! {

/// How much redundancy the encoder adds to a symbol.
#[derive(Clone, Copy, Debug, PartialEq, Eq, Structural)]
pub enum ErrorCorrection {
    Low,
    Medium,
    Quartile,
    High,
}

/// The name of an error correction level: one of `low`, `medium`,
/// `quartile`, `high`.
pub open spec fn is_level_name(s: Seq<char>) -> bool {
    s == "low"@ || s == "medium"@ || s == "quartile"@ || s == "high"@
}

/// The level that a name stands for.
pub open spec fn level_of_name(s: Seq<char>) -> ErrorCorrection {
    if s == "low"@ {
        ErrorCorrection::Low
    } else if s == "medium"@ {
        ErrorCorrection::Medium
    } else if s == "quartile"@ {
        ErrorCorrection::Quartile
    } else {
        ErrorCorrection::High
    }
}

/// Reads an error correction level from its name, or `None` for any other
/// text.
pub fn find_error_correction_level(ecl: &str) -> (r: Option<ErrorCorrection>)
    ensures
        match r {
            Some(level) => is_level_name(ecl@) && level == level_of_name(ecl@),
            None => !is_level_name(ecl@),
        },
{
    if text_is(ecl, "low") {
        Some(ErrorCorrection::Low)
    } else if text_is(ecl, "medium") {
        Some(ErrorCorrection::Medium)
    } else if text_is(ecl, "quartile") {
        Some(ErrorCorrection::Quartile)
    } else if text_is(ecl, "high") {
        Some(ErrorCorrection::High)
    } else {
        None
    }
}

/// Reads an error correction level from its name.
pub fn parse_error_correction_level(ecl: String) -> (level: ErrorCorrection)
    requires
        is_level_name(ecl@),
    ensures
        level == level_of_name(ecl@),
{
    match find_error_correction_level(ecl.as_str()) {
        Some(level) => level,
        None => ErrorCorrection::High,
    }
}

/// `qrcodegen::QrCode`: an encoded symbol, as the encoder hands it out.
#[verifier::external_type_specification]
#[verifier::external_body]
pub struct ExQrCode(qrcodegen::QrCode);

/// `qrcodegen::DataTooLong`: the encoder's reason for making no symbol,
/// with its two variants in view.
#[verifier::external_type_specification]
pub struct ExDataTooLong(qrcodegen::DataTooLong);

/// The modules of an encoded symbol, row by row from the top, each row from
/// the left; `true` is dark.
pub uninterp spec fn symbol_rows(code: qrcodegen::QrCode) -> Seq<Seq<bool>>;

/// What the encoder makes of a text at a level: the symbol, as rows of
/// modules, or its reason for making none where the text fits no symbol at
/// that level.
pub uninterp spec fn text_symbol(text: Seq<char>, level: ErrorCorrection) -> Result<
    Seq<Seq<bool>>,
    qrcodegen::DataTooLong,
>;

/// `qrcodegen::QrCode::encode_text`. The encoder is a function of the text
/// and the level alone: it returns the symbol whose modules `text_symbol`
/// names, or fails with the reason that `text_symbol` names.
#[verifier::external_body]
fn encode_text(text: &str, level: ErrorCorrection) -> (r: Result<
    qrcodegen::QrCode,
    qrcodegen::DataTooLong,
>)
    ensures
        match r {
            Ok(code) => text_symbol(text@, level) == Ok::<Seq<Seq<bool>>, qrcodegen::DataTooLong>(
                symbol_rows(code),
            ),
            Err(failure) => text_symbol(text@, level) == Err::<
                Seq<Seq<bool>>,
                qrcodegen::DataTooLong,
            >(failure),
        },
{
    let ecl = match level {
        ErrorCorrection::Low => qrcodegen::QrCodeEcc::Low,
        ErrorCorrection::Medium => qrcodegen::QrCodeEcc::Medium,
        ErrorCorrection::Quartile => qrcodegen::QrCodeEcc::Quartile,
        ErrorCorrection::High => qrcodegen::QrCodeEcc::High,
    };
    qrcodegen::QrCode::encode_text(text, ecl)
}

/// `qrcodegen::QrCode::size`. A symbol is square, with between 21 and 177
/// modules a side.
#[verifier::external_body]
fn symbol_size(code: &qrcodegen::QrCode) -> (n: i32)
    ensures
        21 <= n <= 177,
        n == symbol_rows(*code).len(),
        forall|y: int| 0 <= y < n ==> (#[trigger] symbol_rows(*code)[y]).len() == n,
{
    code.size()
}

/// `qrcodegen::QrCode::get_module`. Returns the module at column `x` of row
/// `y`, and light for coordinates outside the symbol.
#[verifier::external_body]
fn symbol_module(code: &qrcodegen::QrCode, x: i32, y: i32) -> (dark: bool)
    ensures
        dark == (0 <= x < symbol_rows(*code).len() && 0 <= y < symbol_rows(*code).len()
            && symbol_rows(*code)[y as int][x as int]),
{
    code.get_module(x, y)
}

/// The encoder's own account of why a text did not fit.
pub open spec fn failure_text(failure: qrcodegen::DataTooLong) -> Seq<char> {
    match failure {
        qrcodegen::DataTooLong::SegmentTooLong => "Segment too long"@,
        qrcodegen::DataTooLong::DataOverCapacity(length, capacity) => "Data length = "@ + decimal(
            length as nat,
        ) + " bits, Max capacity = "@ + decimal(capacity as nat) + " bits"@,
    }
}

/// `to_string` on a `qrcodegen::DataTooLong`, which goes by the type's
/// `Display`: a fixed text for a segment that is too long, and otherwise
/// the data's length and the capacity, both in bits and in decimal.
#[verifier::external_body]
fn failure_reason(failure: &qrcodegen::DataTooLong) -> (reason: String)
    ensures
        reason@ == failure_text(*failure),
{
    failure.to_string()
}

/// Rows of modules that form a square of at least one module a side.
pub open spec fn is_square(rows: Seq<Seq<bool>>) -> bool {
    &&& rows.len() >= 1
    &&& forall|y: int| 0 <= y < rows.len() ==> (#[trigger] rows[y]).len() == rows.len()
}

/// Whether the module at column `x` of row `y` is dark. Coordinates outside
/// the square are light.
pub open spec fn dark_at(rows: Seq<Seq<bool>>, x: int, y: int) -> bool {
    0 <= x < rows.len() && 0 <= y < rows.len() && rows[y][x]
}

/// Every coordinate outside the grid, on either axis, is light, whatever
/// the grid holds.
pub proof fn lemma_outside_is_light(rows: Seq<Seq<bool>>, x: int, y: int)
    requires
        x < 0 || x >= rows.len() || y < 0 || y >= rows.len(),
    ensures
        !dark_at(rows, x, y),
{
}

/// The views of a vector of rows.
pub open spec fn rows_view(rows: Seq<Vec<bool>>) -> Seq<Seq<bool>> {
    Seq::new(rows.len(), |y: int| rows[y]@)
}

/// A square grid of dark and light modules, read-only once made.
pub struct ModuleGrid {
    rows: Vec<Vec<bool>>,
}

impl View for ModuleGrid {
    type V = Seq<Seq<bool>>;

    closed spec fn view(&self) -> Seq<Seq<bool>> {
        rows_view(self.rows@)
    }
}

impl ModuleGrid {
    /// The grid holds a square of at least one module a side.
    pub open spec fn wf(&self) -> bool {
        is_square(self@)
    }

    /// The number of modules a side.
    pub open spec fn spec_size(&self) -> int {
        self@.len() as int
    }

    /// Whether the module at `(x, y)` is dark; light outside the grid.
    pub open spec fn spec_is_dark(&self, x: int, y: int) -> bool {
        dark_at(self@, x, y)
    }

    /// Makes a grid of the given rows, top row first, if they form a square
    /// of at least one module a side.
    pub fn new(rows: Vec<Vec<bool>>) -> (r: Option<ModuleGrid>)
        ensures
            match r {
                Some(grid) => is_square(rows_view(rows@)) && grid@ == rows_view(rows@) && grid.wf(),
                None => !is_square(rows_view(rows@)),
            },
    {
        let n = rows.len();
        if n == 0 {
            return None;
        }
        let mut y: usize = 0;
        while y < n
            invariant
                n == rows.len(),
                y <= n,
                forall|j: int| 0 <= j < y ==> (#[trigger] rows_view(rows@)[j]).len() == n,
            decreases n - y,
        {
            if rows[y].len() != n {
                assert(rows_view(rows@)[y as int].len() != n);
                return None;
            }
            y += 1;
        }
        Some(ModuleGrid { rows })
    }

    /// The number of modules a side.
    pub fn size(&self) -> (n: usize)
        requires
            self.wf(),
        ensures
            n == self.spec_size(),
            n >= 1,
    {
        self.rows.len()
    }

    /// Whether the module at `(x, y)` is dark. Any coordinate outside the
    /// grid, on either axis, is light.
    pub fn is_dark(&self, x: i64, y: i64) -> (dark: bool)
        requires
            self.wf(),
        ensures
            dark == self.spec_is_dark(x as int, y as int),
            x < 0 || x >= self.spec_size() || y < 0 || y >= self.spec_size() ==> !dark,
    {
        self.is_dark_wide(x as i128, y as i128)
    }

    /// `is_dark` for coordinates of any size that a border can reach.
    pub(crate) fn is_dark_wide(&self, x: i128, y: i128) -> (dark: bool)
        requires
            self.wf(),
        ensures
            dark == self.spec_is_dark(x as int, y as int),
    {
        let n = self.rows.len();
        if x < 0 || y < 0 {
            return false;
        }
        if x as u128 >= n as u128 || y as u128 >= n as u128 {
            return false;
        }
        assert(self@[y as int] == self.rows@[y as int]@);
        self.rows[y as usize][x as usize]
    }

    /// Copies the modules of an encoded symbol into a grid.
    pub fn from_symbol(code: &qrcodegen::QrCode) -> (grid: ModuleGrid)
        ensures
            grid.wf(),
            grid@ == symbol_rows(*code),
    {
        let n = symbol_size(code);
        let mut rows: Vec<Vec<bool>> = Vec::new();
        let mut y: i32 = 0;
        while y < n
            invariant
                0 <= y <= n,
                21 <= n <= 177,
                n == symbol_rows(*code).len(),
                forall|j: int| 0 <= j < n ==> (#[trigger] symbol_rows(*code)[j]).len() == n,
                rows@.len() == y,
                forall|j: int| 0 <= j < y ==> (#[trigger] rows@[j])@ == symbol_rows(*code)[j],
            decreases n - y,
        {
            let mut row: Vec<bool> = Vec::new();
            let mut x: i32 = 0;
            while x < n
                invariant
                    0 <= x <= n,
                    0 <= y < n,
                    n == symbol_rows(*code).len(),
                    symbol_rows(*code)[y as int].len() == n,
                    row@.len() == x,
                    forall|i: int| 0 <= i < x ==> row@[i] == symbol_rows(*code)[y as int][i],
                decreases n - x,
            {
                row.push(symbol_module(code, x, y));
                x += 1;
            }
            assert(row@ =~= symbol_rows(*code)[y as int]);
            rows.push(row);
            y += 1;
        }
        let grid = ModuleGrid { rows };
        assert(grid@ =~= symbol_rows(*code));
        grid
    }
}

/// What the encoder's answer comes to: the grid of the symbol that it made,
/// or the failure that holds its reason for having made none.
pub fn grid_of_encoding(outcome: Result<qrcodegen::QrCode, qrcodegen::DataTooLong>) -> (r: Result<
    ModuleGrid,
    Error,
>)
    ensures
        match outcome {
            Ok(code) => r is Ok && r->Ok_0.wf() && r->Ok_0@ == symbol_rows(code),
            Err(failure) => r is Err && r->Err_0 is QrCodeErr && r->Err_0->QrCodeErr_0@
                == failure_text(failure),
        },
{
    match outcome {
        Ok(code) => Ok(ModuleGrid::from_symbol(&code)),
        Err(failure) => Err(Error::QrCodeErr(failure_reason(&failure))),
    }
}

/// What `encode` returns, given what the encoder makes of the text: the
/// symbol's modules, or the text of the encoder's reason.
pub open spec fn encoding_of(text: Seq<char>, level: ErrorCorrection) -> Result<
    Seq<Seq<bool>>,
    Seq<char>,
> {
    match text_symbol(text, level) {
        Ok(rows) => Ok(rows),
        Err(failure) => Err(failure_text(failure)),
    }
}

/// Encodes `text` as a QR symbol at the given error correction level. Fails,
/// with the encoder's own reason, exactly where the text fits no symbol at
/// that level.
pub fn encode(text: &str, level: ErrorCorrection) -> (r: Result<ModuleGrid, Error>)
    ensures
        match r {
            Ok(grid) => grid.wf() && encoding_of(text@, level) == Ok::<Seq<Seq<bool>>, Seq<char>>(
                grid@,
            ),
            Err(e) => e is QrCodeErr && encoding_of(text@, level) == Err::<
                Seq<Seq<bool>>,
                Seq<char>,
            >(e->QrCodeErr_0@),
        },
{
    grid_of_encoding(encode_text(text, level))
}

} // verus!

//! Failures and advisories of a run, and the diagnostic line each one gives.

use vstd::prelude::*;
use vstd::string::*;

verus! {

/// An advisory: the run did its work, and something was ignored on the way.
#[derive(Clone, Copy, Debug, PartialEq, Eq, Structural)]
pub enum Warning {
    /// A scale was given for an output that is not a raster image.
    UnexpectedScaleOpt,
}

/// A failure that ends the run.
#[derive(Clone, Debug, PartialEq, Eq)]
pub enum Error {
    /// The text could not be encoded; holds the encoder's reason.
    QrCodeErr(String),
    /// The output file's extension names no supported format.
    InvalidOutputExt,
    /// The vector file could not be written; holds the reason.
    SvgOutputErr(String),
    /// The raster file could not be written; holds the reason.
    RasterOutputErr(String),
    /// The raster image would be larger than an image can be.
    RasterSizeOverflow,
}

/// What a run reports when it does not end silently.
#[derive(Clone, Debug, PartialEq, Eq)]
pub enum ErrorKind {
    Warning(Warning),
    Error(Error),
}

/// The colour of a diagnostic's prefix.
#[derive(Clone, Copy, Debug, PartialEq, Eq, Structural)]
pub enum Highlight {
    Yellow,
    Red,
}

/// Whether a diagnostic may be coloured at all.
#[derive(Clone, Copy, Debug, PartialEq, Eq, Structural)]
pub enum ColorMode {
    /// Colour where the terminal supports it.
    Auto,
    /// No colour.
    Never,
}

/// One diagnostic line, ready to be written to the error stream: the prefix
/// in bold and in the highlight colour, then the message and a line end.
#[derive(Clone, Debug, PartialEq, Eq)]
pub struct Diagnostic {
    pub mode: ColorMode,
    pub highlight: Highlight,
    pub prefix: String,
    pub message: String,
}

impl Warning {
    /// The text of an advisory.
    pub open spec fn spec_message(&self) -> Seq<char> {
        "Ignoring `scale` CLI option with non-raster output format"@
    }
}

impl Error {
    /// The text of a failure.
    pub open spec fn spec_message(&self) -> Seq<char> {
        match self {
            Error::QrCodeErr(msg) => "Failed to generate QR code: "@ + msg@,
            Error::InvalidOutputExt =>
                "Invalid output file extension, expected one of jpeg, jpg, png, svg"@,
            Error::SvgOutputErr(msg) => "Failed to write SVG output file: "@ + msg@,
            Error::RasterOutputErr(msg) => "Failed to write raster image file: "@ + msg@,
            Error::RasterSizeOverflow => "Failed to write raster image file: image size overflow"@,
        }
    }
}

impl ErrorKind {
    /// The text of a report, without its prefix.
    pub open spec fn spec_message(&self) -> Seq<char> {
        match self {
            ErrorKind::Warning(warning) => warning.spec_message(),
            ErrorKind::Error(error) => error.spec_message(),
        }
    }

    /// The prefix of a report, with the colon and space that part it from the
    /// message.
    pub open spec fn spec_prefix(&self) -> Seq<char> {
        match self {
            ErrorKind::Warning(_) => "warning: "@,
            ErrorKind::Error(_) => "error: "@,
        }
    }

    /// The colour of a report's prefix: yellow for an advisory, red for a
    /// failure.
    pub open spec fn spec_highlight(&self) -> Highlight {
        match self {
            ErrorKind::Warning(_) => Highlight::Yellow,
            ErrorKind::Error(_) => Highlight::Red,
        }
    }

    /// Whether the report is an advisory, which does not fail the run's work.
    pub fn is_warning(&self) -> (r: bool)
        ensures
            r == (self is Warning),
    {
        match self {
            ErrorKind::Warning(_) => true,
            ErrorKind::Error(_) => false,
        }
    }

    /// The status that the process ends with after this report: 1 after a
    /// failure, 0 after an advisory, which leaves the run a success.
    pub fn exit_status(&self) -> (status: i32)
        ensures
            status == (if self is Warning {
                0i32
            } else {
                1i32
            }),
    {
        match self {
            ErrorKind::Warning(_) => 0,
            ErrorKind::Error(_) => 1,
        }
    }

    /// The text of the report, without its prefix.
    pub fn message(&self) -> (text: String)
        ensures
            text@ == self.spec_message(),
    {
        match self {
            ErrorKind::Warning(warning) => match warning {
                Warning::UnexpectedScaleOpt => String::from_str(
                    "Ignoring `scale` CLI option with non-raster output format",
                ),
            },
            ErrorKind::Error(error) => match error {
                Error::QrCodeErr(msg) => String::from_str("Failed to generate QR code: ").concat(
                    msg.as_str(),
                ),
                Error::InvalidOutputExt => String::from_str(
                    "Invalid output file extension, expected one of jpeg, jpg, png, svg",
                ),
                Error::SvgOutputErr(msg) => String::from_str(
                    "Failed to write SVG output file: ",
                ).concat(msg.as_str()),
                Error::RasterOutputErr(msg) => String::from_str(
                    "Failed to write raster image file: ",
                ).concat(msg.as_str()),
                Error::RasterSizeOverflow => String::from_str(
                    "Failed to write raster image file: image size overflow",
                ),
            },
        }
    }

    /// The diagnostic line of a report. Colour is allowed only where the
    /// error stream is a terminal.
    pub fn colorize(&self, stderr_is_terminal: bool) -> (line: Diagnostic)
        ensures
            line.mode == (if stderr_is_terminal {
                ColorMode::Auto
            } else {
                ColorMode::Never
            }),
            line.highlight == self.spec_highlight(),
            line.prefix@ == self.spec_prefix(),
            line.message@ == self.spec_message(),
    {
        let mode = if stderr_is_terminal {
            ColorMode::Auto
        } else {
            ColorMode::Never
        };
        let (prefix, highlight) = match self {
            ErrorKind::Warning(_) => (String::from_str("warning: "), Highlight::Yellow),
            ErrorKind::Error(_) => (String::from_str("error: "), Highlight::Red),
        };
        Diagnostic { mode, highlight, prefix, message: self.message() }
    }
}

} // verus!

//! Which renderer a run uses, and the order in which a run asks, draws and
//! ends.

use vstd::prelude::*;
use vstd::string::*;
use crate::error::{Error, ErrorKind, Warning};
use crate::text::text_is;

verus! {

/// The scale of a raster image where none is given, in pixels a module.
pub const DEFAULT_SCALE: u32 = 25;

/// The three presentations of a symbol.
#[derive(Clone, Copy, Debug, PartialEq, Eq, Structural)]
pub enum Renderer {
    Svg,
    Raster,
    Console,
}

/// What a run does with its output: the renderer, the scale that a raster
/// image is drawn at, and the advisory that is owed once the output is
/// written.
#[derive(Clone, Copy, Debug, PartialEq, Eq, Structural)]
pub struct DispatchDecision {
    pub renderer: Renderer,
    pub scale: u32,
    pub advisory: Option<Warning>,
}

/// Where a run stands.
#[derive(Clone, Copy, Debug, PartialEq, Eq, Structural)]
pub enum State {
    /// No output file was named: the symbol goes to the console.
    NoOutput,
    /// The output file exists, and the user has yet to allow its loss.
    PendingOverwriteCheck,
    /// The output file is to be written.
    Dispatching,
    /// The run has ended well.
    Done,
    /// The run has ended with a failure.
    Failed,
}

/// What has happened since the last step.
#[derive(Clone, Debug, PartialEq, Eq)]
pub enum Event {
    /// Nothing yet: the state was just entered.
    Started,
    /// The user answered the question whether to overwrite.
    Answered(bool),
    /// The renderer's output was printed or written.
    Completed,
    /// The renderer failed.
    RenderFailed(Error),
}

/// What the caller is to do next.
#[derive(Debug, PartialEq, Eq)]
pub enum Action {
    /// Print the console presentation.
    Print,
    /// Ask the user whether the existing file may be overwritten.
    AskOverwrite,
    /// Write the vector document to the output file.
    WriteSvg,
    /// Write the raster image, at this scale, to the output file.
    WriteRaster { scale: u32 },
    /// End the run with this result.
    Finish(Result<(), ErrorKind>),
    /// Nothing: the run had ended before.
    Stop,
}

/// A step of a run: the state it leads to and what is to be done there.
#[derive(Debug, PartialEq, Eq)]
pub struct Transition {
    pub state: State,
    pub action: Action,
}

/// The renderer that a file extension selects: `svg` the vector renderer,
/// `png`, `jpg` and `jpeg` the raster renderer, anything else none.
pub open spec fn renderer_of_extension(extension: Option<Seq<char>>) -> Option<Renderer> {
    match extension {
        Some(ext) => if ext == "svg"@ {
            Some(Renderer::Svg)
        } else if ext == "png"@ || ext == "jpg"@ || ext == "jpeg"@ {
            Some(Renderer::Raster)
        } else {
            None
        },
        None => None,
    }
}

/// The decision for an output file with this extension, or `None` where the
/// extension is not supported. A scale given for a vector file is ignored,
/// which earns an advisory.
pub open spec fn decision_of(extension: Option<Seq<char>>, scale: Option<u32>) -> Option<
    DispatchDecision,
> {
    match renderer_of_extension(extension) {
        Some(Renderer::Svg) => Some(
            DispatchDecision {
                renderer: Renderer::Svg,
                scale: DEFAULT_SCALE,
                advisory: if scale is Some {
                    Some(Warning::UnexpectedScaleOpt)
                } else {
                    None
                },
            },
        ),
        Some(_) => Some(
            DispatchDecision {
                renderer: Renderer::Raster,
                scale: match scale {
                    Some(s) => s,
                    None => DEFAULT_SCALE,
                },
                advisory: None,
            },
        ),
        None => None,
    }
}

/// The state that a run begins in.
pub open spec fn initial_state_of(output_given: bool, target_exists: bool) -> State {
    if !output_given {
        State::NoOutput
    } else if target_exists {
        State::PendingOverwriteCheck
    } else {
        State::Dispatching
    }
}

/// What a run does on entering a state.
pub open spec fn entry_of(state: State, extension: Option<Seq<char>>, scale: Option<u32>) -> (
    State,
    Action,
) {
    match state {
        State::NoOutput => (State::NoOutput, Action::Print),
        State::PendingOverwriteCheck => (State::PendingOverwriteCheck, Action::AskOverwrite),
        State::Dispatching => match decision_of(extension, scale) {
            Some(decision) => if decision.renderer == Renderer::Svg {
                (State::Dispatching, Action::WriteSvg)
            } else {
                (State::Dispatching, (Action::WriteRaster { scale: decision.scale }))
            },
            None => (
                State::Failed,
                Action::Finish(Err(ErrorKind::Error(Error::InvalidOutputExt))),
            ),
        },
        State::Done => (State::Done, Action::Stop),
        State::Failed => (State::Failed, Action::Stop),
    }
}

/// The result of a run whose output file was written.
pub open spec fn written_result(extension: Option<Seq<char>>, scale: Option<u32>) -> Result<
    (),
    ErrorKind,
> {
    match decision_of(extension, scale) {
        Some(decision) => match decision.advisory {
            Some(warning) => Err(ErrorKind::Warning(warning)),
            None => Ok(()),
        },
        None => Ok(()),
    }
}

/// The step that a run takes from `state` on `event`. An event that the
/// state does not await leaves the run where it is and has it do again what
/// the state asks for.
pub open spec fn step_of(
    state: State,
    event: Event,
    extension: Option<Seq<char>>,
    scale: Option<u32>,
) -> (State, Action) {
    match (state, event) {
        (State::NoOutput, Event::Completed) => (State::Done, Action::Finish(Ok(()))),
        (State::PendingOverwriteCheck, Event::Answered(false)) => (
            State::Done,
            Action::Finish(Ok(())),
        ),
        (State::PendingOverwriteCheck, Event::Answered(true)) => entry_of(
            State::Dispatching,
            extension,
            scale,
        ),
        (State::Dispatching, Event::Completed) => (
            State::Done,
            Action::Finish(written_result(extension, scale)),
        ),
        (State::Dispatching, Event::RenderFailed(error)) => (
            State::Failed,
            Action::Finish(Err(ErrorKind::Error(error))),
        ),
        _ => entry_of(state, extension, scale),
    }
}

/// The extension of the file name of the path that a text spells, as
/// `std::path::Path::extension` finds it: a function of the text alone on
/// the platform that the library is built for. `None` where the path has no
/// extension.
pub uninterp spec fn path_extension_of(path: Seq<char>) -> Option<Seq<char>>;

/// `std::path::Path::extension`, on the path that `path` spells: what
/// follows the last dot of the file name, if the path has a file name with a
/// dot that is not its first character. The result is the one that
/// `path_extension_of` names; an extension never holds a dot.
#[verifier::external_body]
fn path_extension(path: &str) -> (extension: Option<String>)
    ensures
        match extension {
            Some(ext) => path_extension_of(path@) == Some(ext@) && !ext@.contains('.'),
            None => path_extension_of(path@) is None,
        },
{
    std::path::Path::new(path).extension().and_then(|ext| ext.to_str()).map(|ext| ext.to_string())
}

/// The extension by which the renderer of an output is selected: that of
/// the output file's path, and none without an output file.
pub open spec fn output_extension_of(output: Option<Seq<char>>) -> Option<Seq<char>> {
    match output {
        Some(path) => path_extension_of(path),
        None => None,
    }
}

/// The extension of the output file, by which its renderer is selected.
/// Without an output file there is none.
pub fn output_extension(output: Option<&str>) -> (extension: Option<String>)
    ensures
        match extension {
            Some(ext) => output_extension_of(view_of(output)) == Some(ext@) && !ext@.contains('.'),
            None => output_extension_of(view_of(output)) is None,
        },
{
    match output {
        Some(path) => path_extension(path),
        None => None,
    }
}

/// Selects the renderer for an output file by its extension.
pub fn select_renderer(extension: Option<&str>) -> (r: Result<Renderer, Error>)
    ensures
        match r {
            Ok(renderer) => renderer_of_extension(view_of(extension)) == Some(renderer),
            Err(e) => renderer_of_extension(view_of(extension)) is None && e
                == Error::InvalidOutputExt,
        },
{
    match extension {
        Some(ext) => {
            if text_is(ext, "svg") {
                Ok(Renderer::Svg)
            } else if text_is(ext, "png") || text_is(ext, "jpg") || text_is(ext, "jpeg") {
                Ok(Renderer::Raster)
            } else {
                Err(Error::InvalidOutputExt)
            }
        },
        None => Err(Error::InvalidOutputExt),
    }
}

/// The characters of an optional text.
pub open spec fn view_of(text: Option<&str>) -> Option<Seq<char>> {
    match text {
        Some(t) => Some(t@),
        None => None,
    }
}

/// Decides how an output file with this extension is written.
pub fn decide(extension: Option<&str>, scale: Option<u32>) -> (r: Result<DispatchDecision, Error>)
    ensures
        match r {
            Ok(decision) => decision_of(view_of(extension), scale) == Some(decision),
            Err(e) => decision_of(view_of(extension), scale) is None && e
                == Error::InvalidOutputExt,
        },
{
    match select_renderer(extension) {
        Ok(Renderer::Svg) => Ok(
            DispatchDecision {
                renderer: Renderer::Svg,
                scale: DEFAULT_SCALE,
                advisory: if scale.is_some() {
                    Some(Warning::UnexpectedScaleOpt)
                } else {
                    None
                },
            },
        ),
        Ok(_) => Ok(
            DispatchDecision {
                renderer: Renderer::Raster,
                scale: match scale {
                    Some(s) => s,
                    None => DEFAULT_SCALE,
                },
                advisory: None,
            },
        ),
        Err(e) => Err(e),
    }
}

/// What the writing of an output file comes to: done, or the failure of
/// the renderer that wrote, with the reason that the file system or the
/// codec gave.
pub open spec fn write_outcome_of(renderer: Renderer, outcome: Result<(), String>) -> Event {
    match outcome {
        Ok(_) => Event::Completed,
        Err(reason) => if renderer == Renderer::Raster {
            Event::RenderFailed(Error::RasterOutputErr(reason))
        } else {
            Event::RenderFailed(Error::SvgOutputErr(reason))
        },
    }
}

/// Turns the outcome of writing an output file into the event that the
/// next step takes.
pub fn write_outcome(renderer: Renderer, outcome: Result<(), String>) -> (event: Event)
    ensures
        event == write_outcome_of(renderer, outcome),
{
    match outcome {
        Ok(_) => Event::Completed,
        Err(reason) => match renderer {
            Renderer::Raster => Event::RenderFailed(Error::RasterOutputErr(reason)),
            _ => Event::RenderFailed(Error::SvgOutputErr(reason)),
        },
    }
}

/// The state that a run begins in: the console where no output file is
/// named, the overwrite question where the named file exists, and the
/// writing of the file otherwise.
pub fn initial_state(output_given: bool, target_exists: bool) -> (state: State)
    ensures
        state == initial_state_of(output_given, target_exists),
{
    if !output_given {
        State::NoOutput
    } else if target_exists {
        State::PendingOverwriteCheck
    } else {
        State::Dispatching
    }
}

fn enter(state: State, extension: Option<&str>, scale: Option<u32>) -> (next: Transition)
    ensures
        (next.state, next.action) == entry_of(state, view_of(extension), scale),
{
    match state {
        State::NoOutput => Transition { state: State::NoOutput, action: Action::Print },
        State::PendingOverwriteCheck => Transition {
            state: State::PendingOverwriteCheck,
            action: Action::AskOverwrite,
        },
        State::Dispatching => match decide(extension, scale) {
            Ok(decision) => match decision.renderer {
                Renderer::Svg => Transition { state: State::Dispatching, action: Action::WriteSvg },
                _ => Transition {
                    state: State::Dispatching,
                    action: Action::WriteRaster { scale: decision.scale },
                },
            },
            Err(e) => Transition {
                state: State::Failed,
                action: Action::Finish(Err(ErrorKind::Error(e))),
            },
        },
        State::Done => Transition { state: State::Done, action: Action::Stop },
        State::Failed => Transition { state: State::Failed, action: Action::Stop },
    }
}

/// Takes one step of a run: from the state and what has happened since the
/// last step to the next state and what is to be done there.
pub fn step(state: State, event: Event, extension: Option<&str>, scale: Option<u32>) -> (next:
    Transition)
    ensures
        (next.state, next.action) == step_of(state, event, view_of(extension), scale),
{
    match (state, event) {
        (State::NoOutput, Event::Completed) => Transition {
            state: State::Done,
            action: Action::Finish(Ok(())),
        },
        (State::PendingOverwriteCheck, Event::Answered(false)) => Transition {
            state: State::Done,
            action: Action::Finish(Ok(())),
        },
        (State::PendingOverwriteCheck, Event::Answered(true)) => enter(
            State::Dispatching,
            extension,
            scale,
        ),
        (State::Dispatching, Event::Completed) => {
            let result = match decide(extension, scale) {
                Ok(decision) => match decision.advisory {
                    Some(warning) => Err(ErrorKind::Warning(warning)),
                    None => Ok(()),
                },
                Err(_) => Ok(()),
            };
            Transition { state: State::Done, action: Action::Finish(result) }
        },
        (State::Dispatching, Event::RenderFailed(error)) => Transition {
            state: State::Failed,
            action: Action::Finish(Err(ErrorKind::Error(error))),
        },
        (state, _) => enter(state, extension, scale),
    }
}

/// Declining to overwrite ends the run well, whatever the output file's
/// extension and the scale: nothing is written.
pub proof fn lemma_declined_overwrite_writes_nothing(
    extension: Option<Seq<char>>,
    scale: Option<u32>,
)
    ensures
        step_of(State::PendingOverwriteCheck, Event::Answered(false), extension, scale) == (
            State::Done,
            Action::Finish(Ok(())),
        ),
{
}

/// With an extension that selects no renderer, no step in any state asks
/// for a file to be written, and the writing state fails at once with the
/// one error for that.
pub proof fn lemma_unsupported_extension_writes_nothing(
    state: State,
    event: Event,
    extension: Option<Seq<char>>,
    scale: Option<u32>,
)
    requires
        renderer_of_extension(extension) is None,
    ensures
        !(step_of(state, event, extension, scale).1 is WriteSvg),
        !(step_of(state, event, extension, scale).1 is WriteRaster),
        entry_of(State::Dispatching, extension, scale) == (
            State::Failed,
            Action::Finish(Err(ErrorKind::Error(Error::InvalidOutputExt))),
        ),
{
}

/// A vector file that was written ends the run well; the run's result is
/// the one advisory exactly where a scale was given, and nothing otherwise.
pub proof fn lemma_scale_with_vector_output_is_advised(scale: Option<u32>)
    ensures
        entry_of(State::Dispatching, Some("svg"@), scale) == (State::Dispatching, Action::WriteSvg),
        step_of(State::Dispatching, Event::Completed, Some("svg"@), scale).0 == State::Done,
        scale is Some ==> step_of(State::Dispatching, Event::Completed, Some("svg"@), scale).1
            == Action::Finish(Err(ErrorKind::Warning(Warning::UnexpectedScaleOpt))),
        scale is None ==> step_of(State::Dispatching, Event::Completed, Some("svg"@), scale).1
            == Action::Finish(Ok(())),
{
}

/// A raster file is drawn at the scale that was given, and at the default
/// scale where none was; no advisory follows it.
pub proof fn lemma_raster_scale(extension: Option<Seq<char>>, scale: Option<u32>)
    requires
        renderer_of_extension(extension) == Some(Renderer::Raster),
    ensures
        entry_of(State::Dispatching, extension, scale) == (
            State::Dispatching,
            (Action::WriteRaster {
                scale: match scale {
                    Some(s) => s,
                    None => DEFAULT_SCALE,
                },
            }),
        ),
        written_result(extension, scale) == Ok::<(), ErrorKind>(()),
{
}

/// A run without an output file never asks about overwriting and never
/// writes a file: it prints, and ends well once it has printed.
pub proof fn lemma_console_run(event: Event, extension: Option<Seq<char>>, scale: Option<u32>)
    ensures
        initial_state_of(false, true) == State::NoOutput,
        initial_state_of(false, false) == State::NoOutput,
        event is Completed ==> step_of(State::NoOutput, event, extension, scale) == (
            State::Done,
            Action::Finish(Ok(())),
        ),
        !(event is Completed) ==> step_of(State::NoOutput, event, extension, scale) == (
            State::NoOutput,
            Action::Print,
        ),
{
}

/// A run that has ended stays where it is and asks for nothing more.
pub proof fn lemma_ended_run_stays(
    state: State,
    event: Event,
    extension: Option<Seq<char>>,
    scale: Option<u32>,
)
    requires
        state == State::Done || state == State::Failed,
    ensures
        step_of(state, event, extension, scale) == (state, Action::Stop),
{
}

} // verus!

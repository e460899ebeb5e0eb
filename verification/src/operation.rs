//! One image load as a state machine that performs no I/O.
//!
//! An [`Operation`] is the part of a load that decides. It hands its driver
//! one [`Action`] at a time; the driver carries the action out and reports
//! what came of it as an [`Event`], which [`Operation::step`] answers with the
//! next action. The last action of every operation is [`Action::Finish`].

use crate::diagnostic::{text_view, Diagnostic, DiagnosticView};
use crate::error::{GalileoError, TransportFailure};
use crate::image::{DecodedImage, DecodedImageView};
use crate::status::{is_success, is_success_code};
use bytes::Bytes;
use vstd::prelude::*;

verus! {

/// What an operation that fetches from a URL is to deliver.
#[derive(Debug, Clone, Copy, PartialEq, Eq, Structural)]
pub enum Goal {
    /// The body of the response, as it came.
    Bytes,
    /// The image decoded from the body of the response.
    Image,
}

/// What a successful operation hands to its caller.
#[derive(Debug, PartialEq, Eq)]
pub enum Loaded {
    /// The body of a response.
    Bytes(Bytes),
    /// A decoded image.
    Image(DecodedImage),
}

/// What a [`Loaded`] is, as a mathematical value.
pub enum LoadedView {
    Bytes(Bytes),
    Image(DecodedImageView),
}

impl View for Loaded {
    type V = LoadedView;

    open spec fn view(&self) -> LoadedView {
        match self {
            Loaded::Bytes(body) => LoadedView::Bytes(*body),
            Loaded::Image(image) => LoadedView::Image(image@),
        }
    }
}

/// What the driver reports after carrying out an action.
#[derive(Debug, PartialEq, Eq)]
pub enum Event {
    /// Answers [`Action::Get`]: the status of the response that arrived, or
    /// the failure that kept any response from arriving.
    Response(Result<u16, TransportFailure>),
    /// Answers [`Action::ReadBody`]: the whole body, or the failure that broke
    /// off reading it.
    Body(Result<Bytes, TransportFailure>),
    /// Answers [`Action::ReadFailureText`]: the body as text, or `None` where
    /// it could not be read.
    FailureText(Option<String>),
    /// Answers [`Action::Decode`]: what the decoder made of the bytes.
    Decoded(Result<DecodedImage, GalileoError>),
}

/// What an [`Event`] is, as a mathematical value.
pub enum EventView {
    Response(Result<u16, TransportFailure>),
    Body(Result<Bytes, TransportFailure>),
    FailureText(Option<Seq<char>>),
    Decoded(Result<DecodedImageView, GalileoError>),
}

/// What a decoder's result is, as a mathematical value.
pub open spec fn decoded_view(result: Result<DecodedImage, GalileoError>) -> Result<
    DecodedImageView,
    GalileoError,
> {
    match result {
        Ok(image) => Ok(image@),
        Err(error) => Err(error),
    }
}

impl View for Event {
    type V = EventView;

    open spec fn view(&self) -> EventView {
        match self {
            Event::Response(head) => EventView::Response(*head),
            Event::Body(body) => EventView::Body(*body),
            Event::FailureText(text) => EventView::FailureText(text_view(*text)),
            Event::Decoded(result) => EventView::Decoded(decoded_view(*result)),
        }
    }
}

/// What the driver is to do next.
#[derive(Debug, PartialEq, Eq)]
pub enum Action {
    /// Send an HTTP GET for `url`, with `user_agent` as its `User-Agent`
    /// header and nothing else added, and report the response.
    Get { url: String, user_agent: String },
    /// Read the whole body of the response and report it.
    ReadBody,
    /// Read the body of the response as text, as far as that succeeds, and
    /// report it.
    ReadFailureText,
    /// Hand these bytes to the decoder and report its result.
    Decode(Bytes),
    /// The operation is over: emit `diagnostic`, where there is one, and
    /// return `outcome` to the caller.
    Finish { outcome: Result<Loaded, GalileoError>, diagnostic: Option<Diagnostic> },
}

/// What an [`Action`] is, as a mathematical value.
pub enum ActionView {
    Get { url: Seq<char>, user_agent: Seq<char> },
    ReadBody,
    ReadFailureText,
    Decode(Bytes),
    Finish { outcome: Result<LoadedView, GalileoError>, diagnostic: Option<DiagnosticView> },
}

/// What an operation's outcome is, as a mathematical value.
pub open spec fn outcome_view(outcome: Result<Loaded, GalileoError>) -> Result<
    LoadedView,
    GalileoError,
> {
    match outcome {
        Ok(loaded) => Ok(loaded@),
        Err(error) => Err(error),
    }
}

/// What an optional diagnostic is, as a mathematical value.
pub open spec fn diagnostic_view(diagnostic: Option<Diagnostic>) -> Option<DiagnosticView> {
    match diagnostic {
        Some(record) => Some(record@),
        None => None,
    }
}

impl View for Action {
    type V = ActionView;

    open spec fn view(&self) -> ActionView {
        match self {
            Action::Get { url, user_agent } => ActionView::Get {
                url: url@,
                user_agent: user_agent@,
            },
            Action::ReadBody => ActionView::ReadBody,
            Action::ReadFailureText => ActionView::ReadFailureText,
            Action::Decode(bytes) => ActionView::Decode(*bytes),
            Action::Finish { outcome, diagnostic } => ActionView::Finish {
                outcome: outcome_view(*outcome),
                diagnostic: diagnostic_view(*diagnostic),
            },
        }
    }
}

/// What an optional action is, as a mathematical value.
pub open spec fn asked_view(action: Option<Action>) -> Option<ActionView> {
    match action {
        Some(asked) => Some(asked@),
        None => None,
    }
}

/// Where an operation stands: what it has asked for and not yet heard of.
pub enum Stage {
    /// A GET for `url` is under way.
    AwaitingResponse { url: Seq<char>, goal: Goal },
    /// A response with a success status arrived; its body is being read.
    AwaitingBody { goal: Goal },
    /// A response with the failure status `status` arrived; its body is being
    /// read as text for the diagnostic.
    AwaitingFailureText { url: Seq<char>, status: u16 },
    /// Bytes are with the decoder.
    AwaitingDecode,
    /// The outcome has been handed out.
    Finished,
}

/// The outcome of an operation that ends by decoding.
pub open spec fn decoded_outcome(result: Result<DecodedImageView, GalileoError>) -> Result<
    LoadedView,
    GalileoError,
> {
    match result {
        Ok(image) => Ok(LoadedView::Image(image)),
        Err(error) => Err(error),
    }
}

/// The last action of an operation that emits no diagnostic.
pub open spec fn finish(outcome: Result<LoadedView, GalileoError>) -> ActionView {
    ActionView::Finish { outcome, diagnostic: None }
}

/// How an operation at `stage` answers `event`: the stage it moves to and the
/// action it asks for, or `None` where `event` does not answer what the
/// operation asked for last.
///
/// - A response with a success status has its body read; one with any other
///   status has its body read as text, for the diagnostic only.
/// - A body ends a load of bytes, and goes to the decoder in a load of an
///   image.
/// - The text of a failed response ends the operation in
///   [`GalileoError::IO`], with a diagnostic of the URL, the status and the
///   text.
/// - A failure of the transport ends the operation in
///   [`GalileoError::Transport`].
/// - The decoder's result ends the operation as it is.
pub open spec fn react(stage: Stage, event: EventView) -> Option<(Stage, ActionView)> {
    match (stage, event) {
        (Stage::AwaitingResponse { url, goal }, EventView::Response(Ok(status))) => Some(
            if is_success_code(status) {
                (Stage::AwaitingBody { goal }, ActionView::ReadBody)
            } else {
                (Stage::AwaitingFailureText { url, status }, ActionView::ReadFailureText)
            },
        ),
        (Stage::AwaitingResponse { .. }, EventView::Response(Err(failure))) => Some(
            (Stage::Finished, finish(Err(GalileoError::Transport(failure)))),
        ),
        (Stage::AwaitingBody { goal }, EventView::Body(Ok(body))) => Some(
            match goal {
                Goal::Bytes => (Stage::Finished, finish(Ok(LoadedView::Bytes(body)))),
                Goal::Image => (Stage::AwaitingDecode, ActionView::Decode(body)),
            },
        ),
        (Stage::AwaitingBody { .. }, EventView::Body(Err(failure))) => Some(
            (Stage::Finished, finish(Err(GalileoError::Transport(failure)))),
        ),
        (Stage::AwaitingFailureText { url, status }, EventView::FailureText(body)) => Some(
            (
                Stage::Finished,
                ActionView::Finish {
                    outcome: Err(GalileoError::IO),
                    diagnostic: Some(DiagnosticView { url, status, body }),
                },
            ),
        ),
        (Stage::AwaitingDecode, EventView::Decoded(result)) => Some(
            (Stage::Finished, finish(decoded_outcome(result))),
        ),
        _ => None,
    }
}

/// How an operation stores where it stands.
#[derive(Debug, PartialEq, Eq)]
enum Progress {
    AwaitingResponse { url: String, goal: Goal },
    AwaitingBody { goal: Goal },
    AwaitingFailureText { url: String, status: u16 },
    AwaitingDecode,
    Finished,
}

/// One load under way.
#[derive(Debug, PartialEq, Eq)]
pub struct Operation {
    progress: Progress,
}

impl View for Operation {
    type V = Stage;

    closed spec fn view(&self) -> Stage {
        match self.progress {
            Progress::AwaitingResponse { url, goal } => Stage::AwaitingResponse { url: url@, goal },
            Progress::AwaitingBody { goal } => Stage::AwaitingBody { goal },
            Progress::AwaitingFailureText { url, status } => Stage::AwaitingFailureText {
                url: url@,
                status,
            },
            Progress::AwaitingDecode => Stage::AwaitingDecode,
            Progress::Finished => Stage::Finished,
        }
    }
}

impl Operation {
    /// An operation that has asked for a GET of `url`.
    pub(crate) fn awaiting_response(url: String, goal: Goal) -> (operation: Operation)
        ensures
            operation@ == (Stage::AwaitingResponse { url: url@, goal }),
    {
        Operation { progress: Progress::AwaitingResponse { url, goal } }
    }

    /// An operation that has handed bytes to the decoder.
    pub(crate) fn awaiting_decode() -> (operation: Operation)
        ensures
            operation@ == Stage::AwaitingDecode,
    {
        Operation { progress: Progress::AwaitingDecode }
    }

    /// Whether the operation has handed out its outcome.
    pub fn is_finished(&self) -> (finished: bool)
        ensures
            finished == (self@ is Finished),
    {
        match self.progress {
            Progress::Finished => true,
            _ => false,
        }
    }

    /// Takes what came of the last action and says what to do next.
    ///
    /// An event that does not answer the last action is refused: the result
    /// is `None` and the operation stays as it was. A finished operation
    /// refuses every event.
    pub fn step(&mut self, event: Event) -> (action: Option<Action>)
        ensures
            (match react(old(self)@, event@) {
                Some((stage, asked)) => final(self)@ == stage && asked_view(action) == Some(asked),
                None => final(self)@ == old(self)@ && action is None,
            }),
    {
        let mut progress = Progress::Finished;
        std::mem::swap(&mut self.progress, &mut progress);
        match (progress, event) {
            (Progress::AwaitingResponse { url, goal }, Event::Response(Ok(status))) => {
                if is_success(status) {
                    self.progress = Progress::AwaitingBody { goal };
                    Some(Action::ReadBody)
                } else {
                    self.progress = Progress::AwaitingFailureText { url, status };
                    Some(Action::ReadFailureText)
                }
            },
            (Progress::AwaitingResponse { .. }, Event::Response(Err(failure))) => {
                Some(Action::Finish {
                    outcome: Err(GalileoError::from_transport(failure)),
                    diagnostic: None,
                })
            },
            (Progress::AwaitingBody { goal }, Event::Body(Ok(body))) => {
                match goal {
                    Goal::Bytes => Some(
                        Action::Finish { outcome: Ok(Loaded::Bytes(body)), diagnostic: None },
                    ),
                    Goal::Image => {
                        self.progress = Progress::AwaitingDecode;
                        Some(Action::Decode(body))
                    },
                }
            },
            (Progress::AwaitingBody { .. }, Event::Body(Err(failure))) => {
                Some(Action::Finish {
                    outcome: Err(GalileoError::from_transport(failure)),
                    diagnostic: None,
                })
            },
            (Progress::AwaitingFailureText { url, status }, Event::FailureText(body)) => {
                Some(Action::Finish {
                    outcome: Err(GalileoError::IO),
                    diagnostic: Some(Diagnostic { url, status, body }),
                })
            },
            (Progress::AwaitingDecode, Event::Decoded(result)) => {
                let outcome = match result {
                    Ok(image) => Ok(Loaded::Image(image)),
                    Err(error) => Err(error),
                };
                Some(Action::Finish { outcome, diagnostic: None })
            },
            (progress, _) => {
                self.progress = progress;
                None
            },
        }
    }
}

} // verus!

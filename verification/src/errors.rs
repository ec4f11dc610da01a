//! The ways in which loading a model or running a prompt can fail.

use vstd::prelude::*;

verus! {

/// No model and session are installed, so there is nothing to run a prompt on.
#[derive(Clone, Copy, Debug, PartialEq, Eq, Structural)]
pub struct NotReadyError;

/// A model file could not be loaded: it was unreadable, in a format that the
/// chosen family does not understand, or the backend could not set itself up.
#[derive(Debug, PartialEq, Eq)]
pub struct LoadError {
    /// The backend's diagnostic.
    pub message: String,
}

/// A generation run did not complete.
#[derive(Debug, PartialEq, Eq)]
pub enum StreamError {
    /// The run could not start: no model and session were installed.
    NotReady,
    /// The backend failed while generating; the text is its diagnostic.
    Backend(String),
}

/// What a [`StreamError`] is, with its text as a sequence of characters.
pub enum StreamErrorView {
    NotReady,
    Backend(Seq<char>),
}

impl View for LoadError {
    type V = Seq<char>;

    open spec fn view(&self) -> Seq<char> {
        self.message@
    }
}

impl View for StreamError {
    type V = StreamErrorView;

    open spec fn view(&self) -> StreamErrorView {
        match self {
            StreamError::NotReady => StreamErrorView::NotReady,
            StreamError::Backend(message) => StreamErrorView::Backend(message@),
        }
    }
}

/// The text that reports a run that could not start.
pub open spec fn not_ready_text() -> Seq<char> {
    "no model is loaded"@
}

/// The text that reports a stream error: a fixed sentence where nothing was
/// loaded, the backend's own diagnostic where generation failed.
pub open spec fn stream_error_text(error: StreamErrorView) -> Seq<char> {
    match error {
        StreamErrorView::NotReady => not_ready_text(),
        StreamErrorView::Backend(message) => message,
    }
}

impl Clone for LoadError {
    fn clone(&self) -> (copy: LoadError)
        ensures
            copy@ == self@,
    {
        LoadError { message: self.message.clone() }
    }
}

impl Clone for StreamError {
    fn clone(&self) -> (copy: StreamError)
        ensures
            copy@ == self@,
    {
        match self {
            StreamError::NotReady => StreamError::NotReady,
            StreamError::Backend(message) => StreamError::Backend(message.clone()),
        }
    }
}

impl NotReadyError {
    /// The text that reports this error.
    pub fn message(&self) -> (text: String)
        ensures
            text@ == not_ready_text(),
    {
        "no model is loaded".to_owned()
    }
}

impl LoadError {
    /// A load error with the given diagnostic.
    pub fn new(message: String) -> (error: LoadError)
        ensures
            error@ == message@,
    {
        LoadError { message }
    }

    /// The backend's diagnostic.
    pub fn message(&self) -> (text: String)
        ensures
            text@ == self@,
    {
        self.message.clone()
    }
}

impl StreamError {
    /// The stream error that a missing model surfaces as.
    pub fn from_not_ready(error: NotReadyError) -> (surfaced: StreamError)
        ensures
            surfaced@ == StreamErrorView::NotReady,
    {
        StreamError::NotReady
    }

    /// Whether the run failed before it produced anything, for want of a model.
    pub fn is_not_ready(&self) -> (not_ready: bool)
        ensures
            not_ready == (self@ is NotReady),
    {
        match self {
            StreamError::NotReady => true,
            StreamError::Backend(_) => false,
        }
    }

    /// The text that reports this error.
    pub fn message(&self) -> (text: String)
        ensures
            text@ == stream_error_text(self@),
    {
        match self {
            StreamError::NotReady => "no model is loaded".to_owned(),
            StreamError::Backend(message) => message.clone(),
        }
    }
}

} // verus!

//! Handles of surfaces. On the native backend a handle is the label by
//! which the window host knows the surface, and each operation on it is a
//! command for the host. On the browser backend the handle is the browser's
//! own; what is decided here is how the browser's answers are read.

use vstd::prelude::*;
use vstd::string::*;
use crate::command_types::{Close, CloseView, PopUpFeatures, SetTitle, SetTitleView};

verus! {

/// A request to the window host.
#[derive(Debug)]
pub enum Command {
    OpenWindow(PopUpFeatures),
    SetTitle(SetTitle),
    CloseWindow(Close),
}

impl Command {
    /// The name by which the host knows this command.
    pub open spec fn spec_name(&self) -> Seq<char> {
        match self {
            Command::OpenWindow(_) => "open_window"@,
            Command::SetTitle(_) => "set_title"@,
            Command::CloseWindow(_) => "close_window"@,
        }
    }

    /// The name by which the host knows this command.
    pub fn name(&self) -> (name: &'static str)
        ensures
            name@ == self.spec_name(),
    {
        match self {
            Command::OpenWindow(_) => "open_window",
            Command::SetTitle(_) => "set_title",
            Command::CloseWindow(_) => "close_window",
        }
    }
}

/// The label of a surface whose own path cannot be read.
pub open spec fn broken_label() -> Seq<char> {
    "BROKEN"@
}

/// The handle of a surface on the native backend.
#[derive(Debug)]
pub struct Window {
    label: String,
}

impl View for Window {
    type V = Seq<char>;

    /// The label of the surface.
    closed spec fn view(&self) -> Seq<char> {
        self.label@
    }
}

impl Window {
    /// The handle of the surface that `features` describes, and the command
    /// that opens it. The handle is there at once, whether or not the host
    /// then opens the surface: it names the surface by the descriptor's
    /// target.
    pub fn new(features: PopUpFeatures) -> (opened: (Window, Command))
        ensures
            opened.0@ == features.target@,
            opened.1 == Command::OpenWindow(features),
    {
        let label = features.target.clone();
        (Window { label }, Command::OpenWindow(features))
    }

    /// The handle of the surface that runs this code, whose label is the
    /// path that it shows.
    pub fn current<E>(pathname: Result<String, E>) -> (current: Window)
        ensures
            current@ == match pathname {
                Ok(path) => path@,
                Err(_) => broken_label(),
            },
    {
        match pathname {
            Ok(label) => Window { label },
            Err(_) => Window { label: String::from_str("BROKEN") },
        }
    }

    /// The label of the surface.
    pub fn label(&self) -> (label: &str)
        ensures
            label@ == self@,
    {
        self.label.as_str()
    }

    /// The command that closes the surface.
    pub fn close(&self) -> (command: Command)
        ensures
            command matches Command::CloseWindow(close) && close@ == (CloseView { label: self@ }),
    {
        Command::CloseWindow(Close { label: self.label.clone() })
    }

    /// The command that gives the surface the title `title`.
    pub fn set_title(&self, title: String) -> (command: Command)
        ensures
            command matches Command::SetTitle(set) && set@ == (SetTitleView {
                label: self@,
                title: title@,
            }),
    {
        Command::SetTitle(SetTitle { label: self.label.clone(), title })
    }
}

/// Why a surface could not be opened.
#[derive(Debug, PartialEq, Eq)]
pub enum Error {
    /// The request failed, with this message.
    Failure(String),
    /// The request was refused: no surface was created.
    NoWindow,
}

/// Reads the browser's answer to a request to open a surface: the handle
/// where there is one, `NoWindow` where the browser gave none, the failure
/// where the request failed.
pub fn opened<W>(answer: Result<Option<W>, String>) -> (outcome: Result<W, Error>)
    ensures
        outcome == match answer {
            Ok(Some(window)) => Ok::<W, Error>(window),
            Ok(None) => Err(Error::NoWindow),
            Err(message) => Err(Error::Failure(message)),
        },
{
    match answer {
        Ok(Some(window)) => Ok(window),
        Ok(None) => Err(Error::NoWindow),
        Err(message) => Err(Error::Failure(message)),
    }
}

/// Why the surface that created this one could not be found.
#[derive(Debug, PartialEq, Eq)]
pub enum OpenerError {
    /// The request failed, with this message.
    Failure(String),
    /// No surface created this one.
    NoWindow,
    /// What the browser names as the creator is not a surface; the text
    /// shows what it is.
    WrongType(String),
}

/// What the browser names as the creator of a surface, as far as it is
/// looked at: whether it is an object, whether it is nothing, the handle that
/// it is taken for, and a text that shows it.
pub struct Opener<W> {
    pub is_object: bool,
    pub is_null: bool,
    pub window: W,
    pub shown: String,
}

/// Reads the browser's answer to the question which surface created this
/// one: the handle where it names an object; `NoWindow` where it names
/// nothing; `WrongType`, with the text that shows it, where it names
/// something else; the failure where the question failed.
pub fn opener<W>(answer: Result<Opener<W>, String>) -> (outcome: Result<W, OpenerError>)
    ensures
        outcome == match answer {
            Ok(named) => if named.is_object {
                Ok::<W, OpenerError>(named.window)
            } else if named.is_null {
                Err(OpenerError::NoWindow)
            } else {
                Err(OpenerError::WrongType(named.shown))
            },
            Err(message) => Err(OpenerError::Failure(message)),
        },
{
    match answer {
        Ok(named) => {
            if named.is_object {
                Ok(named.window)
            } else if named.is_null {
                Err(OpenerError::NoWindow)
            } else {
                Err(OpenerError::WrongType(named.shown))
            }
        },
        Err(message) => Err(OpenerError::Failure(message)),
    }
}

} // verus!

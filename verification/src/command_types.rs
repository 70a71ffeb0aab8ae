//! The values exchanged with the window host: popup descriptors and the
//! parameters of the close and set-title commands.

use vstd::prelude::*;
use vstd::string::*;
use crate::decimal::{decimal, push_decimal};

verus! {

/// Name of the event that the host broadcasts when a surface is destroyed.
pub const CLOSED_EVENT: &'static str = "closed";

/// Inner size of a surface, in pixels.
#[derive(Clone, Copy, Debug, PartialEq, Eq, Structural)]
pub struct Size {
    pub height: u32,
    pub width: u32,
}

/// Position of a surface on the screen, in pixels.
#[derive(Clone, Copy, Debug, PartialEq, Eq, Structural)]
pub struct Position {
    pub top: u32,
    pub left: u32,
}

/// Who is told, and with which number, when a surface is destroyed.
#[derive(Clone, Debug, PartialEq, Eq)]
pub struct CloseNotification {
    pub receiver_label: String,
    pub id: u64,
}

/// Mathematical value of a [`CloseNotification`].
pub struct CloseNotificationView {
    pub receiver_label: Seq<char>,
    pub id: u64,
}

impl View for CloseNotification {
    type V = CloseNotificationView;

    open spec fn view(&self) -> CloseNotificationView {
        CloseNotificationView { receiver_label: self.receiver_label@, id: self.id }
    }
}

/// Parameters of the command that closes a surface.
#[derive(Clone, Debug, PartialEq, Eq)]
pub struct Close {
    pub label: String,
}

/// Mathematical value of a [`Close`].
pub struct CloseView {
    pub label: Seq<char>,
}

impl View for Close {
    type V = CloseView;

    open spec fn view(&self) -> CloseView {
        CloseView { label: self.label@ }
    }
}

/// Parameters of the command that retitles a surface.
#[derive(Clone, Debug, PartialEq, Eq)]
pub struct SetTitle {
    pub label: String,
    pub title: String,
}

/// Mathematical value of a [`SetTitle`].
pub struct SetTitleView {
    pub label: Seq<char>,
    pub title: Seq<char>,
}

impl View for SetTitle {
    type V = SetTitleView;

    open spec fn view(&self) -> SetTitleView {
        SetTitleView { label: self.label@, title: self.title@ }
    }
}

/// How and where to open a surface.
#[derive(Clone, Debug, PartialEq, Eq)]
pub struct PopUpFeatures {
    pub url: String,
    pub target: String,
    pub size: Option<Size>,
    pub position: Option<Position>,
    pub close_notification: Option<CloseNotification>,
}

/// Mathematical value of a [`PopUpFeatures`].
pub struct PopUpFeaturesView {
    pub url: Seq<char>,
    pub target: Seq<char>,
    pub size: Option<Size>,
    pub position: Option<Position>,
    pub close_notification: Option<CloseNotificationView>,
}

impl View for PopUpFeatures {
    type V = PopUpFeaturesView;

    open spec fn view(&self) -> PopUpFeaturesView {
        PopUpFeaturesView {
            url: self.url@,
            target: self.target@,
            size: self.size,
            position: self.position,
            close_notification: match self.close_notification {
                Some(n) => Some(n@),
                None => None,
            },
        }
    }
}

/// The size part of a feature string.
pub open spec fn size_features(size: Size) -> Seq<char> {
    "innerWidth="@ + decimal(size.width as nat) + ",innerHeight="@ + decimal(size.height as nat)
}

/// The position part of a feature string.
pub open spec fn position_features(position: Position) -> Seq<char> {
    "top="@ + decimal(position.top as nat) + ",left="@ + decimal(position.left as nat)
}

/// The feature string of a size and a position: the parts that are present,
/// in that order, joined by one comma.
pub open spec fn feature_string(size: Option<Size>, position: Option<Position>) -> Seq<char> {
    match (size, position) {
        (Some(s), Some(p)) => size_features(s) + ","@ + position_features(p),
        (Some(s), None) => size_features(s),
        (None, Some(p)) => position_features(p),
        (None, None) => Seq::empty(),
    }
}

impl PopUpFeatures {
    /// The feature string that a browser takes when it opens a window:
    /// `innerWidth=W,innerHeight=H` where a size is given, `top=T,left=L`
    /// where a position is given, a comma between the two where both are.
    pub fn to_string(&self) -> (s: String)
        ensures
            s@ == feature_string(self.size, self.position),
    {
        let mut s = String::new();
        if let Some(size) = &self.size {
            s.append("innerWidth=");
            push_decimal(&mut s, size.width as u64);
            s.append(",innerHeight=");
            push_decimal(&mut s, size.height as u64);
        }
        if let Some(position) = &self.position {
            if self.size.is_some() {
                s.append(",");
            }
            s.append("top=");
            push_decimal(&mut s, position.top as u64);
            s.append(",left=");
            push_decimal(&mut s, position.left as u64);
        }
        assert(s@ =~= feature_string(self.size, self.position));
        s
    }
}

} // verus!

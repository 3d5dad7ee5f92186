//! The alert banner: what it says, how grave it is and how it goes away.

use crate::text::opt_text;
use vstd::prelude::*;
use vstd::string::*;

verus! {

/// How grave an alert is.
#[allow(non_camel_case_types)]
#[derive(Clone, Copy, Debug, PartialEq, Eq, Structural)]
pub enum AlertSeverity {
    SUCCESS,
    INFO,
    WARNING,
    ERROR,
}

/// How an alert goes away: by itself after so many milliseconds, or when the user
/// closes it.
#[derive(Clone, Copy, Debug, PartialEq, Eq, Structural)]
pub enum AlertType {
    Timed(u64),
    UserMustClose,
}

/// The banner's content.
#[derive(Debug)]
pub struct Alert {
    pub title: Option<String>,
    pub message: String,
    pub severity: AlertSeverity,
    pub _type: AlertType,
}

/// An alert as plain text.
pub struct AlertView {
    pub title: Option<Seq<char>>,
    pub message: Seq<char>,
    pub severity: AlertSeverity,
    pub kind: AlertType,
}

/// The way an alert with this display time goes away.
pub open spec fn kind_for(time: Option<u64>) -> AlertType {
    match time {
        Some(ms) => AlertType::Timed(ms),
        None => AlertType::UserMustClose,
    }
}

impl View for Alert {
    type V = AlertView;

    open spec fn view(&self) -> AlertView {
        AlertView {
            title: opt_text(self.title),
            message: self.message@,
            severity: self.severity,
            kind: self._type,
        }
    }
}

impl AlertSeverity {
    /// The heading of an alert that has no title of its own.
    pub open spec fn heading(self) -> Seq<char> {
        match self {
            AlertSeverity::SUCCESS => "Success"@,
            AlertSeverity::INFO => "Info"@,
            AlertSeverity::WARNING => "Warning"@,
            AlertSeverity::ERROR => "Error"@,
        }
    }

    /// The heading of an alert that has no title of its own.
    pub fn label(&self) -> (text: &'static str)
        ensures
            text@ == self.heading(),
    {
        match self {
            AlertSeverity::SUCCESS => "Success",
            AlertSeverity::INFO => "Info",
            AlertSeverity::WARNING => "Warning",
            AlertSeverity::ERROR => "Error",
        }
    }
}

impl AlertView {
    /// The alert that `Alert::new` makes of these values.
    pub open spec fn of(
        severity: AlertSeverity,
        title: Option<Seq<char>>,
        message: Seq<char>,
        time: Option<u64>,
    ) -> AlertView {
        AlertView { title, message, severity, kind: kind_for(time) }
    }

    /// The line above the message: the title, or the severity's name where there
    /// is none.
    pub open spec fn heading(self) -> Seq<char> {
        match self.title {
            Some(title) => title,
            None => self.severity.heading(),
        }
    }

    /// Whether the banner offers a button to close it.
    pub open spec fn closable(self) -> bool {
        self.kind == AlertType::UserMustClose
    }
}

impl Alert {
    /// An alert of the given severity. It shows for `time` milliseconds, or until
    /// the user closes it where `time` is `None`.
    pub fn new(severity: AlertSeverity, title: Option<String>, message: String, time: Option<u64>) -> (alert: Alert)
        ensures
            alert@ == AlertView::of(severity, opt_text(title), message@, time),
    {
        let kind = match time {
            Some(ms) => AlertType::Timed(ms),
            None => AlertType::UserMustClose,
        };
        Alert { title, message, severity, _type: kind }
    }

    /// The line above the message.
    pub fn heading(&self) -> (text: String)
        ensures
            text@ == self@.heading(),
    {
        match &self.title {
            Some(title) => title.clone(),
            None => String::from_str(self.severity.label()),
        }
    }

    /// Whether the banner offers a button to close it.
    pub fn closable(&self) -> (yes: bool)
        ensures
            yes == self@.closable(),
    {
        match self._type {
            AlertType::UserMustClose => true,
            AlertType::Timed(_) => false,
        }
    }
}

impl Clone for Alert {
    fn clone(&self) -> (copy: Self)
        ensures
            copy@ == self@,
    {
        let title = match &self.title {
            Some(title) => Some(title.clone()),
            None => None,
        };
        Alert { title, message: self.message.clone(), severity: self.severity, _type: self._type }
    }
}

/// Margin left and right of the banner, in pixels.
pub const ALERT_SIDE_MARGIN: i32 = 40;

/// The banner's width in a window `window_width` pixels wide: the window without
/// the margin on both sides, and never less than nothing.
pub open spec fn banner_width(window_width: int) -> int {
    if window_width - 2 * ALERT_SIDE_MARGIN > 0 {
        window_width - 2 * ALERT_SIDE_MARGIN
    } else {
        0
    }
}

/// The banner's width in a window `window_width` pixels wide.
pub fn alert_width(window_width: i32) -> (width: i32)
    ensures
        width == banner_width(window_width as int),
{
    if window_width > 2 * ALERT_SIDE_MARGIN {
        window_width - 2 * ALERT_SIDE_MARGIN
    } else {
        0
    }
}

} // verus!

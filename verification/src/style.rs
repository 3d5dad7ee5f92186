//! Colours, icons and the few values of the look that need no rendering to state.

use crate::alert::AlertSeverity;
use vstd::prelude::*;

verus! {

/// A colour as a hexadecimal number: `Rgb` two digits each for red, green and
/// blue, `Rgba` two more for the opacity.
#[derive(Clone, Copy, Debug, PartialEq, Eq, Structural)]
pub enum Colour {
    Rgb(u32),
    Rgba(u32),
}

/// Which way a divider runs.
#[derive(Clone, Copy, Debug, PartialEq, Eq, Structural)]
pub enum Direction {
    Horizontal,
    Vertical,
}

/// Where a button puts its text along one axis.
#[derive(Clone, Copy, Debug, PartialEq, Eq, Structural)]
pub enum TextPosition {
    Start,
    Centre,
    End,
}

/// The icons that the window draws.
#[derive(Clone, Copy, Debug, PartialEq, Eq, Structural)]
pub enum Icons {
    Play,
    Close,
    OpenFolder,
    Trash,
    ChevronDown,
    Settings,
    Check,
    Ban,
    AlertCircle,
}

impl Icons {
    /// Where the icon's drawing lies among the assets.
    pub open spec fn asset(self) -> Seq<char> {
        match self {
            Icons::Play => "svg/play.svg"@,
            Icons::Close => "svg/close.svg"@,
            Icons::OpenFolder => "svg/open_folder.svg"@,
            Icons::Trash => "svg/trash.svg"@,
            Icons::ChevronDown => "svg/chevron_down.svg"@,
            Icons::Settings => "svg/settings.svg"@,
            Icons::Check => "svg/check.svg"@,
            Icons::Ban => "svg/ban.svg"@,
            Icons::AlertCircle => "svg/alert_circle.svg"@,
        }
    }

    /// Where the icon's drawing lies among the assets.
    pub fn path(&self) -> (path: &'static str)
        ensures
            path@ == self.asset(),
    {
        match self {
            Icons::Play => "svg/play.svg",
            Icons::Close => "svg/close.svg",
            Icons::OpenFolder => "svg/open_folder.svg",
            Icons::Trash => "svg/trash.svg",
            Icons::ChevronDown => "svg/chevron_down.svg",
            Icons::Settings => "svg/settings.svg",
            Icons::Check => "svg/check.svg",
            Icons::Ban => "svg/ban.svg",
            Icons::AlertCircle => "svg/alert_circle.svg",
        }
    }
}

/// The colours of the alert banner, one for each severity.
#[derive(Clone, Copy, Debug, PartialEq, Eq, Structural)]
pub struct AlertStyle {
    pub success: Colour,
    pub info: Colour,
    pub warning: Colour,
    pub error: Colour,
}

impl Default for AlertStyle {
    fn default() -> (style: Self)
        ensures
            style == (AlertStyle {
                success: Colour::Rgb(0x6bcb61),
                info: Colour::Rgb(0x3675f2),
                warning: Colour::Rgb(0xe0ce70),
                error: Colour::Rgb(0xde5544),
            }),
    {
        AlertStyle {
            success: Colour::Rgb(0x6bcb61),
            info: Colour::Rgb(0x3675f2),
            warning: Colour::Rgb(0xe0ce70),
            error: Colour::Rgb(0xde5544),
        }
    }
}

impl AlertStyle {
    /// The banner's colour for an alert of this severity.
    pub fn colour(&self, severity: AlertSeverity) -> (colour: Colour)
        ensures
            colour == (match severity {
                AlertSeverity::SUCCESS => self.success,
                AlertSeverity::INFO => self.info,
                AlertSeverity::WARNING => self.warning,
                AlertSeverity::ERROR => self.error,
            }),
    {
        match severity {
            AlertSeverity::SUCCESS => self.success,
            AlertSeverity::INFO => self.info,
            AlertSeverity::WARNING => self.warning,
            AlertSeverity::ERROR => self.error,
        }
    }
}

/// The largest colour that has no digits for the opacity.
pub const MAX_RGB: u32 = 0xffffff;

/// The colour with the digits of `opacity` behind its own.
pub fn add_opacity(colour: u32, opacity: u32) -> (with_opacity: u32)
    requires
        colour * 256 + opacity <= u32::MAX,
    ensures
        with_opacity == colour * 256 + opacity,
{
    colour * 256 + opacity
}

/// The colour with digits for the opacity: a colour that has none is made fully
/// opaque, any other is taken as it is.
pub fn rgba_value(colour: u32) -> (rgba: u32)
    ensures
        rgba == (if colour <= MAX_RGB {
            colour * 256 + 0xff
        } else {
            colour as int
        }),
{
    if colour <= MAX_RGB {
        add_opacity(colour, 0xff)
    } else {
        colour
    }
}

impl Colour {
    /// The digits for red, green and blue: the last six of `Rgb`, those before
    /// the last two of `Rgba`.
    pub open spec fn rgb_digits(self) -> int {
        match self {
            Colour::Rgb(colour) => colour as int % (MAX_RGB + 1),
            Colour::Rgba(colour) => colour as int / 256,
        }
    }

    /// The colour with this opacity, from 0 for clear to 255 for opaque, behind
    /// its digits for red, green and blue.
    pub fn opacity(&self, opacity: u8) -> (faded: Colour)
        ensures
            faded == Colour::Rgba((self.rgb_digits() * 256 + opacity) as u32),
            faded.rgb_digits() == self.rgb_digits(),
    {
        match *self {
            Colour::Rgb(colour) => Colour::Rgba(add_opacity(colour % (MAX_RGB + 1), opacity as u32)),
            Colour::Rgba(colour) => Colour::Rgba(add_opacity(colour / 256, opacity as u32)),
        }
    }
}

/// A tooltip that shows one line of text.
#[derive(Debug)]
pub struct SimpleTooltip {
    text: String,
}

impl SimpleTooltip {
    /// A tooltip that shows `text`.
    pub fn new(text: String) -> (tooltip: Self)
        ensures
            tooltip.shown() == text@,
    {
        SimpleTooltip { text }
    }

    /// The text on show.
    pub closed spec fn shown(&self) -> Seq<char> {
        self.text@
    }

    /// The text on show.
    pub fn text(&self) -> (text: &String)
        ensures
            text@ == self.shown(),
    {
        &self.text
    }
}

/// Says that a project was opened.
#[derive(Clone, Copy, Debug, PartialEq, Eq, Structural)]
pub struct OpenProjectEvent {
    project_id: u32,
}

impl OpenProjectEvent {
    /// The event for the project with this id.
    pub fn new(project_id: u32) -> (event: Self)
        ensures
            event.id() == project_id,
    {
        OpenProjectEvent { project_id }
    }

    /// Id of the project that was opened.
    pub closed spec fn id(&self) -> u32 {
        self.project_id
    }

    /// Id of the project that was opened.
    pub fn project_id(&self) -> (id: u32)
        ensures
            id == self.id(),
    {
        self.project_id
    }
}

} // verus!

//! The words that events, actions and states are made of.

use crate::text::Text;
use vstd::prelude::*;

verus! {

/// A point of the screen.
#[derive(Clone, Copy, Debug, PartialEq, Eq, Structural)]
pub struct Point {
    pub x: i32,
    pub y: i32,
}

/// The points from `min` up to, but not on, the lines through `max`.
#[derive(Clone, Copy, Debug, PartialEq, Eq, Structural)]
pub struct Rectangle {
    pub min: Point,
    pub max: Point,
}

#[derive(Clone, Copy, Debug, PartialEq, Eq, Structural)]
pub enum ButtonCode {
    Power,
    Home,
    Light,
    Backward,
    Forward,
    Erase,
    Highlight,
}

#[derive(Clone, Copy, Debug, PartialEq, Eq, Structural)]
pub enum ButtonStatus {
    Pressed,
    Released,
    Repeated,
}

#[derive(Clone, Copy, Debug, PartialEq, Eq, Structural)]
pub enum FingerStatus {
    Down,
    Motion,
    Up,
}

/// What the reader is plugged into.
#[derive(Clone, Copy, Debug, PartialEq, Eq, Structural)]
pub enum PowerSource {
    Host,
    Wall,
}

/// What happens to the device. Times are milliseconds.
#[allow(inconsistent_fields)]
#[derive(Clone, Copy, Debug, PartialEq, Eq, Structural)]
pub enum DeviceEvent {
    Finger { id: i32, status: FingerStatus, position: Point, time: u32 },
    Button { time: u32, code: ButtonCode, status: ButtonStatus },
    CoverOn,
    CoverOff,
    NetUp,
    Plug(PowerSource),
    Unplug(PowerSource),
    RotateScreen(i8),
    UserActivity,
}

#[derive(Clone, Copy, Debug, PartialEq, Eq, Structural)]
pub enum Orientation {
    Portrait,
    Landscape,
}

/// A rotation of the screen and the orientation that the device gives it.
#[derive(Clone, Copy, Debug, PartialEq, Eq, Structural)]
pub struct Rotation {
    pub index: i8,
    pub orientation: Orientation,
}

/// What the screen shows: its rotation, its width and its height.
#[derive(Clone, Copy, Debug, PartialEq, Eq, Structural)]
pub struct Display {
    pub rotation: Rotation,
    pub width: u32,
    pub height: u32,
}

/// The rotations that the gyroscope may not leave.
#[derive(Clone, Copy, Debug, PartialEq, Eq, Structural)]
pub enum RotationLock {
    Landscape,
    Portrait,
    Current,
}

#[derive(Clone, Copy, Debug, PartialEq, Eq, Structural)]
pub enum ButtonScheme {
    Natural,
    Inverted,
}

/// A diagonal direction, which also names a corner of the screen.
#[derive(Clone, Copy, Debug, PartialEq, Eq, Structural)]
pub enum DiagDir {
    NorthWest,
    NorthEast,
    SouthEast,
    SouthWest,
}

/// The part of the screen that a point lies in.
#[derive(Clone, Copy, Debug, PartialEq, Eq, Structural)]
pub enum Region {
    Corner(DiagDir),
    Elsewhere,
}

/// The full-screen pictures between two states of the device.
#[derive(Clone, Copy, Debug, PartialEq, Eq, Structural)]
pub enum IntermKind {
    Suspend,
    PowerOff,
    Share,
}

/// How thoroughly the screen is redrawn.
#[derive(Clone, Copy, Debug, PartialEq, Eq, Structural)]
pub enum UpdateMode {
    Gui,
    Full,
}

/// The views that the decisions know by name.
#[derive(Clone, Copy, Debug, PartialEq, Eq, Structural)]
pub enum ViewId {
    Frontlight,
    Other,
}

/// The part of the reading history to list.
#[derive(Clone, Copy, Debug, PartialEq, Eq, Structural)]
pub enum HistoryView {
    Full,
    MarkedForLater,
}

/// How the program ends.
#[derive(Clone, Copy, Debug, PartialEq, Eq, Structural)]
pub enum ExitStatus {
    Quit,
    Reboot,
    PowerOff,
}

/// What the decisions read of the settings.
#[derive(Clone, Copy, Debug, PartialEq, Eq)]
pub struct Settings {
    pub wifi: bool,
    pub frontlight: bool,
    /// Black is white on the screen.
    pub inverted: bool,
    /// The cover puts the device to sleep.
    pub sleep_cover: bool,
    /// The storage is shared with a host without a question.
    pub auto_share: bool,
    /// The device falls asleep after a time without activity.
    pub auto_suspend: bool,
    /// The device powers off after a time asleep.
    pub auto_power_off: bool,
    /// The light button takes screenshots.
    pub screenshot_button: bool,
    /// The library is imported when the program starts.
    pub startup_trigger: bool,
    /// The library is imported again when sharing ends.
    pub unshare_trigger: bool,
    pub rotation_lock: Option<RotationLock>,
    pub button_scheme: ButtonScheme,
}

#[derive(Clone, Copy, Debug, PartialEq, Eq, Structural)]
pub enum TextAlign {
    Justify,
    Left,
    Right,
    Center,
}

/// How the pages of a reader are set, as far as the decisions change it.
#[derive(Debug, PartialEq, Eq)]
pub struct Style<T> {
    pub font_family: T,
    pub text_align: TextAlign,
    pub margin_width: i32,
}

impl View for Style<String> {
    type V = Style<Text>;

    open spec fn view(&self) -> Style<Text> {
        Style {
            font_family: self.font_family@,
            text_align: self.text_align,
            margin_width: self.margin_width,
        }
    }
}

/// The settings as they are stored, with the style of the pages.
#[derive(Debug, PartialEq, Eq)]
pub struct Stored<T> {
    pub settings: Settings,
    pub style: Style<T>,
}

impl View for Stored<String> {
    type V = Stored<Text>;

    open spec fn view(&self) -> Stored<Text> {
        Stored { settings: self.settings, style: self.style@ }
    }
}

} // verus!

use vstd::prelude::*;

use vstd::string::StringSliceAdditionalSpecFns;

use crate::geom::{LinearDir, Point};
use crate::text::{has_prefix, same_text, starts_with};

pub mod gestures;

verus! {

// Event types
pub const EV_SYN: u16 = 0x00;
pub const EV_KEY: u16 = 0x01;
pub const EV_REL: u16 = 0x02;
pub const EV_ABS: u16 = 0x03;
pub const EV_MSC: u16 = 0x04;

// Event codes
pub const ABS_MT_TRACKING_ID: u16 = 0x39;
pub const ABS_MT_SLOT: u16 = 0x2f;
pub const ABS_MT_POSITION_X: u16 = 0x35;
pub const ABS_MT_POSITION_Y: u16 = 0x36;
pub const ABS_MT_PRESSURE: u16 = 0x3a;
pub const ABS_MT_TOUCH_MAJOR: u16 = 0x30;
pub const ABS_X: u16 = 0x00;
pub const ABS_Y: u16 = 0x01;
pub const ABS_PRESSURE: u16 = 0x18;
pub const MSC_RAW: u16 = 0x03;
pub const SYN_REPORT: u16 = 0x00;
pub const SYN_MT_REPORT: u16 = 0x02;

// Event values
pub const VAL_RELEASE: i32 = 0;
pub const VAL_PRESS: i32 = 1;
pub const VAL_REPEAT: i32 = 2;

// Key codes
pub const KEY_POWER: u16 = 116;
pub const KEY_HOME: u16 = 102;
pub const KEY_LIGHT: u16 = 90;
pub const KEY_BACKWARD: u16 = 193;
pub const KEY_FORWARD: u16 = 194;
pub const PEN_ERASE: u16 = 331;
pub const PEN_HIGHLIGHT: u16 = 332;

/// Event codes that carry a touch point, which differ between touch protocols.
#[derive(Debug, Copy, Clone, PartialEq, Eq, Structural)]
pub struct TouchCodes {
    pub pressure: u16,
    pub x: u16,
    pub y: u16,
}

/// Protocol spoken by the touch panel.
#[derive(Debug, Copy, Clone, PartialEq, Eq, Structural)]
pub enum TouchProto {
    Single,
    MultiA,
    /// Pressure won't indicate a finger release.
    MultiB,
    MultiC,
    MultiSnow,
}

/// Life cycle step of a finger contact.
#[derive(Debug, Copy, Clone, PartialEq, Eq, Structural)]
pub enum FingerStatus {
    Down,
    Motion,
    Up,
}

/// Life cycle step of a button press.
#[derive(Debug, Copy, Clone, PartialEq, Eq, Structural)]
pub enum ButtonStatus {
    Pressed,
    Released,
    Repeated,
}

impl ButtonStatus {
    /// The status that a raw key event value stands for, if any.
    pub open spec fn spec_from_raw(value: int) -> Option<ButtonStatus> {
        if value == VAL_RELEASE {
            Some(ButtonStatus::Released)
        } else if value == VAL_PRESS {
            Some(ButtonStatus::Pressed)
        } else if value == VAL_REPEAT {
            Some(ButtonStatus::Repeated)
        } else {
            None
        }
    }

    pub fn try_from_raw(value: i32) -> (r: Option<ButtonStatus>)
        ensures
            r == Self::spec_from_raw(value as int),
    {
        match value {
            VAL_RELEASE => Some(ButtonStatus::Released),
            VAL_PRESS => Some(ButtonStatus::Pressed),
            VAL_REPEAT => Some(ButtonStatus::Repeated),
            _ => None,
        }
    }
}

/// Whether the page turn buttons keep their natural meaning or swap it.
#[derive(Debug, Copy, Clone, PartialEq, Eq, Structural)]
pub enum ButtonScheme {
    Natural,
    Inverted,
}

/// A physical button of the device.
#[derive(Debug, Copy, Clone, PartialEq, Eq, Structural, Hash)]
pub enum ButtonCode {
    Power,
    Home,
    Light,
    Backward,
    Forward,
    Erase,
    Highlight,
    Raw(u16),
}

/// The page turn button that `direction` lands on once the device's own
/// inversion and the user's scheme have each possibly flipped it.
pub open spec fn spec_button_direction(
    direction: LinearDir,
    device_inverts: bool,
    button_scheme: ButtonScheme,
) -> ButtonCode {
    let flipped = device_inverts != (button_scheme == ButtonScheme::Inverted);
    let d = if flipped {
        direction.spec_opposite()
    } else {
        direction
    };
    if d == LinearDir::Forward {
        ButtonCode::Forward
    } else {
        ButtonCode::Backward
    }
}

/// Resolves a page turn key; `device_inverts` tells whether the device swaps
/// these buttons in its current rotation.
pub fn resolve_button_direction(
    direction: LinearDir,
    device_inverts: bool,
    button_scheme: ButtonScheme,
) -> (r: ButtonCode)
    ensures
        r == spec_button_direction(direction, device_inverts, button_scheme),
{
    let mut direction = direction;
    let inverted_scheme = match button_scheme {
        ButtonScheme::Inverted => true,
        ButtonScheme::Natural => false,
    };
    if device_inverts != inverted_scheme {
        direction = direction.opposite();
    }
    match direction {
        LinearDir::Forward => ButtonCode::Forward,
        LinearDir::Backward => ButtonCode::Backward,
    }
}

impl ButtonCode {
    /// The button that a raw key code stands for.
    pub open spec fn spec_from_raw(code: u16, device_inverts: bool, button_scheme: ButtonScheme) -> ButtonCode {
        if code == KEY_POWER {
            ButtonCode::Power
        } else if code == KEY_HOME {
            ButtonCode::Home
        } else if code == KEY_LIGHT {
            ButtonCode::Light
        } else if code == KEY_BACKWARD {
            spec_button_direction(LinearDir::Backward, device_inverts, button_scheme)
        } else if code == KEY_FORWARD {
            spec_button_direction(LinearDir::Forward, device_inverts, button_scheme)
        } else if code == PEN_ERASE {
            ButtonCode::Erase
        } else if code == PEN_HIGHLIGHT {
            ButtonCode::Highlight
        } else {
            ButtonCode::Raw(code)
        }
    }

    pub fn from_raw(code: u16, device_inverts: bool, button_scheme: ButtonScheme) -> (r: ButtonCode)
        ensures
            r == Self::spec_from_raw(code, device_inverts, button_scheme),
    {
        match code {
            KEY_POWER => ButtonCode::Power,
            KEY_HOME => ButtonCode::Home,
            KEY_LIGHT => ButtonCode::Light,
            KEY_BACKWARD => resolve_button_direction(LinearDir::Backward, device_inverts, button_scheme),
            KEY_FORWARD => resolve_button_direction(LinearDir::Forward, device_inverts, button_scheme),
            PEN_ERASE => ButtonCode::Erase,
            PEN_HIGHLIGHT => ButtonCode::Highlight,
            _ => ButtonCode::Raw(code),
        }
    }
}

/// The source that is powering the (plugged) device.
#[derive(Debug, Copy, Clone, PartialEq, Eq, Structural)]
pub enum PowerSource {
    /// A PC.
    Host,
    /// A wall charger.
    Wall,
}

/// Device-related events. Times are in microseconds of a monotonic clock.
#[derive(Debug, Copy, Clone, PartialEq, Eq, Structural)]
pub enum DeviceEvent {
    /// Finger-related events (pressed, moved...)
    Finger { id: i32, time: u64, status: FingerStatus, position: Point },
    /// Button-related events (pressed, released...)
    Button { time: u64, code: ButtonCode, status: ButtonStatus },
    /// Device plugged to source `PowerSource`.
    Plug(PowerSource),
    /// Device unplugged from source `PowerSource`.
    Unplug(PowerSource),
    /// Screen rotated.
    RotateScreen(i8),
    /// The magnetic cover has been closed.
    CoverOn,
    /// The magnetic cover has been lifted.
    CoverOff,
    /// The network interface is up.
    NetUp,
    /// The user has just interacted with the device (finger up or down, button pressed...)
    UserActivity,
}

/// Microseconds since the epoch of a kernel timestamp of `tv_sec` seconds
/// and `tv_usec` microseconds.
pub fn timestamp_us(tv_sec: i64, tv_usec: i64) -> (r: u64)
    requires
        0 <= tv_sec,
        0 <= tv_usec < 1_000_000,
        tv_sec * 1_000_000 + tv_usec <= u64::MAX,
    ensures
        r == tv_sec * 1_000_000 + tv_usec,
{
    (tv_sec as u64) * 1_000_000 + (tv_usec as u64)
}

/// The event that a line of the hardware status channel announces, if any.
pub open spec fn spec_usb_event(msg: Seq<u8>) -> Option<DeviceEvent> {
    if msg == "usb plug add".spec_bytes() {
        Some(DeviceEvent::Plug(PowerSource::Host))
    } else if msg == "usb plug remove".spec_bytes() {
        Some(DeviceEvent::Unplug(PowerSource::Host))
    } else if msg == "usb ac add".spec_bytes() {
        Some(DeviceEvent::Plug(PowerSource::Wall))
    } else if msg == "usb ac remove".spec_bytes() {
        Some(DeviceEvent::Unplug(PowerSource::Wall))
    } else if has_prefix(msg, "network bound".spec_bytes()) {
        Some(DeviceEvent::NetUp)
    } else {
        None
    }
}

/// Reads a line of the hardware status channel.
pub fn usb_event(msg: &str) -> (r: Option<DeviceEvent>)
    ensures
        r == spec_usb_event(msg.spec_bytes()),
{
    if same_text(msg, "usb plug add") {
        Some(DeviceEvent::Plug(PowerSource::Host))
    } else if same_text(msg, "usb plug remove") {
        Some(DeviceEvent::Unplug(PowerSource::Host))
    } else if same_text(msg, "usb ac add") {
        Some(DeviceEvent::Plug(PowerSource::Wall))
    } else if same_text(msg, "usb ac remove") {
        Some(DeviceEvent::Unplug(PowerSource::Wall))
    } else if starts_with(msg, "network bound") {
        Some(DeviceEvent::NetUp)
    } else {
        None
    }
}

} // verus!

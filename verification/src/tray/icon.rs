//! Tray icon selection: the idle icon or a connected-count badge clamped at
//! nine, plus the status-dot palette of the per-tunnel menu rows.
use crate::state::models::ForwardStatus;
use vstd::prelude::*;

verus! {

/// The connected-count value at which the badge clamps.
pub const MAX_BADGE: usize = 9;

/// Which tray icon asset to display.
#[derive(Debug, Clone, Copy, PartialEq, Eq, Structural)]
pub enum TrayIcon {
    /// No tunnel connected.
    Idle,
    /// One or more connected: the numbered badge, 1 to 9.
    Badge(u8),
}

/// `0` is idle; otherwise the badge, clamped to [`MAX_BADGE`].
pub fn tray_icon_for_count(count: usize) -> (r: TrayIcon)
    ensures
        count == 0 ==> r == TrayIcon::Idle,
        0 < count <= MAX_BADGE ==> r == TrayIcon::Badge(count as u8),
        count > MAX_BADGE ==> r == TrayIcon::Badge(9),
{
    if count == 0 {
        TrayIcon::Idle
    } else if count < MAX_BADGE {
        TrayIcon::Badge(count as u8)
    } else {
        TrayIcon::Badge(9)
    }
}

/// The asset file behind a tray icon.
pub open spec fn icon_asset(icon: TrayIcon) -> Seq<char> {
    match icon {
        TrayIcon::Idle => "tray_icon_idle.png"@,
        TrayIcon::Badge(n) => {
            let k = if n < 1 {
                1
            } else if n > 9 {
                9
            } else {
                n as int
            };
            "tray_icon_"@ + crate::text::decimal(k as nat) + ".png"@
        },
    }
}

/// The PNG asset file backing a tray icon. An out-of-range badge is clamped
/// into `1..=9` so it always names an existing asset.
pub fn png_asset(icon: TrayIcon) -> (r: String)
    ensures
        r@ == icon_asset(icon),
{
    match icon {
        TrayIcon::Idle => "tray_icon_idle.png".to_string(),
        TrayIcon::Badge(n) => {
            let k: u64 = if n < 1 {
                1
            } else if n > 9 {
                9
            } else {
                n as u64
            };
            crate::text::push_decimal("tray_icon_".to_string(), k).concat(".png")
        },
    }
}

/// A colored status dot shown as the leading icon of a per-tunnel row.
#[derive(Debug, Clone, Copy, PartialEq, Eq, Structural)]
pub enum StatusDot {
    Green,
    Yellow,
    Red,
    Grey,
}

/// The status palette: connected green, connecting and disconnecting
/// yellow, error red, disconnected grey.
pub open spec fn dot_for(status: ForwardStatus) -> StatusDot {
    match status {
        ForwardStatus::Connected => StatusDot::Green,
        ForwardStatus::Connecting => StatusDot::Yellow,
        ForwardStatus::Disconnecting => StatusDot::Yellow,
        ForwardStatus::Error => StatusDot::Red,
        ForwardStatus::Disconnected => StatusDot::Grey,
    }
}

impl StatusDot {
    /// The status-to-dot mapping of the app palette.
    pub fn for_status(status: ForwardStatus) -> (r: StatusDot)
        ensures
            r == dot_for(status),
    {
        match status {
            ForwardStatus::Connected => StatusDot::Green,
            ForwardStatus::Connecting | ForwardStatus::Disconnecting => StatusDot::Yellow,
            ForwardStatus::Error => StatusDot::Red,
            ForwardStatus::Disconnected => StatusDot::Grey,
        }
    }
}

/// The asset file behind a status dot.
pub open spec fn dot_asset(dot: StatusDot) -> Seq<char> {
    match dot {
        StatusDot::Green => "dot_green.png"@,
        StatusDot::Yellow => "dot_yellow.png"@,
        StatusDot::Red => "dot_red.png"@,
        StatusDot::Grey => "dot_grey.png"@,
    }
}

/// The PNG asset file backing a status dot.
pub fn dot_png_asset(dot: StatusDot) -> (r: &'static str)
    ensures
        r@ == dot_asset(dot),
{
    match dot {
        StatusDot::Green => "dot_green.png",
        StatusDot::Yellow => "dot_yellow.png",
        StatusDot::Red => "dot_red.png",
        StatusDot::Grey => "dot_grey.png",
    }
}

} // verus!

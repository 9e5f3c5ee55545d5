//! The decisions behind the window's title bar: how far its content is
//! inset, and which window controls it draws itself.

use vstd::prelude::*;

verus! {

/// The platform whose conventions the title bar follows.
#[derive(Clone, Copy, Debug, PartialEq, Eq, Structural)]
pub enum PlatformStyle {
    Mac,
    Linux,
    Windows,
}

/// The width, in pixels, that the traffic lights of a macOS window take at
/// the left of the title bar. The lights do not scale with the interface,
/// so the width is in pixels and not in rems; it includes the one pixel of
/// the window's border.
pub const TRAFFIC_LIGHT_PADDING: u32 = 71;

/// The inset of the title bar's content from the left edge.
#[derive(Clone, Copy, Debug, PartialEq, Eq, Structural)]
pub enum LeftPadding {
    /// The small step of the spacing scale.
    Small,
    /// A fixed number of pixels.
    Pixels(u32),
}

/// The window controls that the title bar draws itself.
#[derive(Clone, Copy, Debug, PartialEq, Eq, Structural)]
pub enum WindowControls {
    /// None: the platform draws them, or the window is fullscreen.
    Absent,
    /// Minimise, maximise and close in the manner of Windows.
    Windows,
    /// Close in the manner of a Linux desktop; the bar also opens the
    /// window menu and moves the window.
    Linux,
}

/// The title bar.
#[derive(Clone, Copy, Debug, PartialEq, Eq, Structural)]
pub struct TitleBar {
    pub platform_style: PlatformStyle,
}

impl TitleBar {
    /// The inset for a window that is or is not fullscreen: room for the
    /// traffic lights on a macOS window that shows them, the small step
    /// everywhere else.
    pub open spec fn left_padding_spec(self, fullscreen: bool) -> LeftPadding {
        if !fullscreen && self.platform_style == PlatformStyle::Mac {
            LeftPadding::Pixels(TRAFFIC_LIGHT_PADDING)
        } else {
            LeftPadding::Small
        }
    }

    /// The controls for a window that is or is not fullscreen: a
    /// fullscreen window has none; otherwise Windows and Linux get their
    /// own, and macOS draws its traffic lights itself.
    pub open spec fn window_controls_spec(self, fullscreen: bool) -> WindowControls {
        if fullscreen {
            WindowControls::Absent
        } else {
            match self.platform_style {
                PlatformStyle::Mac => WindowControls::Absent,
                PlatformStyle::Windows => WindowControls::Windows,
                PlatformStyle::Linux => WindowControls::Linux,
            }
        }
    }

    /// A title bar in the style of `platform_style`.
    pub fn new(platform_style: PlatformStyle) -> (bar: Self)
        ensures
            bar.platform_style == platform_style,
    {
        TitleBar { platform_style }
    }

    /// Sets the platform style.
    pub fn platform_style(self, style: PlatformStyle) -> (bar: Self)
        ensures
            bar.platform_style == style,
    {
        TitleBar { platform_style: style }
    }

    /// The inset of the content from the left edge.
    #[verifier::when_used_as_spec(left_padding_spec)]
    pub fn left_padding(self, fullscreen: bool) -> (padding: LeftPadding)
        ensures
            padding == self.left_padding_spec(fullscreen),
    {
        if fullscreen {
            LeftPadding::Small
        } else {
            match self.platform_style {
                PlatformStyle::Mac => LeftPadding::Pixels(TRAFFIC_LIGHT_PADDING),
                _ => LeftPadding::Small,
            }
        }
    }

    /// The window controls that the bar draws itself.
    #[verifier::when_used_as_spec(window_controls_spec)]
    pub fn window_controls(self, fullscreen: bool) -> (controls: WindowControls)
        ensures
            controls == self.window_controls_spec(fullscreen),
    {
        if fullscreen {
            WindowControls::Absent
        } else {
            match self.platform_style {
                PlatformStyle::Mac => WindowControls::Absent,
                PlatformStyle::Windows => WindowControls::Windows,
                PlatformStyle::Linux => WindowControls::Linux,
            }
        }
    }

    /// The padding above the bar on Windows, where a maximised window
    /// reaches beyond the screen by its padded border on every side: twice
    /// that border when the window is maximised, nothing otherwise.
    pub fn top_padding(padded_border: i32, maximized: bool) -> (padding: i64)
        ensures
            padding == (if maximized {
                2 * padded_border
            } else {
                0
            }),
    {
        if maximized {
            2 * (padded_border as i64)
        } else {
            0
        }
    }
}

/// A fullscreen window gets neither room for traffic lights nor controls
/// of the bar's own, on any platform.
pub proof fn fullscreen_is_bare(bar: TitleBar)
    ensures
        bar.left_padding_spec(true) == LeftPadding::Small,
        bar.window_controls_spec(true) == WindowControls::Absent,
{
}

} // verus!

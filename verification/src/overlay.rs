//! The layout of the status surface: how large it is, which screen edges it
//! is anchored to, and which icon it shows in which state.

use vstd::prelude::*;
use crate::config::{Config, Position};
use crate::error::WaysttWrapperError;

verus! {

/// The room around the icon, in pixels, that the surface is wider and
/// higher than the icon.
pub const SURFACE_PADDING: i32 = 20;

/// The icon that shows that the child has been asked to stop.
pub const STOPPING_ICON: &'static str = "content-loading-symbolic";

/// The screen edges that the surface is anchored to.
#[derive(Clone, Copy, Debug, PartialEq, Eq, Structural)]
pub struct Anchors {
    /// The top edge.
    pub top: bool,
    /// The bottom edge.
    pub bottom: bool,
    /// The left edge.
    pub left: bool,
    /// The right edge.
    pub right: bool,
}

/// What the status indicator shows.
#[derive(Clone, Copy, Debug, PartialEq, Eq, Structural)]
pub enum SurfaceStatus {
    /// The child is running.
    Active,
    /// The child has been asked to stop.
    Stopping,
}

/// Everything that placing the surface needs.
#[derive(Debug)]
pub struct OverlayLayout {
    /// The width of the surface in pixels.
    pub width: i32,
    /// The height of the surface in pixels.
    pub height: i32,
    /// The screen edges that the surface is anchored to.
    pub anchors: Anchors,
    /// The distance from each screen edge in pixels.
    pub margin: i32,
    /// The name of the icon.
    pub icon: String,
    /// The size of the icon in pixels.
    pub pixel_size: i32,
}

impl Position {
    /// The edges that a surface at this position is anchored to: the two
    /// that meet in its corner, and none in the middle of the screen.
    pub open spec fn anchored_edges(self) -> Anchors {
        match self {
            Position::TopLeft => Anchors { top: true, bottom: false, left: true, right: false },
            Position::TopRight => Anchors { top: true, bottom: false, left: false, right: true },
            Position::BottomLeft => Anchors { top: false, bottom: true, left: true, right: false },
            Position::BottomRight => Anchors {
                top: false,
                bottom: true,
                left: false,
                right: true,
            },
            Position::Center => Anchors { top: false, bottom: false, left: false, right: false },
        }
    }

    /// The edges that a surface at this position is anchored to.
    pub fn anchors(self) -> (anchors: Anchors)
        ensures
            anchors == self.anchored_edges(),
    {
        let top = match self {
            Position::TopLeft => true,
            Position::TopRight => true,
            _ => false,
        };
        let bottom = match self {
            Position::BottomLeft => true,
            Position::BottomRight => true,
            _ => false,
        };
        let left = match self {
            Position::TopLeft => true,
            Position::BottomLeft => true,
            _ => false,
        };
        let right = match self {
            Position::TopRight => true,
            Position::BottomRight => true,
            _ => false,
        };
        Anchors { top, bottom, left, right }
    }
}

/// The name of the icon that shows `status`: the configured icon while the
/// child runs, the stopping icon once it has been asked to stop.
pub fn status_icon(status: SurfaceStatus, config: &Config) -> (icon: String)
    ensures
        icon@ == match status {
            SurfaceStatus::Active => config.icon@,
            SurfaceStatus::Stopping => STOPPING_ICON@,
        },
{
    match status {
        SurfaceStatus::Active => config.icon.clone(),
        SurfaceStatus::Stopping => STOPPING_ICON.to_owned(),
    }
}

/// The layout of the surface for `config`, if the compositor offers the
/// layer shell that places it.
///
/// The surface is a square with the padding around the icon, anchored as
/// the position says, with the same margin on every edge. Where there is a
/// surface, the icon has to leave room for the padding; without layer shell
/// every configuration is answered with the error.
pub fn overlay_layout(layer_shell_supported: bool, config: &Config) -> (r: Result<
    OverlayLayout,
    WaysttWrapperError,
>)
    requires
        layer_shell_supported ==> config.icon_size <= i32::MAX - SURFACE_PADDING,
    ensures
        r is Ok <==> layer_shell_supported,
        r matches Err(e) ==> e is LayerShellNotSupported,
        r matches Ok(layout) ==> {
            &&& layout.width == config.icon_size + SURFACE_PADDING
            &&& layout.height == config.icon_size + SURFACE_PADDING
            &&& layout.anchors == config.position.anchored_edges()
            &&& layout.margin == config.margin
            &&& layout.icon@ == config.icon@
            &&& layout.pixel_size == config.icon_size
        },
{
    if !layer_shell_supported {
        return Err(WaysttWrapperError::LayerShellNotSupported);
    }
    let extent = config.icon_size + SURFACE_PADDING;
    Ok(
        OverlayLayout {
            width: extent,
            height: extent,
            anchors: config.position.anchors(),
            margin: config.margin,
            icon: status_icon(SurfaceStatus::Active, config),
            pixel_size: config.icon_size,
        },
    )
}

} // verus!

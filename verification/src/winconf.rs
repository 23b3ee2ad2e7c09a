//! Window and toolbar configuration as plain values, and the geometry of
//! the toolbar panel and the web view inside a window: where the panel
//! sits for each corner, and what is left for the view.

use vstd::prelude::*;

verus! {

/// Where a window's content comes from: a local route, or a web page on
/// a development server.
#[derive(Debug, Clone, PartialEq, Eq)]
pub enum WindowSrc {
    Local(String),
    Web(String, String),
}

impl WindowSrc {
    /// A web source from its server address and page.
    pub fn from_url(url: &str, page: &str) -> (r: WindowSrc)
        ensures
            r matches WindowSrc::Web(u, p) && u@ == url@ && p@ == page@,
    {
        WindowSrc::Web(url.to_owned(), page.to_owned())
    }
}

/// A window size in logical pixels.
#[derive(Debug, Clone, Copy, PartialEq, Eq, Structural)]
pub struct WindowSize {
    pub width: i32,
    pub height: i32,
}

impl WindowSize {
    pub fn new(width: i32, height: i32) -> (r: WindowSize)
        ensures
            r == (WindowSize { width, height }),
    {
        WindowSize { width, height }
    }
}

/// The corner the toolbar panel is anchored to.
#[derive(Debug, Clone, Copy, PartialEq, Eq, Structural)]
pub enum ToolbarPosition {
    TopLeft,
    TopRight,
    BottomLeft,
    BottomRight,
}

/// The toolbar panel: its width cap, height, padding, whether it floats
/// over the view, and its corner.
#[derive(Debug, Clone, Copy, PartialEq, Eq, Structural)]
pub struct ToolbarPanel {
    pub max_width: Option<u32>,
    pub height: u32,
    pub padding: u32,
    pub absolute: bool,
    pub toolbar_position: ToolbarPosition,
}

impl Default for ToolbarPanel {
    /// A floating full-width panel of height thirty-two in the top-left
    /// corner.
    fn default() -> (r: ToolbarPanel)
        ensures
            r == (ToolbarPanel {
                max_width: None,
                height: 32u32,
                padding: 0u32,
                absolute: true,
                toolbar_position: ToolbarPosition::TopLeft,
            }),
    {
        ToolbarPanel {
            max_width: None,
            height: 32,
            absolute: true,
            toolbar_position: ToolbarPosition::TopLeft,
            padding: 0,
        }
    }
}

/// A point in logical pixels.
#[derive(Debug, Clone, Copy, PartialEq, Eq, Structural)]
pub struct UiPoint {
    pub x: u32,
    pub y: u32,
}

/// A rectangle in logical pixels.
#[derive(Debug, Clone, Copy, PartialEq, Eq, Structural)]
pub struct UiRect {
    pub position: UiPoint,
    pub width: u32,
    pub height: u32,
}

/// The panel's width and padding inside a window of width `w`: a capped
/// panel is centered at half of the cap or the window, an uncapped one
/// spans the window with no padding.
pub open spec fn spec_panel_dimensions(w: u32, panel: ToolbarPanel) -> (u32, u32) {
    match panel.max_width {
        Some(m) => (
            ((if w <= m * 2 {
                w as int
            } else {
                m * 2
            }) / 2) as u32,
            panel.padding,
        ),
        None => (w, 0u32),
    }
}

/// Computes the panel's width and padding, as `spec_panel_dimensions`
/// describes.
pub fn calculate_panel_dimensions(window_width: u32, toolbar_panel: &ToolbarPanel) -> (r: (
    u32,
    u32,
))
    requires
        toolbar_panel.max_width matches Some(m) ==> m <= u32::MAX / 2,
    ensures
        r == spec_panel_dimensions(window_width, *toolbar_panel),
{
    match toolbar_panel.max_width {
        Some(max_width) => {
            let capped = if window_width <= max_width * 2 {
                window_width
            } else {
                max_width * 2
            };
            (capped / 2, toolbar_panel.padding)
        },
        None => (window_width, 0),
    }
}

/// Where the panel sits and what the view gets, for each corner: the
/// panel is inset by the padding, and the view spans the window width,
/// pushed down by the margin for a top panel.
pub open spec fn spec_positions(
    w: u32,
    h: u32,
    panel_width: u32,
    panel_height: u32,
    padding: u32,
    margin: u32,
    position: ToolbarPosition,
) -> (UiPoint, UiRect)
    recommends
        panel_width + padding <= w,
        panel_height + padding <= h,
        margin <= h,
{
    let top_view = UiRect {
        position: UiPoint { x: 0, y: margin },
        width: w,
        height: (h - margin) as u32,
    };
    let bottom_view = UiRect {
        position: UiPoint { x: 0, y: 0 },
        width: w,
        height: (h - margin) as u32,
    };
    match position {
        ToolbarPosition::TopLeft => (UiPoint { x: padding, y: padding }, top_view),
        ToolbarPosition::TopRight => (
            UiPoint { x: (w - panel_width - padding) as u32, y: padding },
            top_view,
        ),
        ToolbarPosition::BottomLeft => (
            UiPoint { x: padding, y: (h - panel_height - padding) as u32 },
            bottom_view,
        ),
        ToolbarPosition::BottomRight => (
            UiPoint {
                x: (w - panel_width - padding) as u32,
                y: (h - panel_height - padding) as u32,
            },
            bottom_view,
        ),
    }
}

/// Computes the panel position and the view rectangle, as
/// `spec_positions` describes.
pub fn calculate_positions(
    w: u32,
    h: u32,
    panel_width: u32,
    panel_height: u32,
    padding: u32,
    margin: u32,
    position: &ToolbarPosition,
) -> (r: (UiPoint, UiRect))
    requires
        panel_width + padding <= w,
        panel_height + padding <= h,
        margin <= h,
    ensures
        r == spec_positions(w, h, panel_width, panel_height, padding, margin, *position),
{
    let view_h = h - margin;
    match position {
        ToolbarPosition::TopLeft => (
            UiPoint { x: padding, y: padding },
            UiRect { position: UiPoint { x: 0, y: margin }, width: w, height: view_h },
        ),
        ToolbarPosition::TopRight => (
            UiPoint { x: w - panel_width - padding, y: padding },
            UiRect { position: UiPoint { x: 0, y: margin }, width: w, height: view_h },
        ),
        ToolbarPosition::BottomLeft => (
            UiPoint { x: padding, y: h - panel_height - padding },
            UiRect { position: UiPoint { x: 0, y: 0 }, width: w, height: view_h },
        ),
        ToolbarPosition::BottomRight => (
            UiPoint { x: w - panel_width - padding, y: h - panel_height - padding },
            UiRect { position: UiPoint { x: 0, y: 0 }, width: w, height: view_h },
        ),
    }
}

/// What a well-formed panel asks of a window of size `w` by `h`.
pub open spec fn spec_bounds_fit(w: u32, h: u32, panel: ToolbarPanel) -> bool {
    let (pw, pad) = spec_panel_dimensions(w, panel);
    let margin: u32 = if panel.absolute {
        0u32
    } else {
        panel.height
    };
    &&& (panel.max_width matches Some(m) ==> m <= u32::MAX / 2)
    &&& pw + pad <= w
    &&& panel.height + pad <= h
    &&& margin <= h
}

/// The bounds of the panel or of the web view inside a window: the
/// `"panel"` rectangle is the panel at its corner, anything else asks
/// for the view rectangle.
pub fn webview_bounds(which: &str, w: u32, h: u32, toolbar_panel: &ToolbarPanel) -> (r: UiRect)
    requires
        spec_bounds_fit(w, h, *toolbar_panel),
    ensures
        ({
            let (pw, pad) = spec_panel_dimensions(w, *toolbar_panel);
            let margin: u32 = if toolbar_panel.absolute {
                0u32
            } else {
                toolbar_panel.height
            };
            let (panel_pos, view) = spec_positions(
                w,
                h,
                pw,
                toolbar_panel.height,
                pad,
                margin,
                toolbar_panel.toolbar_position,
            );
            if which@ == "panel"@ {
                r == (UiRect { position: panel_pos, width: pw, height: toolbar_panel.height })
            } else {
                r == view
            }
        }),
{
    let (panel_width, padding) = calculate_panel_dimensions(w, toolbar_panel);
    let panel_height = toolbar_panel.height;
    let margin = if toolbar_panel.absolute {
        0
    } else {
        panel_height
    };
    let (toolbar_pos, webview_rect) = calculate_positions(
        w,
        h,
        panel_width,
        panel_height,
        padding,
        margin,
        &toolbar_panel.toolbar_position,
    );
    let is_panel = crate::resolver::bytes_eq(which.as_bytes(), "panel".as_bytes());
    proof {
        vstd::utf8::encode_utf8_decode_utf8(which@);
        vstd::utf8::encode_utf8_decode_utf8("panel"@);
    }
    if is_panel {
        UiRect { position: toolbar_pos, width: panel_width, height: panel_height }
    } else {
        webview_rect
    }
}

} // verus!

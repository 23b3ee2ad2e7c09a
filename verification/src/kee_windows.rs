//! Plain-value window and monitor data: sizes, positions, the descriptor
//! of a top-level window as the focus watcher reports it, and the mapping
//! from a window's vertical position to its workspace index.

use vstd::prelude::*;

verus! {

/// A point on the screen.
#[derive(Debug, Clone, Copy, PartialEq, Eq, Structural)]
pub struct Point {
    pub x: i32,
    pub y: i32,
}

/// A window's size in pixels.
#[derive(Debug, Clone, Copy, PartialEq, Eq, Structural)]
pub struct WinSize {
    pub width: i32,
    pub height: i32,
}

/// A window's top-left position in pixels.
#[derive(Debug, Clone, Copy, PartialEq, Eq, Structural)]
pub struct WinPos {
    pub x: i32,
    pub y: i32,
}

/// What the focus watcher reports of a top-level window: its handle as a
/// plain number, its title, the path of its executable, its window class,
/// and its geometry.
#[derive(Debug, Clone, PartialEq, Eq)]
pub struct WindowInfo {
    pub hwnd: u64,
    pub title: String,
    pub exe_path: String,
    pub class_name: String,
    pub size: WinSize,
    pub position: WinPos,
    pub workspace: i32,
}

/// The view of a window descriptor: plain values with text as character
/// sequences.
pub struct SpecWindowInfo {
    pub hwnd: u64,
    pub title: Seq<char>,
    pub exe_path: Seq<char>,
    pub class_name: Seq<char>,
    pub size: WinSize,
    pub position: WinPos,
    pub workspace: int,
}

impl View for WindowInfo {
    type V = SpecWindowInfo;

    open spec fn view(&self) -> SpecWindowInfo {
        SpecWindowInfo {
            hwnd: self.hwnd,
            title: self.title@,
            exe_path: self.exe_path@,
            class_name: self.class_name@,
            size: self.size,
            position: self.position,
            workspace: self.workspace as int,
        }
    }
}

/// The height of one workspace band in pixels.
pub const MONITOR_H: i32 = 1440;

/// The workspace a window at vertical position `y` with height `h`
/// belongs to: its bottom edge, shifted so partially visible windows stay
/// in workspace zero, divided by the band height.
pub open spec fn spec_workspace_of(y: int, h: int) -> int {
    if h <= 0 {
        0
    } else {
        let shifted = y + h;
        if shifted <= 0 {
            (0 - shifted) / (MONITOR_H as int)
        } else {
            shifted / (MONITOR_H as int)
        }
    }
}

/// Computes the workspace index of a window from its vertical position
/// and height, as `spec_workspace_of` describes.
pub fn get_current_workspace(y: i32, window_h: i32) -> (r: i32)
    ensures
        r == spec_workspace_of(y as int, window_h as int),
{
    if window_h <= 0 {
        return 0;
    }
    let shifted: i64 = y as i64 + window_h as i64;
    if shifted <= 0 {
        ((0 - shifted) / (MONITOR_H as i64)) as i32
    } else {
        (shifted / (MONITOR_H as i64)) as i32
    }
}

} // verus!

//! The window-animation request: which window, how long, where to, and
//! with which easing curve. The payload is assembled with a builder;
//! evaluating the curves themselves is floating-point work that lives
//! outside the library.

use vstd::prelude::*;

verus! {

/// The easing curves an animation can use.
#[derive(Debug, Clone, Copy, PartialEq, Eq, Structural)]
pub enum AnimationEasing {
    EaseInSine,
    EaseOutSine,
    EaseInOutSine,
    EaseInQuad,
    EaseOutQuad,
    EaseInOutQuad,
    EaseInCubic,
    EaseOutCubic,
    EaseInOutCubic,
    EaseInQuart,
    EaseOutQuart,
    EaseInOutQuart,
    EaseInQuint,
    EaseOutQuint,
    EaseInOutQuint,
    EaseInExpo,
    EaseOutExpo,
    EaseInOutExpo,
    EaseInCirc,
    EaseOutCirc,
    EaseInOutCirc,
    EaseOutBack,
    EaseInOutBack,
    EaseOutElastic,
    EaseOutBounce,
    EaseInBounce,
}

/// One animation request: the window label, the duration in
/// milliseconds, the target size and position where given, and the
/// easing curve.
#[derive(Debug, PartialEq, Eq)]
pub struct AnimationPayload {
    pub label: String,
    pub duration: u64,
    pub to_size: Option<(i32, i32)>,
    pub to_pos: Option<(i32, i32)>,
    pub easing: AnimationEasing,
}

impl AnimationPayload {
    /// A fresh request for one window: a quarter second, no movement, no
    /// resize, an exponential ease-out.
    pub fn builder(window_label: &str) -> (r: AnimationPayload)
        ensures
            r.label@ == window_label@,
            r.duration == 250,
            r.to_size is None,
            r.to_pos is None,
            r.easing == AnimationEasing::EaseOutExpo,
    {
        AnimationPayload {
            label: window_label.to_owned(),
            duration: 250,
            to_size: None,
            to_pos: None,
            easing: AnimationEasing::EaseOutExpo,
        }
    }

    /// Sets the target size and keeps everything else.
    pub fn to_size(self, size: (i32, i32)) -> (r: AnimationPayload)
        ensures
            r == (AnimationPayload { to_size: Some(size), ..self }),
    {
        AnimationPayload { to_size: Some((size.0, size.1)), ..self }
    }

    /// Sets the target position and keeps everything else.
    pub fn to_position(self, position: (i32, i32)) -> (r: AnimationPayload)
        ensures
            r == (AnimationPayload { to_pos: Some(position), ..self }),
    {
        AnimationPayload { to_pos: Some((position.0, position.1)), ..self }
    }

    /// Sets the duration and keeps everything else.
    pub fn duration(self, duration: u64) -> (r: AnimationPayload)
        ensures
            r == (AnimationPayload { duration: duration, ..self }),
    {
        AnimationPayload { duration, ..self }
    }

    /// Sets the easing curve and keeps everything else.
    pub fn easing(self, easing: AnimationEasing) -> (r: AnimationPayload)
        ensures
            r == (AnimationPayload { easing: easing, ..self }),
    {
        AnimationPayload { easing, ..self }
    }
}

/// The one-at-a-time flag for window animation: a new animation is
/// refused while one is already running.
#[derive(Debug, PartialEq, Eq, Structural)]
pub struct AnimationState {
    pub running: bool,
}

impl AnimationState {
    pub fn new() -> (g: AnimationState)
        ensures
            g.running == false,
    {
        AnimationState { running: false }
    }

    /// Tests and sets the flag: reports whether an animation was already
    /// running, and holds the flag either way.
    pub fn is_running(&mut self) -> (r: bool)
        ensures
            r == old(self).running,
            final(self).running == true,
    {
        let was = self.running;
        self.running = true;
        was
    }

    /// Releases the flag when an animation finishes.
    pub fn animate_done(&mut self)
        ensures
            final(self).running == false,
    {
        self.running = false;
    }
}

} // verus!

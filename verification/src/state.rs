//! The graphics context: the negotiated surface configuration together with
//! the last-known physical size of the window it presents into.
//!
//! The context is created once at startup, after the application layer has
//! finished the asynchronous adapter/device handshake and queried the
//! surface's capabilities. On every resize notification the stored
//! configuration's dimensions are updated in the same step as the recorded
//! size, so the invariant "configuration matches the window's current
//! physical size" holds before every render call.

use crate::surface::{chosen_format, SurfaceCaps, SurfaceConfig};
use vstd::prelude::*;

verus! {

/// The state of the graphics context that the rendering protocol reads:
/// the applied surface configuration and the last-known window size.
///
/// The GPU device, queue and surface handles themselves live with the
/// application layer; every decision the renderer takes about them is a
/// function of this state.
pub struct UIGraphicsState {
    pub config: SurfaceConfig,
    pub width: u32,
    pub height: u32,
}

/// The context state after one resize notification: the recorded size and
/// the configuration's dimensions both become the reported size, and the
/// negotiated format and modes are kept.
pub open spec fn resized(s: UIGraphicsState, width: u32, height: u32) -> UIGraphicsState {
    UIGraphicsState {
        config: SurfaceConfig {
            format: s.config.format,
            present_mode: s.config.present_mode,
            alpha_mode: s.config.alpha_mode,
            width,
            height,
        },
        width,
        height,
    }
}

/// The context state after a whole sequence of resize notifications,
/// applied in order.
pub open spec fn after_resizes(s: UIGraphicsState, sizes: Seq<(u32, u32)>) -> UIGraphicsState
    decreases sizes.len(),
{
    if sizes.len() == 0 {
        s
    } else {
        after_resizes(resized(s, sizes[0].0, sizes[0].1), sizes.drop_first())
    }
}

impl UIGraphicsState {
    /// The configuration's dimensions equal the last-known window size.
    /// Established at construction and preserved by `resize`, so it holds
    /// before every render call.
    pub open spec fn wf(&self) -> bool {
        &&& self.config.width == self.width
        &&& self.config.height == self.height
    }

    /// Build the context state from the surface's reported capabilities and
    /// the window's current physical size: select the format (first sRGB,
    /// else first supported), take the first supported present and alpha
    /// modes, and size the configuration to the window.
    pub fn new(caps: &SurfaceCaps, width: u32, height: u32) -> (s: Self)
        requires
            caps.wf(),
        ensures
            s.config.format == chosen_format(caps.formats@),
            s.config.present_mode == caps.present_modes@[0],
            s.config.alpha_mode == caps.alpha_modes@[0],
            s.config.width == width,
            s.config.height == height,
            s.width == width,
            s.height == height,
            s.wf(),
    {
        let config = crate::surface::build_config(caps, width, height);
        Self { config, width, height }
    }

    /// Record a resize notification: update the stored size and the
    /// configuration's dimensions together. The application layer reapplies
    /// the returned configuration to the surface.
    pub fn resize(&mut self, width: u32, height: u32) -> (c: SurfaceConfig)
        ensures
            *final(self) == resized(*old(self), width, height),
            final(self).wf(),
            c == final(self).config,
    {
        self.width = width;
        self.height = height;
        self.config.width = width;
        self.config.height = height;
        self.config
    }

    /// Whether the configuration's dimensions match the last-known window
    /// size — the condition every render call starts from. Unverified
    /// callers can test it before rendering.
    pub fn is_wf(&self) -> (r: bool)
        ensures
            r == self.wf(),
    {
        self.config.width == self.width && self.config.height == self.height
    }

    /// The currently applied surface configuration.
    pub fn config(&self) -> (c: SurfaceConfig)
        ensures
            c == self.config,
    {
        self.config
    }
}

/// Resize correctness: after any non-empty sequence of resize
/// notifications, the surface configuration's width and height equal the
/// most recently reported physical size, whatever state the context was in
/// before, and the negotiated format and modes are those of that state.
pub proof fn lemma_resize_correctness(s: UIGraphicsState, sizes: Seq<(u32, u32)>)
    requires
        sizes.len() > 0,
    ensures
        after_resizes(s, sizes).config.width == sizes.last().0,
        after_resizes(s, sizes).config.height == sizes.last().1,
        after_resizes(s, sizes).width == sizes.last().0,
        after_resizes(s, sizes).height == sizes.last().1,
        after_resizes(s, sizes).wf(),
        after_resizes(s, sizes).config.format == s.config.format,
        after_resizes(s, sizes).config.present_mode == s.config.present_mode,
        after_resizes(s, sizes).config.alpha_mode == s.config.alpha_mode,
    decreases sizes.len(),
{
    if sizes.len() == 1 {
        assert(sizes.drop_first().len() == 0);
        assert(after_resizes(resized(s, sizes[0].0, sizes[0].1), sizes.drop_first()) == resized(
            s,
            sizes[0].0,
            sizes[0].1,
        ));
        assert(sizes.last() == sizes[0]);
    } else {
        lemma_resize_correctness(resized(s, sizes[0].0, sizes[0].1), sizes.drop_first());
        assert(sizes.drop_first().last() == sizes.last());
    }
}

} // verus!

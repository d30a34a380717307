//! The text overlay: an ordered list of text sections queued for the
//! current frame, drawn through a glyph brush owned by the application
//! layer.
//!
//! The overlay records what is to be drawn — section content and font
//! scale, in call order. The glyph brush itself (atlas texture, pipeline)
//! is GPU-side state the application builds from an embedded font, sized
//! to the surface the overlay was constructed for; the overlay carries
//! those dimensions and the surface format so a stale overlay can be
//! recognized when the surface changes.

use crate::render::{DrawCommand, Drawable, RenderPass};
use crate::state::UIGraphicsState;
use crate::surface::SurfaceFormat;
use vstd::prelude::*;

verus! {

/// The font scale every written section uses, in thousandths of a point
/// (14.0 points).
pub const DEFAULT_TEXT_SCALE: u32 = 14000;

/// One queued run of text: its content and its font scale in thousandths
/// of a point. Sections are laid out from the default origin.
#[derive(Clone, PartialEq, Eq, Debug)]
pub struct TextSection {
    pub text: String,
    pub scale: u32,
}

/// A text overlay: the sections queued for the current frame, and the
/// surface dimensions and format its glyph brush was built for.
pub struct CustomText {
    pub sections: Vec<TextSection>,
    pub width: u32,
    pub height: u32,
    pub format: SurfaceFormat,
}

impl CustomText {
    /// The overlay's brush was built for the context's current surface
    /// dimensions and format; an overlay for which this no longer holds
    /// must be rebuilt before it is drawn.
    pub open spec fn fits(&self, state: &UIGraphicsState) -> bool {
        &&& self.width == state.config.width
        &&& self.height == state.config.height
        &&& self.format == state.config.format
    }

    /// Build an empty overlay for the context's current surface: no
    /// sections queued, brush dimensions and format taken from the
    /// applied configuration.
    pub fn new(state: &UIGraphicsState) -> (t: Self)
        ensures
            t.sections@ == Seq::<TextSection>::empty(),
            t.fits(state),
    {
        CustomText {
            sections: Vec::new(),
            width: state.config().width,
            height: state.config().height,
            format: state.config().format,
        }
    }

    /// Queue one more section holding this text at the default scale,
    /// after everything already queued. Nothing is merged, dropped or
    /// deduplicated.
    pub fn write(&mut self, text: &str)
        ensures
            final(self).sections@.len() == old(self).sections@.len() + 1,
            final(self).sections@.drop_last() == old(self).sections@,
            final(self).sections@.last().text@ == text@,
            final(self).sections@.last().scale == DEFAULT_TEXT_SCALE,
            final(self).width == old(self).width,
            final(self).height == old(self).height,
            final(self).format == old(self).format,
    {
        let s = TextSection { text: text.to_owned(), scale: DEFAULT_TEXT_SCALE };
        self.sections.push(s);
        proof {
            assert(final(self).sections@.drop_last() =~= old(self).sections@);
        }
    }
}

/// Drawing the overlay records one text command per queued section, in
/// call order; the queued sections themselves are kept (a fresh overlay is
/// built per frame, so no clearing happens here).
impl Drawable for CustomText {
    open spec fn commands_spec(&self) -> Seq<DrawCommand> {
        self.sections@.map_values(|s: TextSection| DrawCommand::Text(s))
    }

    fn draw(&mut self, pass: &mut RenderPass)
        ensures
            *final(self) == *old(self),
    {
        let n: usize = self.sections.len();
        let mut i: usize = 0;
        while i < n
            invariant
                n == self.sections@.len(),
                *self == *old(self),
                0 <= i <= n,
                pass.clear == old(pass).clear,
                pass.commands@ == old(pass).commands@ + self.sections@.take(i as int).map_values(
                    |s: TextSection| DrawCommand::Text(s),
                ),
            decreases n - i,
        {
            let cmd = DrawCommand::Text(
                TextSection {
                    text: self.sections[i].text.clone(),
                    scale: self.sections[i].scale,
                },
            );
            proof {
                assert(cmd == DrawCommand::Text(self.sections@[i as int]));
                assert(self.sections@.take(i as int + 1).map_values(
                    |s: TextSection| DrawCommand::Text(s),
                ) =~= self.sections@.take(i as int).map_values(
                    |s: TextSection| DrawCommand::Text(s),
                ).push(DrawCommand::Text(self.sections@[i as int])));
            }
            pass.push(cmd);
            i = i + 1;
        }
        proof {
            assert(self.sections@.take(n as int) =~= self.sections@);
        }
    }
}

} // verus!

//! Surface negotiation: what the presentation surface supports, and how a
//! configuration is chosen from it.
//!
//! The graphics driver reports, for a window-bound surface, the pixel
//! formats, present modes and alpha modes it can present with, each list in
//! the driver's preference order and never empty for a compatible surface.
//! The library reads from a format only whether it is a standard
//! gamma-corrected (sRGB) color format; everything else about a format or a
//! mode is carried as an opaque numeric code that the application layer maps
//! onto the graphics API's own enumerations.

use vstd::prelude::*;

verus! {

/// A pixel format supported by a presentation surface.
///
/// `code` identifies the format to the application layer; `srgb` says
/// whether it is a standard gamma-corrected color format.
#[derive(Clone, Copy, PartialEq, Eq, Structural, Debug)]
pub struct SurfaceFormat {
    pub code: u32,
    pub srgb: bool,
}

/// The capabilities a surface reports for a given adapter: supported
/// formats, present modes and alpha modes, each in preference order.
pub struct SurfaceCaps {
    pub formats: Vec<SurfaceFormat>,
    pub present_modes: Vec<u32>,
    pub alpha_modes: Vec<u32>,
}

impl SurfaceCaps {
    /// Capabilities of a surface compatible with the chosen adapter are
    /// never empty: there is at least one supported format, present mode
    /// and alpha mode.
    pub open spec fn wf(&self) -> bool {
        &&& self.formats@.len() > 0
        &&& self.present_modes@.len() > 0
        &&& self.alpha_modes@.len() > 0
    }
}

/// The negotiated configuration applied to the surface: chosen format and
/// modes, and the pixel dimensions of the presentable textures.
///
/// The texture usage (render attachment) and the extra view-format list
/// (empty) are fixed by the renderer and carried implicitly.
#[derive(Clone, Copy, PartialEq, Eq, Structural, Debug)]
pub struct SurfaceConfig {
    pub format: SurfaceFormat,
    pub present_mode: u32,
    pub alpha_mode: u32,
    pub width: u32,
    pub height: u32,
}

/// Whether some format in the list is sRGB.
pub open spec fn has_srgb(s: Seq<SurfaceFormat>) -> bool {
    exists|i: int| 0 <= i < s.len() && s[i].srgb
}

/// The format the negotiation selects from a non-empty list of supported
/// formats: the first sRGB format if one exists, else the first format.
pub open spec fn chosen_format(s: Seq<SurfaceFormat>) -> SurfaceFormat
    recommends
        s.len() > 0,
    decreases s.len(),
{
    if s.len() == 0 {
        arbitrary()
    } else if s[0].srgb {
        s[0]
    } else if has_srgb(s.drop_first()) {
        chosen_format(s.drop_first())
    } else {
        s[0]
    }
}

proof fn lemma_chosen_is_first_srgb(s: Seq<SurfaceFormat>, i: int)
    requires
        0 <= i < s.len(),
        s[i].srgb,
        forall|j: int| 0 <= j < i ==> !s[j].srgb,
    ensures
        chosen_format(s) == s[i],
    decreases i,
{
    if i > 0 {
        assert(s.drop_first()[i - 1] == s[i]);
        assert(has_srgb(s.drop_first()));
        lemma_chosen_is_first_srgb(s.drop_first(), i - 1);
    }
}

proof fn lemma_chosen_no_srgb(s: Seq<SurfaceFormat>)
    requires
        s.len() > 0,
        forall|j: int| 0 <= j < s.len() ==> !s[j].srgb,
    ensures
        chosen_format(s) == s[0],
{
    assert(!has_srgb(s.drop_first())) by {
        assert forall|i: int| 0 <= i < s.drop_first().len() implies !s.drop_first()[i].srgb by {
            assert(s.drop_first()[i] == s[i + 1]);
        }
    }
}

/// Select the surface format: the first format flagged as sRGB if any is,
/// else the first supported format.
pub fn select_format(formats: &Vec<SurfaceFormat>) -> (r: SurfaceFormat)
    requires
        formats@.len() > 0,
    ensures
        r == chosen_format(formats@),
{
    let n: usize = formats.len();
    let mut i: usize = 0;
    while i < n
        invariant
            n == formats@.len(),
            0 <= i <= n,
            forall|j: int| 0 <= j < i ==> !formats@[j].srgb,
        decreases n - i,
    {
        if formats[i].srgb {
            proof {
                lemma_chosen_is_first_srgb(formats@, i as int);
            }
            return formats[i];
        }
        i = i + 1;
    }
    proof {
        lemma_chosen_no_srgb(formats@);
    }
    formats[0]
}

/// Build the surface configuration the negotiation applies: the selected
/// format, the first supported present mode and alpha mode, and the given
/// pixel dimensions.
pub fn build_config(caps: &SurfaceCaps, width: u32, height: u32) -> (c: SurfaceConfig)
    requires
        caps.wf(),
    ensures
        c.format == chosen_format(caps.formats@),
        c.present_mode == caps.present_modes@[0],
        c.alpha_mode == caps.alpha_modes@[0],
        c.width == width,
        c.height == height,
{
    SurfaceConfig {
        format: select_format(&caps.formats),
        present_mode: caps.present_modes[0],
        alpha_mode: caps.alpha_modes[0],
        width,
        height,
    }
}

} // verus!

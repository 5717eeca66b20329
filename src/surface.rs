//! Surface configuration: what is chosen from the adapter's capabilities,
//! and how a resize changes it.
//!
//! Formats, present modes and alpha modes are named by their position in the
//! lists the adapter advertises for the surface.

use vstd::prelude::*;

verus! {

/// Why the renderer could not start.
#[derive(Clone, Copy, Debug, PartialEq, Eq, Structural)]
pub enum RenderError {
    /// The window gave no surface to draw on.
    Surface,
    /// The adapter refused to create a device.
    Device,
    /// No adapter can present to the surface.
    NoAdapter,
}

/// How the surface is configured. The width and height are never zero.
#[derive(Clone, Copy, Debug, PartialEq, Eq, Structural)]
pub struct SurfaceConfig {
    /// Position of the chosen format in the advertised formats.
    pub format: usize,
    /// Position of the chosen present mode in the advertised present modes.
    pub present_mode: usize,
    /// Position of the chosen alpha mode in the advertised alpha modes.
    pub alpha_mode: usize,
    pub width: u32,
    pub height: u32,
}

/// The first format flagged sRGB, or else the first format.
pub open spec fn chosen_format(srgb: Seq<bool>) -> int {
    if exists|i: int| 0 <= i < srgb.len() && srgb[i] {
        choose|i: int| 0 <= i < srgb.len() && srgb[i] && forall|j: int| 0 <= j < i ==> !srgb[j]
    } else {
        0
    }
}

/// `n` itself, or 1 where `n` is 0.
pub open spec fn at_least_one(n: u32) -> u32 {
    if n == 0 {
        1
    } else {
        n
    }
}

/// The position of the first `true` in `srgb`, if any.
fn first_srgb(srgb: &Vec<bool>) -> (r: Option<usize>)
    ensures
        match r {
            Some(i) => i < srgb@.len() && srgb@[i as int] && forall|j: int|
                0 <= j < i ==> !srgb@[j],
            None => forall|j: int| 0 <= j < srgb@.len() ==> !srgb@[j],
        },
{
    let mut i: usize = 0;
    while i < srgb.len()
        invariant
            0 <= i <= srgb@.len(),
            forall|j: int| 0 <= j < i ==> !srgb@[j],
        decreases srgb@.len() - i,
    {
        if srgb[i] {
            return Some(i);
        }
        i = i + 1;
    }
    None
}

impl SurfaceConfig {
    /// The well-formedness of a configuration: neither side is zero.
    pub open spec fn wf(&self) -> bool {
        self.width > 0 && self.height > 0
    }

    /// The configuration after `resize(width, height)`: unchanged if either
    /// side is zero, else with the new sides.
    pub open spec fn resized(self, width: u32, height: u32) -> SurfaceConfig {
        if width == 0 || height == 0 {
            self
        } else {
            SurfaceConfig { width, height, ..self }
        }
    }

    /// Chooses a configuration from what the adapter advertises for the
    /// surface: `srgb` flags each advertised format, `present_modes` and
    /// `alpha_modes` count the other two lists. The first sRGB format wins,
    /// else the first format; the first present mode and the first alpha
    /// mode win. A window side of zero is configured as one.
    ///
    /// An adapter that advertises an empty list cannot present to the
    /// surface: that is `NoAdapter`.
    pub fn negotiate(
        srgb: &Vec<bool>,
        present_modes: usize,
        alpha_modes: usize,
        width: u32,
        height: u32,
    ) -> (r: Result<SurfaceConfig, RenderError>)
        ensures
            srgb@.len() == 0 || present_modes == 0 || alpha_modes == 0 ==> r == Err::<
                SurfaceConfig,
                RenderError,
            >(RenderError::NoAdapter),
            srgb@.len() > 0 && present_modes > 0 && alpha_modes > 0 ==> r == Ok::<
                SurfaceConfig,
                RenderError,
            >(
                SurfaceConfig {
                    format: chosen_format(srgb@) as usize,
                    present_mode: 0,
                    alpha_mode: 0,
                    width: at_least_one(width),
                    height: at_least_one(height),
                },
            ),
            r matches Ok(c) ==> c.wf() && c.format < srgb@.len(),
    {
        if srgb.len() == 0 || present_modes == 0 || alpha_modes == 0 {
            return Err(RenderError::NoAdapter);
        }
        let format = match first_srgb(srgb) {
            Some(i) => {
                proof {
                    let s = srgb@;
                    assert(exists|k: int| 0 <= k < s.len() && s[k]);
                    let c = chosen_format(s);
                    assert(0 <= c < s.len() && s[c] && forall|j: int| 0 <= j < c ==> !s[j]);
                    if c < i as int {
                    } else if c > i as int {
                        assert(!s[i as int]);
                    }
                }
                i
            },
            None => 0,
        };
        let w: u32 = if width == 0 { 1 } else { width };
        let h: u32 = if height == 0 { 1 } else { height };
        Ok(SurfaceConfig { format, present_mode: 0, alpha_mode: 0, width: w, height: h })
    }

    /// Takes new window sides. A side of zero is ignored and the configuration
    /// stays as it was; otherwise the sides are stored. The result says
    /// whether the surface must be configured again, which it must on every
    /// accepted resize, even one to the same sides.
    pub fn resize(&mut self, width: u32, height: u32) -> (r: bool)
        ensures
            *final(self) == old(self).resized(width, height),
            r == (width > 0 && height > 0),
            old(self).wf() ==> final(self).wf(),
    {
        if width > 0 && height > 0 {
            self.width = width;
            self.height = height;
            true
        } else {
            false
        }
    }
}

/// A resize with a side of zero leaves the configuration as it was.
pub proof fn lemma_resize_zero_keeps_config(c: SurfaceConfig, width: u32, height: u32)
    requires
        width == 0 || height == 0,
    ensures
        c.resized(width, height) == c,
{
}

/// Resizing twice to the same sides ends where resizing once does.
pub proof fn lemma_resize_idempotent(c: SurfaceConfig, width: u32, height: u32)
    ensures
        c.resized(width, height).resized(width, height) == c.resized(width, height),
{
}

} // verus!

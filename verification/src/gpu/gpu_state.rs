//! What is decided when a surface is set up and resized: which of the
//! formats it offers to use, and which sizes it may be configured with.

use vstd::prelude::*;

verus! {

/// Picks the surface format among those the surface offers, given for each
/// whether it is an sRGB format: the first sRGB one, or the very first if
/// none is sRGB. There is nothing to pick from an empty list.
pub fn choose_surface_format(srgb: &[bool]) -> (choice: Option<usize>)
    ensures
        match choice {
            Some(index) => {
                &&& index < srgb@.len()
                &&& forall|k: int| 0 <= k < index ==> !srgb@[k]
                &&& srgb@[index as int] || (index == 0 && forall|k: int|
                    0 <= k < srgb@.len() ==> !srgb@[k])
            },
            None => srgb@.len() == 0,
        },
{
    if srgb.len() == 0 {
        return None;
    }
    let mut index: usize = 0;
    while index < srgb.len()
        invariant
            index <= srgb@.len(),
            forall|k: int| 0 <= k < index ==> !srgb@[k],
        decreases srgb@.len() - index,
    {
        if srgb[index] {
            return Some(index);
        }
        index += 1;
    }
    Some(0)
}

/// The size a surface is configured with, in pixels. The targets a frame is
/// drawn into are made at this size, so they always match the surface.
#[derive(Clone, Copy, Debug, PartialEq, Eq, Structural)]
pub struct SurfaceSize {
    /// Width in pixels.
    pub width: u32,
    /// Height in pixels.
    pub height: u32,
}

impl SurfaceSize {
    /// Whether a surface can be configured with `width` by `height`: not
    /// when either is zero, as for a minimised window.
    pub open spec fn configurable(width: u32, height: u32) -> bool {
        width > 0 && height > 0
    }

    /// The size of the window the surface was made for.
    pub fn new(width: u32, height: u32) -> (size: SurfaceSize)
        ensures
            size == (SurfaceSize { width, height }),
    {
        SurfaceSize { width, height }
    }

    /// The size after the window changed to `width` by `height`: that
    /// size if the surface can be configured with it, else the size as it
    /// was.
    pub open spec fn resized(self, width: u32, height: u32) -> SurfaceSize {
        if Self::configurable(width, height) {
            SurfaceSize { width, height }
        } else {
            self
        }
    }

    /// Takes the new size of the window. A size the surface can be
    /// configured with replaces the current one, and the surface and its
    /// targets have to be made anew at it before the next frame; any other
    /// is ignored.
    pub fn resize(&mut self, width: u32, height: u32) -> (applied: bool)
        ensures
            applied == Self::configurable(width, height),
            *final(self) == old(self).resized(width, height),
    {
        if width > 0 && height > 0 {
            self.width = width;
            self.height = height;
            true
        } else {
            false
        }
    }
}

/// A surface that has a size it can be configured with keeps one through
/// every resize.
pub proof fn lemma_resize_keeps_configurable(size: SurfaceSize, width: u32, height: u32)
    requires
        SurfaceSize::configurable(size.width, size.height),
    ensures
        SurfaceSize::configurable(
            size.resized(width, height).width,
            size.resized(width, height).height,
        ),
{
}

} // verus!

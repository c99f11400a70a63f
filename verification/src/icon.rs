//! The icon of the window.

use vstd::prelude::*;

verus! {

/// The width and the height that an icon is declared with.
pub const ICON_SIDE: u32 = 100;

/// An image by its pixels.
#[derive(Debug)]
pub struct PixelImage {
    pub width: u32,
    pub height: u32,
    pub pixels: Vec<u32>,
}

/// Each byte as a number of its own.
pub open spec fn widened(bytes: Seq<u8>) -> Seq<u32> {
    Seq::new(bytes.len(), |i: int| bytes[i] as u32)
}

/// The icons of the window, from the bytes of a decoded image: one icon,
/// declared 100 by 100, that holds each byte as a pixel of its own.
pub fn gen_icon(bytes: &Vec<u8>) -> (r: Vec<PixelImage>)
    ensures
        r@.len() == 1,
        r@[0].width == ICON_SIDE,
        r@[0].height == ICON_SIDE,
        r@[0].pixels@ == widened(bytes@),
{
    let mut pixels: Vec<u32> = Vec::new();
    let mut i: usize = 0;
    while i < bytes.len()
        invariant
            i <= bytes@.len(),
            pixels@ == widened(bytes@.subrange(0, i as int)),
        decreases bytes@.len() - i,
    {
        pixels.push(bytes[i] as u32);
        assert(pixels@ =~= widened(bytes@.subrange(0, i + 1)));
        i = i + 1;
    }
    assert(bytes@.subrange(0, bytes@.len() as int) =~= bytes@);
    let mut icons: Vec<PixelImage> = Vec::new();
    icons.push(PixelImage { width: ICON_SIDE, height: ICON_SIDE, pixels });
    icons
}

} // verus!

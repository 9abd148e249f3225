//! Bitmap icons and their conversion into the descriptor that the toolkit
//! takes.

use vstd::prelude::*;
use crate::codes::{NBGL_BPP_1, NBGL_BPP_2, NBGL_BPP_4};

verus! {

/// A bitmap icon: its dimensions, its bit depth, how it is stored, and the
/// bitmap itself, which the glyph borrows.
#[derive(Clone, Copy, Debug, PartialEq, Eq)]
pub struct NbglGlyph<'a> {
    pub width: u16,
    pub height: u16,
    /// Bits per pixel: 1, 2 or 4.
    pub bpp: u8,
    /// Whether the bitmap is a compressed image file rather than raw pixels.
    pub is_file: bool,
    pub bitmap: &'a [u8],
}

/// An icon in the shape the toolkit takes: as the glyph, but with the bit
/// depth as one of the toolkit's symbols. It borrows the glyph's bitmap and
/// cannot outlive it.
#[derive(Clone, Copy, Debug, PartialEq, Eq)]
pub struct IconDetails<'a> {
    pub width: u16,
    pub height: u16,
    /// One of `NBGL_BPP_1`, `NBGL_BPP_2`, `NBGL_BPP_4`.
    pub bpp: u8,
    pub is_file: bool,
    pub bitmap: &'a [u8],
}

/// The toolkit's symbol for a bit depth; only 1, 2 and 4 bits per pixel have
/// one.
pub open spec fn bpp_symbol(bpp: u8) -> Option<u8> {
    if bpp == 1 {
        Some(NBGL_BPP_1)
    } else if bpp == 2 {
        Some(NBGL_BPP_2)
    } else if bpp == 4 {
        Some(NBGL_BPP_4)
    } else {
        None
    }
}

/// Looks up the toolkit's symbol for a bit depth.
pub fn nbgl_bpp(bpp: u8) -> (symbol: Option<u8>)
    ensures
        symbol == bpp_symbol(bpp),
{
    match bpp {
        1 => Some(NBGL_BPP_1),
        2 => Some(NBGL_BPP_2),
        4 => Some(NBGL_BPP_4),
        _ => None,
    }
}

impl<'a> NbglGlyph<'a> {
    /// A glyph over `bitmap`.
    pub fn new(bitmap: &'a [u8], width: u16, height: u16, bpp: u8, is_file: bool) -> (glyph: NbglGlyph<
        'a,
    >)
        ensures
            glyph == (NbglGlyph { width, height, bpp, is_file, bitmap }),
    {
        NbglGlyph { width, height, bpp, is_file, bitmap }
    }

    /// A glyph from a packed image: the bitmap, the width, the height, the
    /// bit depth and the storage mode, in that order.
    pub fn from_include(packed: (&'a [u8], u16, u16, u8, bool)) -> (glyph: NbglGlyph<'a>)
        ensures
            glyph == (NbglGlyph {
                width: packed.1,
                height: packed.2,
                bpp: packed.3,
                is_file: packed.4,
                bitmap: packed.0,
            }),
    {
        NbglGlyph {
            width: packed.1,
            height: packed.2,
            bpp: packed.3,
            is_file: packed.4,
            bitmap: packed.0,
        }
    }

    /// Whether the bit depth is one that the toolkit can draw.
    pub open spec fn valid(&self) -> bool {
        self.bpp == 1 || self.bpp == 2 || self.bpp == 4
    }

    /// The toolkit's descriptor of this glyph, for a valid glyph.
    pub open spec fn icon(&self) -> IconDetails<'a> {
        IconDetails {
            width: self.width,
            height: self.height,
            bpp: bpp_symbol(self.bpp).unwrap(),
            is_file: self.is_file,
            bitmap: self.bitmap,
        }
    }

    /// Whether the bit depth is one that the toolkit can draw.
    pub fn is_valid(&self) -> (ok: bool)
        ensures
            ok == self.valid(),
    {
        self.bpp == 1 || self.bpp == 2 || self.bpp == 4
    }

    /// Converts the glyph into the toolkit's descriptor. A glyph with any
    /// other bit depth than 1, 2 or 4 is a programming error.
    pub fn to_icon_details(&self) -> (icon: IconDetails<'a>)
        requires
            self.valid(),
        ensures
            icon == self.icon(),
    {
        let bpp = nbgl_bpp(self.bpp).expect("Invalid bpp");
        IconDetails {
            width: self.width,
            height: self.height,
            bpp,
            is_file: self.is_file,
            bitmap: self.bitmap,
        }
    }

    /// Converts the glyph into the toolkit's descriptor if its bit depth is
    /// 1, 2 or 4, and refuses it otherwise.
    pub fn try_to_icon_details(&self) -> (icon: Option<IconDetails<'a>>)
        ensures
            icon is Some <==> self.valid(),
            icon matches Some(details) ==> details == self.icon(),
    {
        if self.is_valid() {
            Some(self.to_icon_details())
        } else {
            None
        }
    }
}

/// A bit depth has a symbol exactly when it is 1, 2 or 4, and the symbol is
/// the depth's binary logarithm, so no two depths share one.
pub proof fn lemma_bpp_symbol(bpp: u8)
    ensures
        bpp_symbol(bpp) is Some <==> (bpp == 1 || bpp == 2 || bpp == 4),
        bpp_symbol(bpp) == Some(0u8) <==> bpp == 1,
        bpp_symbol(bpp) == Some(1u8) <==> bpp == 2,
        bpp_symbol(bpp) == Some(2u8) <==> bpp == 4,
{
}

} // verus!

use vstd::prelude::*;

use crate::error::TrayError;

verus! {

/// Whether a buffer of `len` bytes holds exactly `width * height` RGBA8 pixels.
pub open spec fn rgba_len_matches(len: int, width: u32, height: u32) -> bool {
    len == width as int * height as int * 4
}

/// What an icon holds: its RGBA8 pixel bytes, row by row, and its size.
pub ghost struct IconView {
    pub rgba: Seq<u8>,
    pub width: u32,
    pub height: u32,
}

/// A decoded RGBA8 image, immutable after construction.
pub struct Icon {
    rgba: Vec<u8>,
    width: u32,
    height: u32,
}

impl View for Icon {
    type V = IconView;

    closed spec fn view(&self) -> IconView {
        IconView { rgba: self.rgba@, width: self.width, height: self.height }
    }
}

impl Icon {
    #[verifier::type_invariant]
    spec fn inv(&self) -> bool {
        rgba_len_matches(self.rgba@.len() as int, self.width, self.height)
    }

    /// Builds an icon from raw RGBA8 bytes, after checking that the buffer
    /// length is exactly `width * height * 4`.
    pub fn from_rgba(rgba: Vec<u8>, width: u32, height: u32) -> (r: Result<Icon, TrayError>)
        ensures
            r is Ok <==> rgba_len_matches(rgba@.len() as int, width, height),
            r matches Ok(icon) ==> icon@ == (IconView { rgba: rgba@, width, height }),
            r matches Err(e) ==> e == TrayError::InvalidDimensions,
    {
        let w = width as u128;
        let h = height as u128;
        assert(w * h <= 0xffff_ffff_ffff_ffffu128 * 0xffff_ffffu128) by (nonlinear_arith)
            requires
                w <= 0xffff_ffffu128,
                h <= 0xffff_ffffu128,
        ;
        let expected: u128 = w * h * 4;
        if rgba.len() as u128 == expected {
            Ok(Icon { rgba, width, height })
        } else {
            Err(TrayError::InvalidDimensions)
        }
    }

    pub fn width(&self) -> (r: u32)
        ensures
            r == self@.width,
    {
        self.width
    }

    pub fn height(&self) -> (r: u32)
        ensures
            r == self@.height,
    {
        self.height
    }

    /// The pixel bytes, RGBA8, row by row; there are `width * height` pixels.
    pub fn rgba(&self) -> (r: &Vec<u8>)
        ensures
            r@ == self@.rgba,
            rgba_len_matches(r@.len() as int, self@.width, self@.height),
    {
        proof {
            use_type_invariant(self);
        }
        &self.rgba
    }
}

impl Clone for Icon {
    /// Copies the pixel buffer; the copy holds the same pixels and size.
    fn clone(&self) -> (r: Self)
        ensures
            r@ == self@,
    {
        proof {
            use_type_invariant(self);
        }
        let rgba = self.rgba.clone();
        assert(rgba@ =~= self.rgba@);
        Icon { rgba, width: self.width, height: self.height }
    }
}

} // verus!

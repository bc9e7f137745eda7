//! Preparation of the window icon.
//!
//! At startup the shell decodes one embedded, statically bundled image into
//! raw RGBA pixel data and installs it on the main window. The decoding is
//! delegated to the `image` crate; this module builds the icon value from
//! whatever the decode yields and proves the icon well-formed: exactly four
//! bytes of pixel data per pixel.

use vstd::prelude::*;

verus! {

/// Relies on `image::load_from_memory` and `image::DynamicImage::to_rgba8`.
/// Which images decode, and to what, is not a function of the bytes alone:
/// the crate keeps process-global, mutable registries of decoding and
/// format-detection hooks, consulted before its built-in decoders, so the
/// outcome can change between two calls on the same bytes. What holds of
/// every outcome, hook-supplied decoders included, is that the RGBA buffer
/// holds exactly four bytes per pixel: the decode path allocates the buffer
/// itself at exactly `total_bytes`, and the color cast produces exactly one
/// RGBA quadruple per pixel.
#[verifier::external_body]
fn decode_rgba(encoded: &[u8]) -> (decoded: Option<(u32, u32, Vec<u8>)>)
    ensures
        decoded matches Some((width, height, pixels))
            ==> pixels@.len() == 4 * (width as nat) * (height as nat),
{
    match image::load_from_memory(encoded) {
        Ok(decoded) => {
            let rgba = decoded.to_rgba8();
            let (width, height) = rgba.dimensions();
            Some((width, height, rgba.into_raw()))
        }
        Err(_) => None,
    }
}

/// A window icon: owned RGBA pixel data together with its dimensions.
pub struct Icon {
    pub width: u32,
    pub height: u32,
    pub rgba: Vec<u8>,
}

impl Icon {
    /// A well-formed icon holds exactly four bytes (one RGBA quadruple) per
    /// pixel.
    pub open spec fn wf(&self) -> bool {
        self.rgba@.len() == 4 * (self.width as nat) * (self.height as nat)
    }

    /// Builds an icon from owned pixel data and its dimensions, rejecting a
    /// buffer whose length does not match them.
    pub fn new(width: u32, height: u32, rgba: Vec<u8>) -> (icon: Option<Icon>)
        ensures
            match icon {
                Some(built) => {
                    &&& built.wf()
                    &&& built.width == width
                    &&& built.height == height
                    &&& built.rgba@ == rgba@
                },
                None => rgba@.len() != 4 * (width as nat) * (height as nat),
            },
    {
        proof {
            assert((width as int) * (height as int) <= 0xffff_ffff * 0xffff_ffff)
                by (nonlinear_arith)
                requires
                    width <= 0xffff_ffffu32,
                    height <= 0xffff_ffffu32,
            ;
        }
        let pixel_count: u64 = (width as u64) * (height as u64);
        let expected: u128 = 4u128 * (pixel_count as u128);
        proof {
            assert(4 * ((width as int) * (height as int))
                == 4 * (width as int) * (height as int)) by (nonlinear_arith);
        }
        if rgba.len() as u128 == expected {
            Some(Icon { width, height, rgba })
        } else {
            None
        }
    }
}

/// Decodes the shell's embedded icon image into the icon that is installed
/// on the main window. Every icon it yields is well-formed; it yields
/// nothing where the bytes do not decode, which the caller treats as a
/// fatal packaging defect at startup.
pub fn prepare_icon(encoded: &[u8]) -> (icon: Option<Icon>)
    ensures
        icon matches Some(built) ==> built.wf(),
{
    match decode_rgba(encoded) {
        Some((width, height, pixels)) => Some(Icon { width, height, rgba: pixels }),
        None => None,
    }
}

} // verus!

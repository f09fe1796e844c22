//! The painting capability: anything that can render itself into a
//! `PixelBuffer` at an offset, and one concrete painter, a solid colour
//! filling the whole buffer.

use vstd::prelude::*;

use crate::pixel::{PixelBuffer, argb_alpha, argb_blue, argb_green, argb_red};

verus! {

/// The packed (A, R, G, B) bytes of `pixels` pixels all holding the one
/// colour `argb`.
pub open spec fn solid_argb(argb: u32, pixels: nat) -> Seq<u8> {
    Seq::new(
        pixels * 4,
        |j: int|
            if j % 4 == 0 {
                argb_alpha(argb)
            } else if j % 4 == 1 {
                argb_red(argb)
            } else if j % 4 == 2 {
                argb_green(argb)
            } else {
                argb_blue(argb)
            },
    )
}

/// Something that can paint itself into a pixel buffer at an offset. It may
/// write anywhere within the buffer's bounds, must tolerate a buffer of any
/// nonzero size, and must keep the buffer's geometry.
pub trait Drawable: Sized {
    /// What one paint call leaves in a buffer of the given geometry whose
    /// bytes previously were `bytes`, when painting at origin
    /// (`origin_x`, `origin_y`).
    spec fn spec_paint(&self, bytes: Seq<u8>, width: u32, height: u32, origin_x: u32, origin_y: u32) -> Seq<u8>;

    /// Paints into `buffer` with the top-left corner at
    /// (`origin_x`, `origin_y`).
    fn paint(&mut self, buffer: &mut PixelBuffer, origin_x: u32, origin_y: u32)
        requires
            old(buffer).wf(),
        ensures
            final(buffer).wf(),
            final(buffer).spec_width() == old(buffer).spec_width(),
            final(buffer).spec_height() == old(buffer).spec_height(),
            final(buffer)@ == old(self).spec_paint(
                old(buffer)@,
                old(buffer).spec_width(),
                old(buffer).spec_height(),
                origin_x,
                origin_y,
            ),
    ;
}

/// Paints every pixel of the buffer with one (A, R, G, B) colour: a solid
/// rectangle filling the whole buffer, whatever the origin.
pub struct SolidFill {
    pub argb: u32,
}

impl SolidFill {
    pub fn new(argb: u32) -> (d: SolidFill)
        ensures
            d.argb == argb,
    {
        SolidFill { argb }
    }
}

impl Drawable for SolidFill {
    open spec fn spec_paint(
        &self,
        bytes: Seq<u8>,
        width: u32,
        height: u32,
        origin_x: u32,
        origin_y: u32,
    ) -> Seq<u8> {
        solid_argb(self.argb, (width * height) as nat)
    }

    fn paint(&mut self, buffer: &mut PixelBuffer, origin_x: u32, origin_y: u32) {
        let w: u32 = buffer.width();
        let h: u32 = buffer.height();
        let len: usize = buffer.byte_len();
        proof {
            assert(len == w * h * 4);
            assert(len == w * h * 4 ==> len / 4 == w * h) by (nonlinear_arith);
        }
        let n: usize = len / 4;
        let mut p: usize = 0;
        while p < n
            invariant
                buffer.wf(),
                buffer.spec_width() == w,
                buffer.spec_height() == h,
                n == w * h,
                p <= n,
                self.argb == old(self).argb,
                buffer@.len() == n * 4,
                forall|j: int| 0 <= j < 4 * p ==> buffer@[j] == solid_argb(self.argb, n as nat)[j],
                forall|j: int| 4 * p <= j < n * 4 ==> buffer@[j] == old(buffer)@[j],
            decreases n - p,
        {
            proof {
                assert((4 * p) % 4 == 0 && (4 * p + 1) % 4 == 1 && (4 * p + 2) % 4 == 2 && (4 * p
                    + 3) % 4 == 3) by (nonlinear_arith);
            }
            buffer.set_pixel(p, self.argb);
            p = p + 1;
        }
        proof {
            assert(buffer@ =~= solid_argb(self.argb, (w * h) as nat));
        }
    }
}

} // verus!

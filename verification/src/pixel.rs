//! The device-independent pixel buffer: a resizable rectangular array of
//! byte samples, four bytes per pixel in (A, R, G, B) channel order.

use vstd::prelude::*;

verus! {

/// The byte sequence of length `len` that holds `value` at every position.
pub open spec fn all_bytes(len: nat, value: u8) -> Seq<u8> {
    Seq::new(len, |i: int| value)
}

/// The alpha channel of a packed (A, R, G, B) colour.
pub open spec fn argb_alpha(argb: u32) -> u8 {
    ((argb >> 24) & 0xff) as u8
}

/// The red channel of a packed (A, R, G, B) colour.
pub open spec fn argb_red(argb: u32) -> u8 {
    ((argb >> 16) & 0xff) as u8
}

/// The green channel of a packed (A, R, G, B) colour.
pub open spec fn argb_green(argb: u32) -> u8 {
    ((argb >> 8) & 0xff) as u8
}

/// The blue channel of a packed (A, R, G, B) colour.
pub open spec fn argb_blue(argb: u32) -> u8 {
    (argb & 0xff) as u8
}

/// A `width * height` pixel rectangle, packed row-major with four bytes per
/// pixel in (A, R, G, B) order. The sample array always holds exactly
/// `width * height * 4` bytes.
pub struct PixelBuffer {
    width: u32,
    height: u32,
    samples: Vec<u8>,
}

impl View for PixelBuffer {
    type V = Seq<u8>;

    closed spec fn view(&self) -> Seq<u8> {
        self.samples@
    }
}

impl PixelBuffer {
    /// The buffer's width in pixels.
    pub closed spec fn spec_width(&self) -> u32 {
        self.width
    }

    /// The buffer's height in pixels.
    pub closed spec fn spec_height(&self) -> u32 {
        self.height
    }

    /// The sample array holds exactly four bytes per pixel.
    pub open spec fn wf(&self) -> bool {
        self@.len() == self.spec_width() * self.spec_height() * 4
    }

    #[verifier::when_used_as_spec(spec_width)]
    pub fn width(&self) -> (w: u32)
        ensures
            w == self.spec_width(),
    {
        self.width
    }

    #[verifier::when_used_as_spec(spec_height)]
    pub fn height(&self) -> (h: u32)
        ensures
            h == self.spec_height(),
    {
        self.height
    }

    /// A zero-initialized buffer of the given dimensions.
    pub fn create(width: u32, height: u32) -> (buf: PixelBuffer)
        requires
            width * height * 4 <= usize::MAX,
        ensures
            buf.wf(),
            buf.spec_width() == width,
            buf.spec_height() == height,
            buf@ == all_bytes((width * height * 4) as nat, 0u8),
    {
        let n: usize = (width as usize) * (height as usize) * 4;
        PixelBuffer { width, height, samples: byte_vec(n, 0) }
    }

    /// The number of bytes in the sample array, `width * height * 4`.
    pub fn byte_len(&self) -> (n: usize)
        ensures
            n == self@.len(),
    {
        self.samples.len()
    }

    /// Read access to the packed sample array.
    pub fn raw_bytes(&self) -> (bytes: &Vec<u8>)
        ensures
            bytes@ == self@,
    {
        &self.samples
    }

    /// Sets every byte of the sample array to `value`.
    pub fn fill(&mut self, value: u8)
        ensures
            final(self).spec_width() == old(self).spec_width(),
            final(self).spec_height() == old(self).spec_height(),
            final(self)@ == all_bytes(old(self)@.len(), value),
            old(self).wf() ==> final(self).wf(),
    {
        let n: usize = self.samples.len();
        self.samples = byte_vec(n, value);
    }

    /// Reallocates the buffer to the new dimensions. The contents are
    /// unspecified until the next fill or draw; callers that need a known
    /// state must clear explicitly.
    pub fn resize(&mut self, width: u32, height: u32)
        requires
            width * height * 4 <= usize::MAX,
        ensures
            final(self).wf(),
            final(self).spec_width() == width,
            final(self).spec_height() == height,
    {
        let n: usize = (width as usize) * (height as usize) * 4;
        self.width = width;
        self.height = height;
        self.samples = byte_vec(n, 0);
    }

    /// Writes one pixel, addressed by its row-major index, as the four
    /// (A, R, G, B) bytes of the packed colour.
    pub fn set_pixel(&mut self, index: usize, argb: u32)
        requires
            old(self).wf(),
            index < old(self).spec_width() * old(self).spec_height(),
        ensures
            final(self).wf(),
            final(self).spec_width() == old(self).spec_width(),
            final(self).spec_height() == old(self).spec_height(),
            final(self)@ == old(self)@
                .update(4 * index, argb_alpha(argb))
                .update(4 * index + 1, argb_red(argb))
                .update(4 * index + 2, argb_green(argb))
                .update(4 * index + 3, argb_blue(argb)),
    {
        let len: usize = self.samples.len();
        proof {
            let w = old(self).spec_width();
            let h = old(self).spec_height();
            assert(index < w * h && len == w * h * 4);
            assert(index < w * h && len == w * h * 4 ==> 4 * index + 4 <= len)
                by (nonlinear_arith);
            assert(((argb >> 24) & 0xff) < 256 && ((argb >> 16) & 0xff) < 256 && ((argb >> 8)
                & 0xff) < 256 && (argb & 0xff) < 256) by (bit_vector);
        }
        let base: usize = 4 * index;
        self.samples[base] = ((argb >> 24) & 0xff) as u8;
        self.samples[base + 1] = ((argb >> 16) & 0xff) as u8;
        self.samples[base + 2] = ((argb >> 8) & 0xff) as u8;
        self.samples[base + 3] = (argb & 0xff) as u8;
    }
}

/// A resize to `(width, height)` leaves `width * height * 4` bytes, whatever
/// their values; a fill with zero then leaves exactly `width * height * 4`
/// zero bytes.
pub proof fn lemma_resize_then_fill_zero(resized: Seq<u8>, width: u32, height: u32)
    requires
        resized.len() == width * height * 4,
    ensures
        all_bytes(resized.len(), 0u8).len() == width * height * 4,
        forall|i: int| 0 <= i < resized.len() ==> all_bytes(resized.len(), 0u8)[i] == 0u8,
{
}

/// A vector of `n` bytes, every one equal to `value`.
fn byte_vec(n: usize, value: u8) -> (v: Vec<u8>)
    ensures
        v@ == all_bytes(n as nat, value),
{
    let mut v: Vec<u8> = Vec::new();
    let mut i: usize = 0;
    while i < n
        invariant
            i <= n,
            v@.len() == i,
            forall|j: int| 0 <= j < i ==> v@[j] == value,
        decreases n - i,
    {
        v.push(value);
        i = i + 1;
    }
    proof {
        assert(v@ =~= all_bytes(n as nat, value));
    }
    v
}

} // verus!

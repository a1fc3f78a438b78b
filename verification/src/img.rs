use vstd::prelude::*;

verus! {

/// An image defined by its width and a vector of pixels, made up of 4-bit
/// colour indices (stored two to a byte). The height is implied through the
/// length of the vector.
pub struct Img {
    pub width: usize,
    pub current_px: isize,
    pub pixels: Vec<u8>,
}

/// Mathematical model of an `Img`: the row cursor is iteration state and not
/// part of the image's meaning.
pub struct ImgV {
    pub width: nat,
    pub pixels: Seq<u8>,
}

/// The width encoded by the first four bytes of an image buffer: a nibble-style
/// packing where byte `i` is shifted left by `3 - i` before being or-ed in.
pub open spec fn packed_width(b: Seq<u8>) -> usize
    recommends
        b.len() >= 4,
{
    (((b[0] as usize) << 3) | ((b[1] as usize) << 2) | ((b[2] as usize) << 1) | (b[3] as usize))
}

impl View for Img {
    type V = ImgV;

    open spec fn view(&self) -> ImgV {
        ImgV { width: self.width as nat, pixels: self.pixels@ }
    }
}

impl Img {
    /// The row cursor stays between the start of the pixel vector and its end,
    /// or sits at the exhausted marker. The pixel count stays within the
    /// signed address range, as every Rust allocation does.
    pub open spec fn wf(self) -> bool {
        &&& -1 <= self.current_px <= self.pixels@.len()
        &&& self.pixels@.len() <= isize::MAX
    }

    /// Creates a new Img from a u8 vector.
    pub fn new_from_u8(width: usize, pixels: Vec<u8>) -> (r: Self)
        requires
            pixels@.len() <= isize::MAX,
        ensures
            r.width == width,
            r.pixels@ == pixels@,
            r.current_px == 0,
            r.wf(),
    {
        Self { width, current_px: 0, pixels }
    }

    /// Builds an Img from a raw buffer: the first four bytes carry the width,
    /// the rest are the packed pixels. A buffer shorter than four bytes yields
    /// the empty image.
    pub fn new_from_buf(buf: &Vec<u8>) -> (r: Self)
        requires
            buf@.len() <= isize::MAX,
        ensures
            r.current_px == 0,
            r.wf(),
            buf@.len() < 4 ==> r.width == 0 && r.pixels@ == Seq::<u8>::empty(),
            buf@.len() >= 4 ==> r.width == packed_width(buf@) && r.pixels@ == buf@.skip(4),
    {
        if buf.len() < 4 {
            return Self { width: 0, current_px: 0, pixels: Vec::new() };
        }
        let width: usize = ((buf[0] as usize) << 3usize) | ((buf[1] as usize) << 2usize) | (
        (buf[2] as usize) << 1usize) | (buf[3] as usize);
        let mut pixels: Vec<u8> = Vec::new();
        let mut i: usize = 4;
        while i < buf.len()
            invariant
                4 <= i <= buf@.len(),
                pixels@ == buf@.subrange(4, i as int),
            decreases buf@.len() - i,
        {
            pixels.push(buf[i]);
            i += 1;
            assert(pixels@ == buf@.subrange(4, i as int));
        }
        assert(pixels@ == buf@.skip(4));
        Self { width, current_px: 0, pixels }
    }

    /// Returns the pixels of the Img.
    pub fn get_pixels(&self) -> (r: &Vec<u8>)
        ensures
            r@ == self.pixels@,
    {
        &self.pixels
    }

    /// Returns the width of the Img.
    pub fn get_width(&self) -> (r: &usize)
        ensures
            *r == self.width,
    {
        &self.width
    }

    /// Hands out the next row of packed pixels, advancing the row cursor; rows
    /// are `width / 2` bytes wide (two pixels to a byte), with any shorter
    /// remainder as the last row. The row sequence is finite and not
    /// restartable: once the image is exhausted, every later call returns
    /// None. A width under two makes the whole remainder a single row.
    pub fn next_row(&mut self) -> (r: Option<Vec<u8>>)
        requires
            old(self).wf(),
        ensures
            final(self).wf(),
            final(self).width == old(self).width,
            final(self).pixels@ == old(self).pixels@,
            ({
                let c = old(self).current_px as int;
                let n = old(self).pixels@.len() as int;
                let w2 = old(self).width as int / 2;
                if c < 0 {
                    &&& r is None
                    &&& final(self).current_px == -1
                } else if w2 > 0 && n - c > w2 {
                    &&& r matches Some(row) && row@ == old(self).pixels@.subrange(c, c + w2)
                    &&& final(self).current_px == c + w2
                } else if n - c > 0 {
                    &&& r matches Some(row) && row@ == old(self).pixels@.subrange(c, n)
                    &&& final(self).current_px == -1
                } else {
                    &&& r is None
                    &&& final(self).current_px == -1
                }
            }),
    {
        let width2: usize = self.width / 2;
        if self.current_px >= 0 {
            let current_px = self.current_px as usize;
            if width2 > 0 && self.pixels.len() - current_px > width2 {
                let new_px = current_px + width2;
                let row = copy_range(&self.pixels, current_px, new_px);
                self.current_px = new_px as isize;
                Some(row)
            } else if self.pixels.len() - current_px > 0 {
                let row = copy_range(&self.pixels, current_px, self.pixels.len());
                self.current_px = -1;
                Some(row)
            } else {
                self.current_px = -1;
                None
            }
        } else {
            None
        }
    }
}

/// Copies `v[from..to]` into a fresh vector.
pub fn copy_range(v: &Vec<u8>, from: usize, to: usize) -> (r: Vec<u8>)
    requires
        from <= to <= v@.len(),
    ensures
        r@ == v@.subrange(from as int, to as int),
{
    let mut out: Vec<u8> = Vec::new();
    let mut i: usize = from;
    while i < to
        invariant
            from <= i <= to <= v@.len(),
            out@ == v@.subrange(from as int, i as int),
        decreases to - i,
    {
        out.push(v[i]);
        i += 1;
        assert(out@ == v@.subrange(from as int, i as int));
    }
    out
}

impl Clone for Img {
    /// A cloned image carries the same width, cursor and pixel values.
    fn clone(&self) -> (r: Self)
        ensures
            r@ == self@,
            r.width == self.width,
            r.current_px == self.current_px,
            r.pixels@ == self.pixels@,
            r.wf() == self.wf(),
    {
        let pixels = copy_range(&self.pixels, 0, self.pixels.len());
        assert(pixels@ == self.pixels@);
        Self { width: self.width, current_px: self.current_px, pixels }
    }
}

} // verus!

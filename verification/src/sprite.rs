use vstd::prelude::*;

use crate::img::Img;
use crate::img::copy_range;
use crate::img::packed_width;

verus! {

/// `a + b`, capped at the top of the 64-bit range.
pub open spec fn sat_add(a: u64, b: u64) -> u64 {
    if a + b > u64::MAX {
        u64::MAX
    } else {
        (a + b) as u64
    }
}

/// How many whole frames fit in a buffer of `len` bytes after the four-byte
/// width header, at `rpf` bytes per frame. A frame narrower than two bytes
/// never completes, so it yields no frames.
pub open spec fn frame_count(len: int, rpf: int) -> int {
    if rpf >= 2 {
        (len - 4) / rpf
    } else {
        0
    }
}

/// A sprite: a sequence of image frames with a position and animation state.
/// An animation is a window `(first frame, frame count)` into the frame
/// sequence. Times are in microseconds; `framerate` is frames per second,
/// zero meaning the animation never advances.
pub struct Sprite {
    pub pos: (u32, u32),
    pub frames: Vec<Img>,
    pub anims: Vec<(usize, usize)>,
    pub current_anim: usize,
    pub current_frame: usize,
    pub dt_since_last_frame: u64,
    pub framerate: u64,
}

impl Sprite {
    /// Well-formedness: the current frame stays inside the frame sequence,
    /// and while the animation can advance, every animation window is
    /// nonempty and fits inside the frame sequence.
    pub open spec fn wf(self) -> bool {
        &&& (self.frames@.len() == 0 ==> self.current_frame == 0)
        &&& (self.frames@.len() > 0 ==> self.current_frame < self.frames@.len())
        &&& (self.framerate > 0 ==> self.current_anim < self.anims@.len() && forall|i: int|
            0 <= i < self.anims@.len() ==> (#[trigger] self.anims@[i]).1 > 0 && self.anims@[i].0
                + self.anims@[i].1 <= self.frames@.len())
    }

    /// The sprite state after the animation clock advances by `dt`
    /// microseconds: once a full frame period has accumulated, the current
    /// frame steps through the current animation window and wraps to its
    /// first frame.
    pub open spec fn spec_animate(self, dt: u64) -> Sprite {
        if self.framerate > 0 && self.dt_since_last_frame + dt >= 1_000_000int / (
        self.framerate as int) {
            let a = self.anims@[self.current_anim as int];
            let next = if self.current_frame + 1 < a.0 + a.1 {
                (self.current_frame + 1) as usize
            } else {
                a.0
            };
            Sprite { current_frame: next, dt_since_last_frame: 0, ..self }
        } else {
            Sprite { dt_since_last_frame: sat_add(self.dt_since_last_frame, dt), ..self }
        }
    }

    pub fn new(pos: (u32, u32), frames: Vec<Img>, anims: Vec<(usize, usize)>, framerate: u64) -> (r:
        Self)
        ensures
            r.pos == pos,
            r.frames@ == frames@,
            r.anims@ == anims@,
            r.current_anim == 0,
            r.current_frame == 0,
            r.dt_since_last_frame == 0,
            r.framerate == framerate,
    {
        Self {
            pos,
            frames,
            anims,
            current_anim: 0,
            current_frame: 0,
            dt_since_last_frame: 0,
            framerate,
        }
    }

    /// Updates the internal state of the animation by `dt` microseconds.
    pub fn animate(&mut self, dt: u64)
        requires
            old(self).wf(),
        ensures
            *final(self) == old(self).spec_animate(dt),
            final(self).wf(),
    {
        if self.framerate > 0 {
            let period: u64 = 1_000_000 / self.framerate;
            let due: bool = if dt > u64::MAX - self.dt_since_last_frame {
                true
            } else {
                self.dt_since_last_frame + dt >= period
            };
            if due {
                let a = self.anims[self.current_anim];
                let frame_total = self.frames.len();
                proof {
                    assert(self.anims@[self.current_anim as int].1 > 0);
                    assert(a == self.anims@[self.current_anim as int]);
                    assert(a.0 + a.1 <= frame_total);
                }
                if self.current_frame < usize::MAX && self.current_frame + 1 < a.0 + a.1 {
                    self.current_frame = self.current_frame + 1;
                } else {
                    self.current_frame = a.0;
                }
                self.dt_since_last_frame = 0;
                return ;
            }
        }
        self.dt_since_last_frame = if dt > u64::MAX - self.dt_since_last_frame {
            u64::MAX
        } else {
            self.dt_since_last_frame + dt
        };
    }

    pub fn get_pos(&self) -> (r: (u32, u32))
        ensures
            r == self.pos,
    {
        self.pos
    }

    pub fn set_pos(&mut self, pos: (u32, u32))
        ensures
            *final(self) == (Sprite { pos, ..*old(self) }),
    {
        self.pos = pos
    }

    /// The width of the current frame, in packed bytes per row.
    pub fn get_width(&self) -> (r: u32)
        requires
            self.current_frame < self.frames@.len(),
            self.frames@[self.current_frame as int].width <= u32::MAX,
        ensures
            r == self.frames@[self.current_frame as int].width as u32,
    {
        let w = *self.frames[self.current_frame].get_width();
        w as u32
    }

    /// The height of the current frame in pixels: two pixels sit in each
    /// byte, so the row count is the pixel count over the width, doubled.
    pub fn get_height(&self) -> (r: u32)
        requires
            self.current_frame < self.frames@.len(),
            self.frames@[self.current_frame as int].width > 0,
            2 * (self.frames@[self.current_frame as int].pixels@.len() as int / self.frames@[self.current_frame as int].width as int) <= u32::MAX,
        ensures
            r == 2 * (self.frames@[self.current_frame as int].pixels@.len() as int
                / self.frames@[self.current_frame as int].width as int),
    {
        let frame = &self.frames[self.current_frame];
        let rows = frame.get_pixels().len() / *frame.get_width();
        (2 * rows as u64) as u32
    }

    /// A copy of the current frame.
    pub fn get_current_frame(&self) -> (r: Img)
        requires
            self.current_frame < self.frames@.len(),
        ensures
            r@ == self.frames@[self.current_frame as int]@,
            r.width == self.frames@[self.current_frame as int].width,
            r.pixels@ == self.frames@[self.current_frame as int].pixels@,
            r.current_px == self.frames@[self.current_frame as int].current_px,
    {
        self.frames[self.current_frame].clone()
    }

    /// Builds a sprite from a raw buffer: the first four bytes carry the
    /// frame width, the rest is cut into frames of `pix_per_frame / 2` bytes
    /// each; a trailing partial frame is dropped. A buffer shorter than four
    /// bytes yields the empty, never-animating sprite.
    pub fn new_from_buf(
        buf: &Vec<u8>,
        pix_per_frame: usize,
        pos: (u32, u32),
        anims: Vec<(usize, usize)>,
        framerate: u64,
    ) -> (r: Self)
        requires
            pix_per_frame >= 2,
            buf@.len() <= isize::MAX,
        ensures
            r.pos == pos,
            r.current_anim == 0,
            r.current_frame == 0,
            r.dt_since_last_frame == 0,
            buf@.len() < 4 ==> r.frames@.len() == 0 && r.anims@.len() == 0 && r.framerate == 0,
            buf@.len() >= 4 ==> {
                let rpf = pix_per_frame as int / 2;
                &&& r.anims@ == anims@
                &&& r.framerate == framerate
                &&& r.frames@.len() == frame_count(buf@.len() as int, rpf)
                &&& forall|i: int|
                    0 <= i < r.frames@.len() ==> (#[trigger] r.frames@[i]).width == packed_width(
                        buf@,
                    ) && r.frames@[i].pixels@ == buf@.subrange(4 + i * rpf, 4 + (i + 1) * rpf)
                        && r.frames@[i].current_px == 0
            },
    {
        let rpf = pix_per_frame / 2;
        if buf.len() < 4 {
            return Self {
                pos,
                frames: Vec::new(),
                anims: Vec::new(),
                current_anim: 0,
                current_frame: 0,
                dt_since_last_frame: 0,
                framerate: 0,
            };
        }
        let width: usize = ((buf[0] as usize) << 3usize) | ((buf[1] as usize) << 2usize) | (
        (buf[2] as usize) << 1usize) | (buf[3] as usize);
        let mut frames: Vec<Img> = Vec::new();
        if rpf >= 2 {
            let n = (buf.len() - 4) / rpf;
            proof {
                vstd::arithmetic::div_mod::lemma_fundamental_div_mod(
                    buf@.len() as int - 4,
                    rpf as int,
                );
                assert(n * rpf <= buf@.len() - 4) by (nonlinear_arith)
                    requires
                        n == (buf@.len() as int - 4) / rpf as int,
                        rpf >= 2,
                        buf@.len() >= 4,
                {
                }
            }
            let mut i: usize = 0;
            while i < n
                invariant
                    rpf >= 2,
                    4 <= buf@.len() <= isize::MAX,
                    width == packed_width(buf@),
                    n == (buf@.len() as int - 4) / rpf as int,
                    n * rpf <= buf@.len() - 4,
                    i <= n,
                    frames@.len() == i,
                    forall|j: int|
                        0 <= j < i ==> (#[trigger] frames@[j]).width == width && frames@[j].pixels@
                            == buf@.subrange(4 + j * rpf, 4 + (j + 1) * rpf) && frames@[j].current_px
                            == 0,
                decreases n - i,
            {
                proof {
                    assert((i + 1) * rpf <= n * rpf) by (nonlinear_arith)
                        requires
                            i + 1 <= n,
                            rpf >= 2,
                    {
                    }
                    assert(i * rpf >= 0) by (nonlinear_arith)
                        requires
                            i >= 0,
                            rpf >= 0,
                    {
                    }
                    assert((i + 1) * rpf == i * rpf + rpf) by (nonlinear_arith);
                }
                let start: usize = 4 + i * rpf;
                let frame_pixels = copy_range(buf, start, start + rpf);
                frames.push(Img::new_from_u8(width, frame_pixels));
                i += 1;
            }
        }
        Self {
            pos,
            frames,
            anims,
            current_anim: 0,
            current_frame: 0,
            dt_since_last_frame: 0,
            framerate,
        }
    }
}

} // verus!

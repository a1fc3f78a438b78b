use vstd::prelude::*;

use crate::action::Action;
use crate::action::ActionV;
use crate::action::MenuSubAction;
use crate::action::MenuSubActionV;
use crate::action::MouseButton;
use crate::action::views_of;
use crate::img::Img;

verus! {

/// An RGB colour of the 15-entry colour space.
#[derive(Clone, Copy, PartialEq, Eq, Structural, Debug)]
pub struct Rgb {
    pub r: u8,
    pub g: u8,
    pub b: u8,
}

/// What one rasterized cell paints: a colour-space index, or a clear cell
/// for the alpha index.
#[derive(Clone, Copy, PartialEq, Eq, Structural, Debug)]
pub enum CellPaint {
    Palette(u8),
    Clear,
}

/// One square cell to draw: its top-left corner in window coordinates and
/// its side length.
#[derive(Clone, Copy, PartialEq, Eq, Structural, Debug)]
pub struct DrawRect {
    pub x: i32,
    pub y: i32,
    pub size: u32,
    pub paint: CellPaint,
}

/// The colour index of one half of a packed byte: the low nibble for half 0,
/// the high nibble for half 1.
pub open spec fn nibble(byte: u8, half: int) -> u8 {
    if half == 0 {
        byte & 0x0F
    } else {
        (byte >> 4) & 0x0F
    }
}

/// The alpha index: a pixel carrying it is not painted over.
pub open spec fn alpha_index() -> u8 {
    15
}

/// The `k`-th cell that rasterizing an image of the given width and pixel
/// bytes at position `(x, y)` paints, at `px_size` window pixels per image
/// pixel. Cells come in pairs, one byte each: the low nibble sits to the
/// right of the high nibble.
pub open spec fn raster_cell(
    width: int,
    pixels: Seq<u8>,
    x: u32,
    y: u32,
    px_size: u32,
    k: int,
) -> DrawRect
    recommends
        0 <= k < 2 * pixels.len(),
{
    let b = k / 2;
    let half = k % 2;
    let w2 = width / 2;
    let row = if w2 > 0 {
        b / w2
    } else {
        0
    };
    let col = b - row * w2;
    let pix = nibble(pixels[b], half);
    DrawRect {
        x: (px_size * (2 * col + x + 1 - half)) as i32,
        y: (px_size * (row + y)) as i32,
        size: px_size,
        paint: if pix == alpha_index() {
            CellPaint::Clear
        } else {
            CellPaint::Palette(pix)
        },
    }
}

/// `c * a <= c * b` for nonnegative `c` and `a <= b`.
proof fn lemma_mul_le(c: int, a: int, b: int)
    requires
        0 <= c,
        0 <= a <= b,
    ensures
        c * a <= c * b,
{
    assert(c * a <= c * b) by (nonlinear_arith)
        requires
            0 <= c,
            0 <= a <= b,
    {
    }
}

/// Turns an image into the list of cells that paint it at position
/// `(x, y)`, `px_size` window pixels to an image pixel: two cells per packed
/// byte, rows `width / 2` bytes wide, in row order. The bounds keep every
/// cell coordinate inside the window coordinate range.
pub fn rasterize(img: &Img, x: u32, y: u32, px_size: u32) -> (r: Vec<DrawRect>)
    requires
        img.pixels@.len() <= isize::MAX,
        px_size >= 1,
        px_size as int * (2 * img.pixels@.len() + x + 1) <= i32::MAX,
        px_size as int * (img.pixels@.len() + y + 1) <= i32::MAX,
    ensures
        r@.len() == 2 * img.pixels@.len(),
        forall|k: int|
            0 <= k < r@.len() ==> r@[k] == raster_cell(
                img.width as int,
                img.pixels@,
                x,
                y,
                px_size,
                k,
            ),
{
    let w2: usize = img.width / 2;
    let n: usize = img.pixels.len();
    proof {
        lemma_mul_le(2 * n + x + 1, 1, px_size as int);
        assert((2 * n + x + 1) * (px_size as int) == px_size as int * (2 * n + x + 1))
            by (nonlinear_arith);
        lemma_mul_le(n + y + 1, 1, px_size as int);
        assert((n + y + 1) * (px_size as int) == px_size as int * (n + y + 1))
            by (nonlinear_arith);
    }
    let mut r: Vec<DrawRect> = Vec::new();
    let mut b: usize = 0;
    while b < n
        invariant
            n == img.pixels@.len(),
            n <= isize::MAX,
            w2 == img.width as int / 2,
            px_size as int * (2 * n + x + 1) <= i32::MAX,
            px_size as int * (n + y + 1) <= i32::MAX,
            2 * n + x + 1 <= i32::MAX,
            n + y + 1 <= i32::MAX,
            b <= n,
            r@.len() == 2 * b,
            forall|k: int|
                0 <= k < r@.len() ==> r@[k] == raster_cell(
                    img.width as int,
                    img.pixels@,
                    x,
                    y,
                    px_size,
                    k,
                ),
        decreases n - b,
    {
        let row: usize = if w2 > 0 {
            b / w2
        } else {
            0
        };
        proof {
            if w2 > 0 {
                vstd::arithmetic::div_mod::lemma_fundamental_div_mod(b as int, w2 as int);
                vstd::arithmetic::div_mod::lemma_mod_bound(b as int, w2 as int);
            }
        }
        proof {
            if w2 > 0 {
                assert(w2 * row <= b);
                assert(row * w2 == w2 * row) by (nonlinear_arith);
            }
            assert(row * w2 <= b);
        }
        let col: usize = b - row * w2;
        let byte: u8 = img.pixels[b];
        proof {
            assert(2 * col + x + 1 <= 2 * n + x + 1);
            lemma_mul_le(px_size as int, 2 * col + x + 1, 2 * n + x + 1);
            assert(row + y + 1 <= n + y + 1);
            lemma_mul_le(px_size as int, row + y + 1, n + y + 1);
            lemma_mul_le(px_size as int, row + y, row + y + 1);
            lemma_mul_le(px_size as int, 1, 2 * col + x + 1);
        }
        let base_x: u64 = px_size as u64 * (2 * col as u64 + x as u64 + 1);
        let cell_y: u64 = px_size as u64 * (row as u64 + y as u64);
        let low = byte & 0x0F;
        let high = (byte >> 4u8) & 0x0F;
        proof {
            assert(2 * (b as int) / 2 == b as int);
            assert((2 * (b as int) + 1) / 2 == b as int);
            assert(2 * (b as int) % 2 == 0);
            assert((2 * (b as int) + 1) % 2 == 1);
            assert(px_size as int * (2 * col + x + 1) == base_x as int);
            assert(cell_y as int == px_size as int * (row + y));
            assert(px_size as int * (2 * col + x + 1) - px_size as int == px_size as int * (2 * col
                + x)) by (nonlinear_arith);
        }
        r.push(
            DrawRect {
                x: base_x as i32,
                y: cell_y as i32,
                size: px_size,
                paint: if low == 15 {
                    CellPaint::Clear
                } else {
                    CellPaint::Palette(low)
                },
            },
        );
        r.push(
            DrawRect {
                x: (base_x - px_size as u64) as i32,
                y: cell_y as i32,
                size: px_size,
                paint: if high == 15 {
                    CellPaint::Clear
                } else {
                    CellPaint::Palette(high)
                },
            },
        );
        b += 1;
    }
    r
}

/// The example colour space: the fifteen colours the renderer falls back to
/// when none is supplied.
pub open spec fn default_colors() -> Seq<Rgb> {
    seq![
        Rgb { r: 0x74, g: 0xDC, b: 0x20 },
        Rgb { r: 0xCE, g: 0xB2, b: 0x7E },
        Rgb { r: 0xD4, g: 0x3B, b: 0x3E },
        Rgb { r: 0xA6, g: 0x37, b: 0x4F },
        Rgb { r: 0xC6, g: 0x6C, b: 0x45 },
        Rgb { r: 0xC2, g: 0x9F, b: 0x6E },
        Rgb { r: 0xB7, g: 0xA6, b: 0x75 },
        Rgb { r: 0xA5, g: 0xA1, b: 0x75 },
        Rgb { r: 0xF5, g: 0xC3, b: 0x5C },
        Rgb { r: 0xD5, g: 0x8E, b: 0x55 },
        Rgb { r: 0x8B, g: 0x84, b: 0x4C },
        Rgb { r: 0xAC, g: 0xA4, b: 0x7C },
        Rgb { r: 0xA3, g: 0x7F, b: 0x59 },
        Rgb { r: 0xB0, g: 0x6C, b: 0x4C },
        Rgb { r: 0x40, g: 0x43, b: 0x37 },
    ]
}

/// The example colour space as a vector.
pub fn default_color_space() -> (r: Vec<Rgb>)
    ensures
        r@ == default_colors(),
{
    let mut v: Vec<Rgb> = Vec::new();
    v.push(Rgb { r: 0x74, g: 0xDC, b: 0x20 });
    v.push(Rgb { r: 0xCE, g: 0xB2, b: 0x7E });
    v.push(Rgb { r: 0xD4, g: 0x3B, b: 0x3E });
    v.push(Rgb { r: 0xA6, g: 0x37, b: 0x4F });
    v.push(Rgb { r: 0xC6, g: 0x6C, b: 0x45 });
    v.push(Rgb { r: 0xC2, g: 0x9F, b: 0x6E });
    v.push(Rgb { r: 0xB7, g: 0xA6, b: 0x75 });
    v.push(Rgb { r: 0xA5, g: 0xA1, b: 0x75 });
    v.push(Rgb { r: 0xF5, g: 0xC3, b: 0x5C });
    v.push(Rgb { r: 0xD5, g: 0x8E, b: 0x55 });
    v.push(Rgb { r: 0x8B, g: 0x84, b: 0x4C });
    v.push(Rgb { r: 0xAC, g: 0xA4, b: 0x7C });
    v.push(Rgb { r: 0xA3, g: 0x7F, b: 0x59 });
    v.push(Rgb { r: 0xB0, g: 0x6C, b: 0x4C });
    v.push(Rgb { r: 0x40, g: 0x43, b: 0x37 });
    proof {
        assert(v@ =~= default_colors());
    }
    v
}

/// The actions a renderer emits at a frame boundary, after any input-derived
/// actions: update the world, hand out the frame geometry, draw with a
/// clear.
pub fn frame_end_actions(width: u32, height: u32, pixel_size: u32) -> (r: Vec<Action>)
    ensures
        views_of(r@) == seq![
            ActionV::Update,
            ActionV::SendFrame(width, height, pixel_size),
            ActionV::Draw(true),
        ],
{
    let mut r: Vec<Action> = Vec::new();
    r.push(Action::UpdateAction);
    r.push(Action::SendFrameAction(width, height, pixel_size));
    r.push(Action::DrawAction(true));
    proof {
        assert(views_of(r@) =~= seq![
            ActionV::Update,
            ActionV::SendFrame(width, height, pixel_size),
            ActionV::Draw(true),
        ]);
    }
    r
}

/// An input event as the windowing backend reports it, reduced to what the
/// action mapping reads.
pub enum InputEvent {
    Quit,
    KeyDown { escape: bool, scancode: Option<i32> },
    MouseButtonDown { x: i32, y: i32, button: MouseButton },
    Other,
}

/// The action a polled event maps to: a window quit asks the menu layer to
/// quit, escape toggles the menu, any other key is handed on by its
/// scancode.
pub open spec fn poll_action(e: InputEvent) -> Option<ActionV> {
    match e {
        InputEvent::Quit => Some(ActionV::Menu(MenuSubActionV::Quit)),
        InputEvent::KeyDown { escape, scancode } => if escape {
            Some(ActionV::Menu(MenuSubActionV::ChangeMenuState))
        } else {
            match scancode {
                Some(c) => Some(ActionV::Keyboard(c)),
                None => None,
            }
        },
        _ => None,
    }
}

/// Maps one polled input event to its action, if any.
pub fn poll_event_action(event: &InputEvent) -> (r: Option<Action>)
    ensures
        match r {
            Some(a) => poll_action(*event) == Some(a@),
            None => poll_action(*event) is None,
        },
{
    match event {
        InputEvent::Quit => Some(Action::MenuAction(MenuSubAction::QuitAction)),
        InputEvent::KeyDown { escape, scancode } => {
            if *escape {
                Some(Action::MenuAction(MenuSubAction::ChangeMenuStateAction))
            } else {
                match scancode {
                    Some(c) => Some(Action::KeyboardAction(*c)),
                    None => None,
                }
            }
        },
        _ => None,
    }
}

/// The action a waited-for event maps to: a window quit ends the run, escape
/// toggles the menu, a mouse press becomes a click at the current pixel
/// scale.
pub open spec fn wait_action(e: InputEvent, pixel_size: u32) -> Option<ActionV> {
    match e {
        InputEvent::Quit => Some(ActionV::Quit),
        InputEvent::KeyDown { escape, scancode } => if escape {
            Some(ActionV::Menu(MenuSubActionV::ChangeMenuState))
        } else {
            None
        },
        InputEvent::MouseButtonDown { x, y, button } => Some(
            ActionV::Menu(MenuSubActionV::Click(x, y, button, pixel_size)),
        ),
        _ => None,
    }
}

/// Maps one waited-for input event to its action, if any. Used in menu mode
/// to sit on the event queue instead of spinning.
pub fn wait_event_action(event: &InputEvent, pixel_size: u32) -> (r: Option<Action>)
    ensures
        match r {
            Some(a) => wait_action(*event, pixel_size) == Some(a@),
            None => wait_action(*event, pixel_size) is None,
        },
{
    match event {
        InputEvent::Quit => Some(Action::QuitAction),
        InputEvent::KeyDown { escape, scancode: _ } => {
            if *escape {
                Some(Action::MenuAction(MenuSubAction::ChangeMenuStateAction))
            } else {
                None
            }
        },
        InputEvent::MouseButtonDown { x, y, button } => Some(
            Action::MenuAction(MenuSubAction::ClickAction(*x, *y, *button, pixel_size)),
        ),
        _ => None,
    }
}

} // verus!

use vstd::prelude::*;

use crate::action::MenuSubAction;
use crate::action::MenuSubActionV;
use crate::sprite::Sprite;

verus! {

/// Holds when the callback may be called and every result it can return has
/// the view `m`: the callback then determines `m`.
pub open spec fn click_determines<F: Fn() -> MenuSubAction>(f: F, m: MenuSubActionV) -> bool {
    &&& call_requires(f, ())
    &&& forall|r: MenuSubAction| call_ensures(f, (), r) ==> r@ == m
}

/// The product of two 32-bit values stays under the square of the 32-bit
/// range.
proof fn lemma_mul_u32_bound(a: int, b: int)
    requires
        0 <= a <= 0xFFFF_FFFF,
        0 <= b <= 0xFFFF_FFFF,
    ensures
        a * b <= 0xFFFF_FFFE_0000_0001,
{
    assert(a * b <= 0xFFFF_FFFF * 0xFFFF_FFFF) by (nonlinear_arith)
        requires
            0 <= a <= 0xFFFF_FFFF,
            0 <= b <= 0xFFFF_FFFF,
    {
    }
}

/// A clickable button: a sprite and an on-click callback producing the menu
/// sub-action that a click fires.
pub struct Button<F> where F: Fn() -> MenuSubAction {
    pub sprite: Sprite,
    pub click_fn: F,
}

impl<F: Fn() -> MenuSubAction> Button<F> {
    /// Well-formedness: the sprite shows a frame of positive width whose
    /// height computation stays in range, and the callback determines one
    /// sub-action.
    pub open spec fn wf(self) -> bool {
        &&& self.sprite.current_frame < self.sprite.frames@.len()
        &&& self.frame().width > 0
        &&& self.frame().width <= u32::MAX
        &&& 2 * (self.frame().pixels@.len() as int / self.frame().width as int) <= u32::MAX
        &&& exists|m: MenuSubActionV| click_determines(self.click_fn, m)
    }

    /// The sprite frame the button shows.
    pub open spec fn frame(self) -> crate::img::Img {
        self.sprite.frames@[self.sprite.current_frame as int]
    }

    /// The sub-action the click callback produces.
    pub open spec fn on_click(self) -> MenuSubActionV {
        choose|m: MenuSubActionV| click_determines(self.click_fn, m)
    }

    /// Whether a click at `(x, y)` lands strictly inside the button's box at
    /// its position scaled by `scale`, the box being as wide and high as the
    /// shown frame: edges are exclusive.
    pub open spec fn hit(self, x: u32, y: u32, scale: u32) -> bool {
        let sx = self.sprite.pos.0 * scale;
        let sy = self.sprite.pos.1 * scale;
        let w = (self.frame().width as u32) as int;
        let h = 2 * (self.frame().pixels@.len() as int / self.frame().width as int);
        &&& sx < x < sx + w * scale
        &&& sy < y < sy + h * scale
    }

    pub fn new(sprite: Sprite, click_fn: F) -> (r: Self)
        ensures
            r.sprite == sprite,
            r.click_fn == click_fn,
    {
        Self { sprite, click_fn }
    }

    /// The menu sub-action that paints the button: place the shown frame at
    /// the button's position.
    pub fn send_frame(&self) -> (r: MenuSubAction)
        requires
            self.sprite.current_frame < self.sprite.frames@.len(),
        ensures
            r@ == MenuSubActionV::AddImgToCanvas(
                self.sprite.pos.0,
                self.sprite.pos.1,
                self.frame()@,
            ),
    {
        MenuSubAction::AddImgToCanvasAction(
            self.sprite.get_pos().0,
            self.sprite.get_pos().1,
            self.sprite.get_current_frame(),
        )
    }

    /// Sets the callback to be fired on a click.
    pub fn set_onclick(&mut self, fun: F)
        ensures
            *final(self) == (Button { click_fn: fun, ..*old(self) }),
    {
        self.click_fn = fun;
    }

    /// Fires the click callback when a click lands on the button: returns
    /// its sub-action exactly when `(x, y)` lies strictly inside the
    /// button's scaled box.
    pub fn check_click(&self, x: u32, y: u32, px_size: u32) -> (r: Option<MenuSubAction>)
        requires
            self.wf(),
        ensures
            r is Some <==> self.hit(x, y, px_size),
            r matches Some(m) ==> m@ == self.on_click(),
    {
        let pos = self.sprite.get_pos();
        let w = self.sprite.get_width();
        let h = self.sprite.get_height();
        proof {
            lemma_mul_u32_bound(pos.0 as int, px_size as int);
            lemma_mul_u32_bound(pos.1 as int, px_size as int);
            lemma_mul_u32_bound(w as int, px_size as int);
            lemma_mul_u32_bound(h as int, px_size as int);
        }
        let sprite_x: u128 = pos.0 as u128 * px_size as u128;
        let sprite_y: u128 = pos.1 as u128 * px_size as u128;
        let cx = x as u128;
        let cy = y as u128;

        if sprite_x < cx && cx < sprite_x + w as u128 * px_size as u128 {
            if sprite_y < cy && cy < sprite_y + h as u128 * px_size as u128 {
                proof {
                    let m0 = choose|m: MenuSubActionV| click_determines(self.click_fn, m);
                    assert(click_determines(self.click_fn, m0));
                }
                let m = (self.click_fn)();
                return Some(m);
            }
        }
        None
    }
}

} // verus!

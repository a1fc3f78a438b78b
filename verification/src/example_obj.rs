use vstd::prelude::*;

use crate::action::Action;
use crate::action::ActionV;
use crate::action::views_of;
use crate::sprite::Sprite;
use crate::sprite::sat_add;
use crate::store::ReceiveActionReturnOption;
use crate::store::Store;
use crate::test_object::sprite_frame_action;
use crate::test_object::sprite_frame_step;
use crate::test_object::sprite_send_frame;

verus! {

/// Where the drifting example object sits after `acc` microseconds: three
/// hundred pixels per second, capped at 255.
pub open spec fn drift_pos(acc: u64) -> u32 {
    let scaled = acc * 300 / 1_000_000;
    if scaled > 255 {
        255u32
    } else {
        scaled as u32
    }
}

/// A simple implementation of an animated game object: it paints its sprite
/// on every frame request and drifts diagonally as time accumulates.
pub struct ExampleObj {
    pub sprite: Option<Sprite>,
    pub accumulated_dt: u64,
}

impl ExampleObj {
    pub fn new(sprite: Sprite) -> (r: Self)
        ensures
            r.sprite == Some(sprite),
            r.accumulated_dt == 0,
    {
        Self { sprite: Some(sprite), accumulated_dt: 0 }
    }
}

impl View for ExampleObj {
    type V = ExampleObj;

    open spec fn view(&self) -> ExampleObj {
        *self
    }
}

impl Store for ExampleObj {
    open spec fn inv(v: ExampleObj) -> bool {
        v.sprite matches Some(s) ==> s.wf()
    }

    open spec fn sp_next(v: ExampleObj, a: ActionV, dt: u64) -> ExampleObj {
        match a {
            ActionV::SendFrame(_, _, _) => ExampleObj {
                sprite: sprite_frame_step(v.sprite, dt),
                ..v
            },
            ActionV::Update => {
                let acc = sat_add(v.accumulated_dt, dt);
                let p = drift_pos(acc);
                ExampleObj {
                    sprite: match v.sprite {
                        Some(s) => Some(Sprite { pos: (p, p), ..s }),
                        None => None,
                    },
                    accumulated_dt: acc,
                }
            },
            _ => v,
        }
    }

    open spec fn sp_emits(v: ExampleObj, a: ActionV, dt: u64) -> Seq<ActionV> {
        match a {
            ActionV::SendFrame(_, _, _) => seq![sprite_frame_action(v.sprite, dt)],
            _ => Seq::<ActionV>::empty(),
        }
    }

    open spec fn sp_to_secondary(v: ExampleObj, a: ActionV, dt: u64) -> bool {
        false
    }

    open spec fn sp_responds(v: ExampleObj, a: ActionV, dt: u64) -> bool {
        a matches ActionV::SendFrame(_, _, _)
    }

    fn receive_action(&mut self, action: &Action, dt: u64) -> (r: ReceiveActionReturnOption) {
        match action {
            Action::SendFrameAction(_, _, _) => {
                let ghost v0 = *self;
                let out_action = sprite_send_frame(&mut self.sprite, dt);
                let mut out: Vec<Action> = Vec::new();
                out.push(out_action);
                proof {
                    assert(views_of(out@) =~= seq![sprite_frame_action(v0.sprite, dt)]);
                }
                ReceiveActionReturnOption::NewAction(out, false)
            },
            Action::UpdateAction => {
                self.accumulated_dt = if dt > u64::MAX - self.accumulated_dt {
                    u64::MAX
                } else {
                    self.accumulated_dt + dt
                };
                let scaled: u128 = self.accumulated_dt as u128 * 300 / 1_000_000;
                let p: u32 = if scaled > 255 {
                    255
                } else {
                    scaled as u32
                };
                match &mut self.sprite {
                    Some(s) => {
                        s.set_pos((p, p));
                    },
                    None => {},
                }
                ReceiveActionReturnOption::NoNewAction
            },
            _ => ReceiveActionReturnOption::NoNewAction,
        }
    }
}

} // verus!

use vstd::prelude::*;

use crate::action::Action;
use crate::action::ActionV;
use crate::action::views_of;
use crate::sprite::Sprite;
use crate::store::ReceiveActionReturnOption;
use crate::store::Store;

verus! {

/// The action that paints an animated sprite: advance the animation by `dt`,
/// then place the current frame at the sprite's position; an empty action
/// when there is no frame to show.
pub open spec fn sprite_frame_action(sprite: Option<Sprite>, dt: u64) -> ActionV {
    match sprite {
        Some(s) => {
            let s2 = s.spec_animate(dt);
            if s2.current_frame < s2.frames@.len() {
                ActionV::AddImgToCanvas(
                    s2.pos.0,
                    s2.pos.1,
                    s2.frames@[s2.current_frame as int]@,
                )
            } else {
                ActionV::Empty
            }
        },
        None => ActionV::Empty,
    }
}

/// The sprite state after painting: the animation advanced by `dt`.
pub open spec fn sprite_frame_step(sprite: Option<Sprite>, dt: u64) -> Option<Sprite> {
    match sprite {
        Some(s) => Some(s.spec_animate(dt)),
        None => None,
    }
}

/// Advances the animation and builds the action that paints the current
/// frame; an empty action when no frame can be shown.
pub fn sprite_send_frame(sprite: &mut Option<Sprite>, dt: u64) -> (out: Action)
    requires
        *old(sprite) matches Some(s) ==> s.wf(),
    ensures
        *final(sprite) == sprite_frame_step(*old(sprite), dt),
        (*final(sprite) matches Some(s) ==> s.wf()),
        out@ == sprite_frame_action(*old(sprite), dt),
{
    let mut out_action = Action::EmptyAction;
    match sprite {
        Some(s) => {
            s.animate(dt);
            if s.current_frame < s.frames.len() {
                out_action = Action::AddImgToCanvasAction(
                    s.get_pos().0,
                    s.get_pos().1,
                    s.get_current_frame(),
                );
            }
        },
        None => {},
    }
    out_action
}

/// A game object for testing: an optional animated sprite that paints itself
/// on every frame request.
pub struct TestObject {
    pub sprite: Option<Sprite>,
}

impl TestObject {
    pub fn new(sprite: Sprite) -> (r: Self)
        ensures
            r.sprite == Some(sprite),
    {
        Self { sprite: Some(sprite) }
    }
}

impl View for TestObject {
    type V = TestObject;

    open spec fn view(&self) -> TestObject {
        *self
    }
}

impl Store for TestObject {
    open spec fn inv(v: TestObject) -> bool {
        v.sprite matches Some(s) ==> s.wf()
    }

    open spec fn sp_next(v: TestObject, a: ActionV, dt: u64) -> TestObject {
        match a {
            ActionV::SendFrame(_, _, _) => TestObject { sprite: sprite_frame_step(v.sprite, dt) },
            _ => v,
        }
    }

    open spec fn sp_emits(v: TestObject, a: ActionV, dt: u64) -> Seq<ActionV> {
        match a {
            ActionV::SendFrame(_, _, _) => seq![sprite_frame_action(v.sprite, dt)],
            _ => Seq::<ActionV>::empty(),
        }
    }

    open spec fn sp_to_secondary(v: TestObject, a: ActionV, dt: u64) -> bool {
        false
    }

    open spec fn sp_responds(v: TestObject, a: ActionV, dt: u64) -> bool {
        a matches ActionV::SendFrame(_, _, _)
    }

    fn receive_action(&mut self, action: &Action, dt: u64) -> (r: ReceiveActionReturnOption) {
        match action {
            Action::SendFrameAction(_, _, _) => {
                let ghost v0 = *self;
                let out_action = sprite_send_frame(&mut self.sprite, dt);
                let mut out: Vec<Action> = Vec::new();
                out.push(out_action);
                proof {
                    assert(views_of(out@) =~= seq![sprite_frame_action(v0.sprite, dt)]);
                }
                ReceiveActionReturnOption::NewAction(out, false)
            },
            _ => ReceiveActionReturnOption::NoNewAction,
        }
    }
}

} // verus!

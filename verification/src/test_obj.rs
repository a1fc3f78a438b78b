use vstd::prelude::*;

use crate::action::Action;
use crate::action::ActionV;
use crate::action::views_of;
use crate::sprite::Sprite;
use crate::store::ReceiveActionReturnOption;
use crate::store::Store;
use crate::test_object::sprite_frame_action;
use crate::test_object::sprite_frame_step;
use crate::test_object::sprite_send_frame;

verus! {

/// A game object for testing: the earlier snapshot of `TestObject`, kept for
/// compatibility; it behaves the same way.
pub struct TestObj {
    pub sprite: Option<Sprite>,
}

impl TestObj {
    pub fn new(sprite: Sprite) -> (r: Self)
        ensures
            r.sprite == Some(sprite),
    {
        Self { sprite: Some(sprite) }
    }
}

impl View for TestObj {
    type V = TestObj;

    open spec fn view(&self) -> TestObj {
        *self
    }
}

impl Store for TestObj {
    open spec fn inv(v: TestObj) -> bool {
        v.sprite matches Some(s) ==> s.wf()
    }

    open spec fn sp_next(v: TestObj, a: ActionV, dt: u64) -> TestObj {
        match a {
            ActionV::SendFrame(_, _, _) => TestObj { sprite: sprite_frame_step(v.sprite, dt) },
            _ => v,
        }
    }

    open spec fn sp_emits(v: TestObj, a: ActionV, dt: u64) -> Seq<ActionV> {
        match a {
            ActionV::SendFrame(_, _, _) => seq![sprite_frame_action(v.sprite, dt)],
            _ => Seq::<ActionV>::empty(),
        }
    }

    open spec fn sp_to_secondary(v: TestObj, a: ActionV, dt: u64) -> bool {
        false
    }

    open spec fn sp_responds(v: TestObj, a: ActionV, dt: u64) -> bool {
        a matches ActionV::SendFrame(_, _, _)
    }

    fn receive_action(&mut self, action: &Action, dt: u64) -> (r: ReceiveActionReturnOption) {
        match action {
            Action::SendFrameAction(_, _, _) => {
                let ghost v0 = *self;
                let out_action = sprite_send_frame(&mut self.sprite, dt);
                let mut out: Vec<Action> = Vec::new();
                out.push(out_action);
                proof {
                    assert(views_of(out@) =~= seq![sprite_frame_action(v0.sprite, dt)]);
                }
                ReceiveActionReturnOption::NewAction(out, false)
            },
            _ => ReceiveActionReturnOption::NoNewAction,
        }
    }
}

} // verus!

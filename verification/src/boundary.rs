use vstd::prelude::*;

use crate::action::Action;
use crate::action::ActionV;
use crate::action::MenuSubAction;
use crate::action::views_of;
use crate::render::frame_end_actions;
use crate::store::ReceiveActionReturnOption;
use crate::store::Store;

verus! {

/// The store that stands for the rendering and input backend. The dispatcher
/// treats it like any other store; the driver, which owns the window and the
/// event queue, drains the actions it has received to perform the drawing,
/// and loads the actions its input events map to. At a frame boundary the
/// loaded actions are handed out, followed by the fixed frame tail; a
/// wait-for-input hands out the loaded actions alone.
pub struct BoundaryStore {
    pub received: Vec<Action>,
    pub pending: Vec<Action>,
    pub width: u32,
    pub height: u32,
    pub pixel_size: u32,
}

/// Mathematical model of a boundary store.
#[verifier::ext_equal]
pub struct BoundaryV {
    pub received: Seq<ActionV>,
    pub pending: Seq<ActionV>,
    pub width: u32,
    pub height: u32,
    pub pixel_size: u32,
}

impl View for BoundaryStore {
    type V = BoundaryV;

    open spec fn view(&self) -> BoundaryV {
        BoundaryV {
            received: views_of(self.received@),
            pending: views_of(self.pending@),
            width: self.width,
            height: self.height,
            pixel_size: self.pixel_size,
        }
    }
}

/// The fixed tail of a frame boundary: update the world, hand out the frame
/// geometry, draw with a clear.
pub open spec fn frame_tail(width: u32, height: u32, pixel_size: u32) -> Seq<ActionV> {
    seq![ActionV::Update, ActionV::SendFrame(width, height, pixel_size), ActionV::Draw(true)]
}

impl BoundaryStore {
    pub fn new(width: u32, height: u32, pixel_size: u32) -> (r: Self)
        ensures
            r@ == (BoundaryV {
                received: Seq::<ActionV>::empty(),
                pending: Seq::<ActionV>::empty(),
                width,
                height,
                pixel_size,
            }),
    {
        let r = Self { received: Vec::new(), pending: Vec::new(), width, height, pixel_size };
        proof {
            assert(views_of(Seq::<Action>::empty()) =~= Seq::<ActionV>::empty());
        }
        r
    }

    /// Loads one action — usually one an input event was mapped to — to be
    /// handed out at the next frame boundary or wait-for-input.
    pub fn load_action(&mut self, action: Action)
        ensures
            final(self)@ == (BoundaryV { pending: old(self)@.pending.push(action@), ..old(self)@ }),
    {
        proof {
            crate::dispatcher::lemma_views_of_push(self.pending@, action);
        }
        self.pending.push(action);
    }

    /// Hands the driver everything received since the last drain, in
    /// delivery order.
    pub fn drain_received(&mut self) -> (r: Vec<Action>)
        ensures
            views_of(r@) == old(self)@.received,
            final(self)@ == (BoundaryV { received: Seq::<ActionV>::empty(), ..old(self)@ }),
    {
        let mut r: Vec<Action> = Vec::new();
        std::mem::swap(&mut r, &mut self.received);
        proof {
            assert(views_of(Seq::<Action>::empty()) =~= Seq::<ActionV>::empty());
        }
        r
    }

    /// Moves the pending actions out, oldest first.
    fn take_pending(&mut self) -> (r: Vec<Action>)
        ensures
            views_of(r@) == old(self)@.pending,
            final(self)@ == (BoundaryV { pending: Seq::<ActionV>::empty(), ..old(self)@ }),
    {
        let mut r: Vec<Action> = Vec::new();
        std::mem::swap(&mut r, &mut self.pending);
        proof {
            assert(views_of(Seq::<Action>::empty()) =~= Seq::<ActionV>::empty());
        }
        r
    }
}

impl Store for BoundaryStore {
    open spec fn inv(v: BoundaryV) -> bool {
        true
    }

    open spec fn sp_next(v: BoundaryV, a: ActionV, dt: u64) -> BoundaryV {
        BoundaryV {
            received: v.received.push(a),
            pending: match a {
                ActionV::EndFrame => Seq::<ActionV>::empty(),
                ActionV::Menu(sub) => if sub is WaitForInput {
                    Seq::<ActionV>::empty()
                } else {
                    v.pending
                },
                _ => v.pending,
            },
            ..v
        }
    }

    open spec fn sp_emits(v: BoundaryV, a: ActionV, dt: u64) -> Seq<ActionV> {
        match a {
            ActionV::EndFrame => v.pending + frame_tail(v.width, v.height, v.pixel_size),
            ActionV::Menu(sub) => if sub is WaitForInput {
                v.pending
            } else {
                Seq::<ActionV>::empty()
            },
            _ => Seq::<ActionV>::empty(),
        }
    }

    open spec fn sp_to_secondary(v: BoundaryV, a: ActionV, dt: u64) -> bool {
        false
    }

    open spec fn sp_responds(v: BoundaryV, a: ActionV, dt: u64) -> bool {
        match a {
            ActionV::EndFrame => true,
            ActionV::Menu(sub) => sub is WaitForInput,
            _ => false,
        }
    }

    fn receive_action(&mut self, action: &Action, dt: u64) -> (r: ReceiveActionReturnOption) {
        let ghost v0 = self@;
        let copy = action.clone();
        proof {
            crate::dispatcher::lemma_views_of_push(self.received@, copy);
        }
        self.received.push(copy);
        match action {
            Action::EndFrameAction => {
                let mut out = self.take_pending();
                let mut tail = frame_end_actions(self.width, self.height, self.pixel_size);
                let ghost out0 = views_of(out@);
                let ghost tail0 = views_of(tail@);
                out.append(&mut tail);
                proof {
                    assert(views_of(out@) =~= out0 + tail0);
                    assert(views_of(out@) =~= Self::sp_emits(v0, action@, dt));
                }
                ReceiveActionReturnOption::NewAction(out, false)
            },
            Action::MenuAction(sub) => {
                match sub {
                    MenuSubAction::WaitForInputAction => {
                        let out = self.take_pending();
                        ReceiveActionReturnOption::NewAction(out, false)
                    },
                    _ => ReceiveActionReturnOption::NoNewAction,
                }
            },
            _ => ReceiveActionReturnOption::NoNewAction,
        }
    }
}

} // verus!

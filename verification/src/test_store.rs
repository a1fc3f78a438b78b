use vstd::prelude::*;

use crate::action::Action;
use crate::action::ActionV;
use crate::action::views_of;
use crate::dispatcher::DispState;
use crate::dispatcher::MenuState;
use crate::dispatcher::spec_elapsed;
use crate::dispatcher::spec_broadcast;
use crate::dispatcher::spec_run;
use crate::store::ReceiveActionReturnOption;
use crate::store::Store;

verus! {

/// An echo store: on every frame boundary it emits a test action carrying
/// `in_num` on the primary queue; on receiving a test action it records the
/// carried value in `out_num`. Every other action is ignored.
pub struct TestStore {
    pub in_num: u8,
    pub out_num: u8,
}

impl View for TestStore {
    type V = TestStore;

    open spec fn view(&self) -> TestStore {
        *self
    }
}

impl Store for TestStore {
    open spec fn inv(v: TestStore) -> bool {
        true
    }

    open spec fn sp_next(v: TestStore, a: ActionV, dt: u64) -> TestStore {
        match a {
            ActionV::Test(num) => TestStore { out_num: num, ..v },
            _ => v,
        }
    }

    open spec fn sp_emits(v: TestStore, a: ActionV, dt: u64) -> Seq<ActionV> {
        match a {
            ActionV::EndFrame => seq![ActionV::Test(v.in_num)],
            _ => Seq::<ActionV>::empty(),
        }
    }

    open spec fn sp_to_secondary(v: TestStore, a: ActionV, dt: u64) -> bool {
        false
    }

    open spec fn sp_responds(v: TestStore, a: ActionV, dt: u64) -> bool {
        a is EndFrame
    }

    fn receive_action(&mut self, action: &Action, dt: u64) -> (r: ReceiveActionReturnOption) {
        match action {
            Action::TestAction(num) => {
                self.out_num = *num;
                ReceiveActionReturnOption::NoNewAction
            },
            Action::EndFrameAction => {
                let mut out: Vec<Action> = Vec::new();
                out.push(Action::TestAction(self.in_num));
                proof {
                    assert(views_of(out@) =~= seq![ActionV::Test(self.in_num)]);
                }
                ReceiveActionReturnOption::NewAction(out, false)
            },
            _ => ReceiveActionReturnOption::NoNewAction,
        }
    }
}

/// Echo round trip: a freshly seeded dispatcher holding one echo store with
/// `in_num == n`, for any nonzero byte `n`, records exactly `n` in the
/// store's `out_num` after nine dispatch steps, whatever the budget window
/// and the clock reading.
pub proof fn lemma_echo_round_trip(n: u8, max: u64, start: u64, now: u64)
    requires
        n != 0,
        max > 0,
    ensures
        ({
            let d0 = DispState::<TestStore> {
                primary: seq![ActionV::Start, ActionV::EndFrame],
                secondary: Seq::<ActionV>::empty(),
                stores: seq![TestStore { in_num: n, out_num: 0 }],
                menu_state: MenuState::NotInMenu,
                use_secondary: false,
                max_stack_time: max,
                stack_start_time: start,
                dt: 0,
            };
            spec_run(d0, now, 9).stores[0] == (TestStore { in_num: n, out_num: n })
        }),
{
    let st0 = TestStore { in_num: n, out_num: 0 };
    let stn = TestStore { in_num: n, out_num: n };
    let d0 = DispState::<TestStore> {
        primary: seq![ActionV::Start, ActionV::EndFrame],
        secondary: Seq::<ActionV>::empty(),
        stores: seq![st0],
        menu_state: MenuState::NotInMenu,
        use_secondary: false,
        max_stack_time: max,
        stack_start_time: start,
        dt: 0,
    };
    let e1 = spec_elapsed(start, now);
    let empty_a = Seq::<ActionV>::empty();
    let empty_s = Seq::<TestStore>::empty();

    assert(seq![st0].subrange(1, 1) =~= empty_s);
    assert(seq![stn].subrange(1, 1) =~= empty_s);
    assert(spec_broadcast::<TestStore>(empty_s, ActionV::Start, e1) == (empty_s, empty_a, empty_a));
    assert(spec_broadcast::<TestStore>(empty_s, ActionV::EndFrame, 0u64) == (empty_s, empty_a, empty_a));
    assert(spec_broadcast::<TestStore>(empty_s, ActionV::Test(n), 0u64) == (empty_s, empty_a, empty_a));

    // step 1: the start action is popped and broadcast; nothing is emitted.
    let d1 = DispState { primary: seq![ActionV::EndFrame], dt: e1, ..d0 };
    assert(d0.primary.subrange(1, 2) =~= seq![ActionV::EndFrame]);
    assert(seq![st0] + empty_s =~= seq![st0]);
    assert(empty_a + empty_a =~= empty_a);
    assert(seq![ActionV::EndFrame] + empty_a =~= seq![ActionV::EndFrame]);
    assert(d0.spec_dispatch(now).0 =~= d1);

    // step 2: the frame boundary resets the window and makes the store emit
    // the test action onto the primary queue.
    let d2 = DispState {
        primary: seq![ActionV::Test(n)],
        stack_start_time: now,
        dt: 0,
        ..d0
    };
    assert(d1.primary.subrange(1, 1) =~= empty_a);
    assert(empty_a + (seq![ActionV::Test(n)] + empty_a) =~= seq![ActionV::Test(n)]);
    assert(d1.spec_dispatch(now).0 =~= d2);

    // step 3: the test action is delivered; the store records n.
    let d3 = DispState { primary: empty_a, stores: seq![stn], stack_start_time: now, dt: 0, ..d0 };
    assert(d2.primary.subrange(1, 1) =~= empty_a);
    assert(seq![stn] + empty_s =~= seq![stn]);
    assert(empty_a + (empty_a + empty_a) =~= empty_a);
    assert(d2.spec_dispatch(now).0 =~= d3);

    // step 4: the primary queue is empty and the budget is open, so the
    // dispatcher flips to the secondary queue without broadcasting.
    assert(spec_elapsed(now, now) == 0);
    let d4 = DispState { use_secondary: true, ..d3 };
    assert(d3.spec_dispatch(now).0 =~= d4);

    // step 5: the secondary queue is empty, forcing a frame boundary; the
    // store emits the test action again.
    let d5 = DispState { primary: seq![ActionV::Test(n)], use_secondary: false, ..d3 };
    assert(empty_a + (seq![ActionV::Test(n)] + empty_a) =~= seq![ActionV::Test(n)]);
    assert(d4.spec_dispatch(now).0 =~= d5);

    // step 6: the test action is delivered again; the state closes the cycle.
    assert(d5.primary.subrange(1, 1) =~= empty_a);
    assert(empty_a + (empty_a + empty_a) =~= empty_a);
    assert(d5.spec_dispatch(now).0 =~= d3);

    // steps 7 to 9 repeat the cycle.
    assert(spec_run(d0, now, 9) == spec_run(d1, now, 8));
    assert(spec_run(d1, now, 8) == spec_run(d2, now, 7));
    assert(spec_run(d2, now, 7) == spec_run(d3, now, 6));
    assert(spec_run(d3, now, 6) == spec_run(d4, now, 5));
    assert(spec_run(d4, now, 5) == spec_run(d5, now, 4));
    assert(spec_run(d5, now, 4) == spec_run(d3, now, 3));
    assert(spec_run(d3, now, 3) == spec_run(d4, now, 2));
    assert(spec_run(d4, now, 2) == spec_run(d5, now, 1));
    assert(spec_run(d5, now, 1) == spec_run(d3, now, 0));
    assert(spec_run(d3, now, 0) == d3);
    assert(spec_run(d0, now, 9).stores[0] == stn);
}

} // verus!

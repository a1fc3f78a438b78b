use std::collections::VecDeque;

use vstd::prelude::*;

use crate::action::Action;
use crate::action::ActionV;
use crate::action::MenuSubAction;
use crate::action::MenuSubActionV;
use crate::action::views_of;
use crate::clock::now_micros;
use crate::store::ReceiveActionReturnOption;
use crate::store::Store;
use crate::store::elem_views;

verus! {

/// Whether the dispatcher runs normally or sits in the suspended menu mode.
/// `InMenu` records how much of the budget window (in microseconds) had
/// already elapsed when the menu was entered, so leaving the menu can resume
/// the same window.
#[derive(Clone, Copy, PartialEq, Eq, Structural, Debug)]
pub enum MenuState {
    NotInMenu,
    InMenu(u64),
}

/// Mathematical model of a dispatcher: queues as action-view sequences, the
/// stores in registration order, and the budget bookkeeping.
#[verifier::ext_equal]
pub struct DispState<S: Store> {
    pub primary: Seq<ActionV>,
    pub secondary: Seq<ActionV>,
    pub stores: Seq<S::V>,
    pub menu_state: MenuState,
    pub use_secondary: bool,
    pub max_stack_time: u64,
    pub stack_start_time: u64,
    pub dt: u64,
}

/// `a - b`, floored at zero.
pub open spec fn sat_sub(a: u64, b: u64) -> u64 {
    if a >= b {
        (a - b) as u64
    } else {
        0
    }
}

/// The time elapsed since `start` at clock reading `now`, floored at zero so
/// that a clock running backwards never underflows the window.
pub open spec fn spec_elapsed(start: u64, now: u64) -> u64 {
    sat_sub(now, start)
}

/// The position of the first menu action in `q` at or after `i`, searching
/// strictly below `bound`.
pub open spec fn first_menu_index(q: Seq<ActionV>, i: int, bound: int) -> Option<int>
    decreases bound - i,
{
    if i < 0 || i >= bound || bound > q.len() {
        None
    } else if q[i] matches ActionV::Menu(_) {
        Some(i)
    } else {
        first_menu_index(q, i + 1, bound)
    }
}

/// One broadcast pass: every store in order receives `a` once; the result is
/// the new store sequence, the actions appended to the primary queue and the
/// actions appended to the secondary queue, in emission order.
pub open spec fn spec_broadcast<S: Store>(stores: Seq<S::V>, a: ActionV, dt: u64) -> (Seq<S::V>,
    Seq<ActionV>, Seq<ActionV>)
    decreases stores.len(),
{
    if stores.len() == 0 {
        (Seq::<S::V>::empty(), Seq::<ActionV>::empty(), Seq::<ActionV>::empty())
    } else {
        let s0 = stores[0];
        let em = S::sp_emits(s0, a, dt);
        let to_sec = S::sp_to_secondary(s0, a, dt);
        let rest = spec_broadcast::<S>(stores.subrange(1, stores.len() as int), a, dt);
        (
            seq![S::sp_next(s0, a, dt)] + rest.0,
            (if to_sec {
                Seq::<ActionV>::empty()
            } else {
                em
            }) + rest.1,
            (if to_sec {
                em
            } else {
                Seq::<ActionV>::empty()
            }) + rest.2,
        )
    }
}

/// Every store is stepped exactly once, in registration order, by one
/// broadcast pass.
pub proof fn lemma_broadcast_steps_each_store<S: Store>(stores: Seq<S::V>, a: ActionV, dt: u64)
    ensures
        spec_broadcast::<S>(stores, a, dt).0.len() == stores.len(),
        forall|i: int|
            0 <= i < stores.len() ==> spec_broadcast::<S>(stores, a, dt).0[i] == S::sp_next(
                #[trigger] stores[i],
                a,
                dt,
            ),
    decreases stores.len(),
{
    if stores.len() > 0 {
        let tail = stores.subrange(1, stores.len() as int);
        lemma_broadcast_steps_each_store::<S>(tail, a, dt);
        assert forall|i: int| 0 <= i < stores.len() implies spec_broadcast::<S>(stores, a, dt).0[i]
            == S::sp_next(#[trigger] stores[i], a, dt) by {
            if i > 0 {
                assert(tail[i - 1] == stores[i]);
            }
        }
    }
}

impl<S: Store> DispState<S> {
    /// Every registered store is well formed.
    pub open spec fn wf(self) -> bool {
        forall|i: int| 0 <= i < self.stores.len() ==> S::inv(#[trigger] self.stores[i])
    }

    /// Whether the current budget window is used up at clock reading `now`.
    pub open spec fn budget_spent(self, now: u64) -> bool {
        spec_elapsed(self.stack_start_time, now) >= self.max_stack_time
    }

    /// Which action one dispatch step selects at clock reading `now`, and the
    /// state after the selection: the secondary queue is drained while
    /// `use_secondary` holds (with a frame boundary once the budget is spent
    /// or the queue is empty); otherwise the primary queue is popped, menu
    /// sub-actions other than the mode toggle are discarded outside menu
    /// mode, and in menu mode the first menu action short of the queue's last
    /// entry jumps the queue, a synthesized wait-for-input keeping the menu
    /// alive when none is found.
    pub open spec fn spec_select(self, now: u64) -> (DispState<S>, Option<ActionV>) {
        if self.use_secondary {
            if self.budget_spent(now) {
                (self, Some(ActionV::EndFrame))
            } else if self.secondary.len() > 0 {
                (
                    DispState { secondary: self.secondary.subrange(1, self.secondary.len() as int), ..self },
                    Some(self.secondary[0]),
                )
            } else {
                (self, Some(ActionV::EndFrame))
            }
        } else {
            match self.menu_state {
                MenuState::NotInMenu => {
                    if self.primary.len() > 0 {
                        let popped = DispState {
                            primary: self.primary.subrange(1, self.primary.len() as int),
                            ..self
                        };
                        match self.primary[0] {
                            ActionV::Menu(sub) => if sub == MenuSubActionV::ChangeMenuState {
                                (popped, Some(self.primary[0]))
                            } else {
                                (popped, None)
                            },
                            _ => (popped, Some(self.primary[0])),
                        }
                    } else if self.budget_spent(now) {
                        (self, Some(ActionV::EndFrame))
                    } else {
                        (DispState { use_secondary: true, ..self }, None)
                    }
                },
                MenuState::InMenu(_) => {
                    match first_menu_index(self.primary, 0, self.primary.len() - 1) {
                        Some(i) => (
                            DispState { primary: self.primary.remove(i), ..self },
                            Some(self.primary[i]),
                        ),
                        None => (self, Some(ActionV::Menu(MenuSubActionV::WaitForInput))),
                    }
                },
            }
        }
    }

    /// The dispatcher-level side effect of the selected action, before any
    /// broadcast: a frame boundary resets the budget window and leaves the
    /// secondary queue; the menu toggle captures the elapsed budget on entry
    /// and rewinds the window start on exit so the used time survives the
    /// round trip.
    pub open spec fn spec_control(self, a: ActionV, now: u64) -> DispState<S> {
        match a {
            ActionV::EndFrame => DispState {
                use_secondary: false,
                stack_start_time: now,
                ..self
            },
            ActionV::Menu(sub) => if sub == MenuSubActionV::ChangeMenuState {
                match self.menu_state {
                    MenuState::InMenu(delta) => DispState {
                        stack_start_time: sat_sub(now, delta),
                        menu_state: MenuState::NotInMenu,
                        ..self
                    },
                    MenuState::NotInMenu => DispState {
                        menu_state: MenuState::InMenu(
                            spec_elapsed(self.stack_start_time, now),
                        ),
                        ..self
                    },
                }
            } else {
                self
            },
            _ => self,
        }
    }

    /// One full dispatch step at clock reading `now`: select an action, apply
    /// its dispatcher-level side effect, and (unless it quits the run or no
    /// action was produced) broadcast it to every store in registration
    /// order, appending each store's emitted batch to the queue its flag
    /// names. The boolean is the continue signal: false only for a quit.
    pub open spec fn spec_dispatch(self, now: u64) -> (DispState<S>, bool) {
        let sel = self.spec_select(now);
        let d1 = sel.0;
        match sel.1 {
            None => (d1, true),
            Some(a) => {
                if a == ActionV::Quit || a == ActionV::Menu(MenuSubActionV::Quit) {
                    (d1, false)
                } else {
                    let d2 = d1.spec_control(a, now);
                    let dt = spec_elapsed(d2.stack_start_time, now);
                    let b = spec_broadcast::<S>(d2.stores, a, dt);
                    (
                        DispState {
                            stores: b.0,
                            primary: d2.primary + b.1,
                            secondary: d2.secondary + b.2,
                            dt: dt,
                            ..d2
                        },
                        true,
                    )
                }
            },
        }
    }
}

/// A Dispatcher in the Flux pattern sense. All traffic goes through here, in
/// the form of Actions.
///
/// This implementation uses a primary and a secondary FIFO queue. The primary
/// queue should only be used for Actions that need to be dispatched during
/// the given frame. All other Actions should go in the secondary queue, to be
/// dispatched when resources are available.
pub struct Dispatcher<S> {
    pub primary_action_queue: VecDeque<Action>,
    pub secondary_action_queue: VecDeque<Action>,
    pub stores: Vec<S>,
    pub menu_state: MenuState,
    pub use_secondary: bool,
    pub max_stack_time: u64,
    pub current_stack_start_time: u64,
    pub dt: u64,
}

impl<S: Store> View for Dispatcher<S> {
    type V = DispState<S>;

    open spec fn view(&self) -> DispState<S> {
        DispState {
            primary: views_of(self.primary_action_queue@),
            secondary: views_of(self.secondary_action_queue@),
            stores: elem_views(self.stores@),
            menu_state: self.menu_state,
            use_secondary: self.use_secondary,
            max_stack_time: self.max_stack_time,
            stack_start_time: self.current_stack_start_time,
            dt: self.dt,
        }
    }
}

/// Mapping to views commutes with appending one action.
pub proof fn lemma_views_of_push(q: Seq<Action>, a: Action)
    ensures
        views_of(q.push(a)) == views_of(q).push(a@),
{
    assert(views_of(q.push(a)) =~= views_of(q).push(a@));
}

/// Mapping to views commutes with taking a subrange.
pub proof fn lemma_views_of_subrange(q: Seq<Action>, i: int, j: int)
    requires
        0 <= i <= j <= q.len(),
    ensures
        views_of(q.subrange(i, j)) == views_of(q).subrange(i, j),
{
    assert(views_of(q.subrange(i, j)) =~= views_of(q).subrange(i, j));
}

/// Mapping to views commutes with removing one entry.
pub proof fn lemma_views_of_remove(q: Seq<Action>, i: int)
    requires
        0 <= i < q.len(),
    ensures
        views_of(q.remove(i)) == views_of(q).remove(i),
{
    assert(views_of(q.remove(i)) =~= views_of(q).remove(i));
}

/// The elapsed time since `start` at clock reading `now`, in microseconds.
fn elapsed_micros(start: u64, now: u64) -> (r: u64)
    ensures
        r == spec_elapsed(start, now),
{
    if now >= start {
        now - start
    } else {
        0
    }
}

impl<S: Store> Dispatcher<S> {
    /// Creates a new Dispatcher, its primary queue seeded with a start action
    /// and a first frame boundary. The budget window opens at the current
    /// clock reading.
    pub fn new(max_stack_time: u64) -> (r: Self)
        ensures
            r@.primary == seq![ActionV::Start, ActionV::EndFrame],
            r@.secondary == Seq::<ActionV>::empty(),
            r@.stores == Seq::<S::V>::empty(),
            r@.menu_state == MenuState::NotInMenu,
            r@.use_secondary == false,
            r@.max_stack_time == max_stack_time,
            r@.dt == 0,
            r@.wf(),
    {
        let mut primary_action_queue: VecDeque<Action> = VecDeque::new();
        primary_action_queue.push_back(Action::StartAction);
        primary_action_queue.push_back(Action::EndFrameAction);
        proof {
            assert(views_of(primary_action_queue@) =~= seq![ActionV::Start, ActionV::EndFrame]);
            assert(views_of(Seq::<Action>::empty()) =~= Seq::<ActionV>::empty());
            assert(elem_views(Seq::<S>::empty()) =~= Seq::<S::V>::empty());
        }
        Self {
            primary_action_queue,
            secondary_action_queue: VecDeque::new(),
            stores: Vec::new(),
            menu_state: MenuState::NotInMenu,
            use_secondary: false,
            max_stack_time,
            current_stack_start_time: now_micros(),
            dt: 0,
        }
    }

    /// Adds an action to the primary queue.
    pub fn add_action_primary(&mut self, action: Action)
        ensures
            final(self)@ == (DispState { primary: old(self)@.primary.push(action@), ..old(self)@ }),
            final(self).stores == old(self).stores,
    {
        proof {
            lemma_views_of_push(self.primary_action_queue@, action);
        }
        self.primary_action_queue.push_back(action)
    }

    /// Adds an action to the secondary queue.
    pub fn add_action_secondary(&mut self, action: Action)
        ensures
            final(self)@ == (DispState {
                secondary: old(self)@.secondary.push(action@),
                ..old(self)@
            }),
            final(self).stores == old(self).stores,
    {
        proof {
            lemma_views_of_push(self.secondary_action_queue@, action);
        }
        self.secondary_action_queue.push_back(action)
    }

    /// Used to enter all stores before starting the dispatcher. Additive: the
    /// given stores are appended to the slot sequence in order.
    pub fn enter_refs(&mut self, references: Vec<S>)
        ensures
            final(self)@ == (DispState {
                stores: old(self)@.stores + elem_views(references@),
                ..old(self)@
            }),
    {
        let mut refs = references;
        let ghost r0 = refs@;
        let ghost s0 = self.stores@;
        let ghost mut k: int = 0;
        while refs.len() > 0
            invariant
                0 <= k <= r0.len(),
                refs@ == r0.subrange(k, r0.len() as int),
                self.stores@ == s0 + r0.subrange(0, k),
                self.primary_action_queue == old(self).primary_action_queue,
                self.secondary_action_queue == old(self).secondary_action_queue,
                self.menu_state == old(self).menu_state,
                self.use_secondary == old(self).use_secondary,
                self.max_stack_time == old(self).max_stack_time,
                self.current_stack_start_time == old(self).current_stack_start_time,
                self.dt == old(self).dt,
            decreases refs@.len(),
        {
            let s = refs.remove(0);
            self.stores.push(s);
            proof {
                k = k + 1;
                assert(refs@ =~= r0.subrange(k, r0.len() as int));
                assert(self.stores@ =~= s0 + r0.subrange(0, k));
            }
        }
        proof {
            assert(r0.subrange(0, r0.len() as int) =~= r0);
            assert(self.stores@ == s0 + r0);
            assert(elem_views(s0 + r0) =~= elem_views(s0) + elem_views(r0));
        }
    }

    /// Used to drop all stores before ending the game loop.
    pub fn drop_refs(&mut self)
        ensures
            final(self)@ == (DispState { stores: Seq::<S::V>::empty(), ..old(self)@ }),
    {
        self.stores.clear();
        proof {
            assert(elem_views(self.stores@) =~= Seq::<S::V>::empty());
        }
    }

    /// Selects the action for this dispatch step from the appropriate queue,
    /// applying the selection side effects the model describes.
    fn get_in_action(&mut self, now: u64) -> (r: Option<Action>)
        ensures
            final(self)@ == old(self)@.spec_select(now).0,
            match (r, old(self)@.spec_select(now).1) {
                (Some(a), Some(av)) => a@ == av,
                (None, None) => true,
                _ => false,
            },
            final(self).stores == old(self).stores,
    {
        let ghost d0 = self@;
        if self.use_secondary {
            if elapsed_micros(self.current_stack_start_time, now) >= self.max_stack_time {
                return Some(Action::EndFrameAction);
            }
            match self.secondary_action_queue.pop_front() {
                Some(x) => {
                    proof {
                        lemma_views_of_subrange(
                            old(self).secondary_action_queue@,
                            1,
                            old(self).secondary_action_queue@.len() as int,
                        );
                    }
                    Some(x)
                },
                None => Some(Action::EndFrameAction),
            }
        } else {
            match self.menu_state {
                MenuState::NotInMenu => {
                    match self.primary_action_queue.pop_front() {
                        Some(x) => {
                            proof {
                                lemma_views_of_subrange(
                                    old(self).primary_action_queue@,
                                    1,
                                    old(self).primary_action_queue@.len() as int,
                                );
                            }
                            match x {
                                Action::MenuAction(sub) => {
                                    match sub {
                                        MenuSubAction::ChangeMenuStateAction => Some(
                                            Action::MenuAction(
                                                MenuSubAction::ChangeMenuStateAction,
                                            ),
                                        ),
                                        _ => None,
                                    }
                                },
                                _ => Some(x),
                            }
                        },
                        None => {
                            if elapsed_micros(self.current_stack_start_time, now)
                                >= self.max_stack_time {
                                Some(Action::EndFrameAction)
                            } else {
                                self.use_secondary = true;
                                None
                            }
                        },
                    }
                },
                MenuState::InMenu(_) => {
                    let len = self.primary_action_queue.len();
                    let mut remove_index: Option<usize> = None;
                    if len > 0 {
                        let mut index: usize = 0;
                        while index < len - 1
                            invariant
                                len == self.primary_action_queue@.len(),
                                len > 0,
                                index <= len - 1,
                                *self == *old(self),
                                d0 == self@,
                                match remove_index {
                                    Option::None => first_menu_index(
                                        d0.primary,
                                        0,
                                        len as int - 1,
                                    ) == first_menu_index(d0.primary, index as int, len as int - 1),
                                    Option::Some(j) => j < len - 1 && first_menu_index(
                                        d0.primary,
                                        0,
                                        len as int - 1,
                                    ) == Some(j as int),
                                },
                            decreases len - index,
                        {
                            if remove_index.is_none() {
                                let entry = &self.primary_action_queue[index];
                                proof {
                                    assert(d0.primary == views_of(self.primary_action_queue@));
                                    assert(d0.primary.len() == len);
                                    assert(entry@ == d0.primary[index as int]);
                                }
                                match entry {
                                    Action::MenuAction(_) => {
                                        proof {
                                            assert(d0.primary[index as int] matches ActionV::Menu(
                                                _,
                                            ));
                                        }
                                        remove_index = Some(index);
                                    },
                                    _ => {
                                        proof {
                                            assert(!(d0.primary[index as int]
                                                matches ActionV::Menu(_)));
                                            assert(first_menu_index(
                                                d0.primary,
                                                index as int,
                                                len as int - 1,
                                            ) == first_menu_index(
                                                d0.primary,
                                                index as int + 1,
                                                len as int - 1,
                                            ));
                                        }
                                    },
                                }
                            }
                            index += 1;
                        }
                    }
                    match remove_index {
                        Some(i) => {
                            match self.primary_action_queue.remove(i) {
                                Some(action) => {
                                    proof {
                                        lemma_views_of_remove(
                                            old(self).primary_action_queue@,
                                            i as int,
                                        );
                                    }
                                    Some(action)
                                },
                                None => None,
                            }
                        },
                        None => Some(Action::MenuAction(MenuSubAction::WaitForInputAction)),
                    }
                },
            }
        }
    }

    /// One dispatch step at clock reading `now`: works through the two queues
    /// and dispatches the selected action by calling `receive_action` on
    /// every registered store, appending each emitted batch to the queue its
    /// flag names. Returns the continue signal: false only for a quit.
    pub fn dispatch_at(&mut self, now: u64) -> (r: bool)
        requires
            old(self)@.wf(),
        ensures
            final(self)@.wf(),
            final(self)@ == old(self)@.spec_dispatch(now).0,
            r == old(self)@.spec_dispatch(now).1,
    {
        let ghost d0 = self@;
        let ghost sel = d0.spec_select(now);

        let in_action: Action;
        match self.get_in_action(now) {
            Some(a) => {
                in_action = a;
            },
            None => {
                return true;
            },
        }
        let ghost av = in_action@;

        match &in_action {
            Action::EndFrameAction => {
                self.use_secondary = false;
                self.current_stack_start_time = now;
            },
            Action::MenuAction(sub) => {
                match sub {
                    MenuSubAction::ChangeMenuStateAction => {
                        match self.menu_state {
                            MenuState::InMenu(delta) => {
                                self.current_stack_start_time = if now >= delta {
                                    now - delta
                                } else {
                                    0
                                };
                                self.menu_state = MenuState::NotInMenu;
                            },
                            MenuState::NotInMenu => {
                                let e = elapsed_micros(self.current_stack_start_time, now);
                                self.menu_state = MenuState::InMenu(e);
                            },
                        }
                    },
                    MenuSubAction::QuitAction => {
                        return false;
                    },
                    _ => {},
                }
            },
            Action::QuitAction => {
                return false;
            },
            _ => {},
        }
        let ghost d2 = sel.0.spec_control(av, now);
        proof {
            assert(self@ =~= d2);
        }

        let dt = elapsed_micros(self.current_stack_start_time, now);
        self.dt = dt;
        let ghost d3 = DispState { dt: dt, ..d2 };
        let ghost s0 = elem_views(self.stores@);
        let ghost b = spec_broadcast::<S>(s0, av, dt);
        proof {
            assert(self@ =~= d3);
            assert(s0 == d2.stores);
            assert(s0 == d0.stores);
            assert(s0.subrange(0, s0.len() as int) =~= s0);
            assert(views_of(self.primary_action_queue@) + spec_broadcast::<S>(
                s0.subrange(0, s0.len() as int),
                av,
                dt,
            ).1 =~= d3.primary + b.1);
            assert(views_of(self.secondary_action_queue@) + spec_broadcast::<S>(
                s0.subrange(0, s0.len() as int),
                av,
                dt,
            ).2 =~= d3.secondary + b.2);
        }

        let n = self.stores.len();
        let mut index: usize = 0;
        while index < n
            invariant
                index <= n,
                n == s0.len(),
                self.stores@.len() == n,
                av == in_action@,
                b == spec_broadcast::<S>(s0, av, dt),
                forall|j: int|
                    0 <= j < index ==> (#[trigger] self.stores@[j])@ == S::sp_next(s0[j], av, dt)
                        && S::inv(self.stores@[j]@),
                forall|j: int| index <= j < n ==> (#[trigger] self.stores@[j])@ == s0[j],
                forall|j: int| index <= j < n ==> S::inv(#[trigger] s0[j]),
                views_of(self.primary_action_queue@) + spec_broadcast::<S>(
                    s0.subrange(index as int, n as int),
                    av,
                    dt,
                ).1 == d3.primary + b.1,
                views_of(self.secondary_action_queue@) + spec_broadcast::<S>(
                    s0.subrange(index as int, n as int),
                    av,
                    dt,
                ).2 == d3.secondary + b.2,
                self.menu_state == d3.menu_state,
                self.use_secondary == d3.use_secondary,
                self.max_stack_time == d3.max_stack_time,
                self.current_stack_start_time == d3.stack_start_time,
                self.dt == d3.dt,
            decreases n - index,
        {
            let ghost suffix = s0.subrange(index as int, n as int);
            proof {
                assert(suffix.len() > 0);
                assert(suffix[0] == s0[index as int]);
                assert(suffix.subrange(1, suffix.len() as int) =~= s0.subrange(
                    index as int + 1,
                    n as int,
                ));
            }
            let ghost qp0 = views_of(self.primary_action_queue@);
            let ghost qs0 = views_of(self.secondary_action_queue@);
            let batch = self.stores[index].receive_action(&in_action, dt);
            let ghost st1 = self.stores@;
            match batch {
                ReceiveActionReturnOption::NewAction(out_vec, add_to_secondary) => {
                    let ghost e0 = views_of(out_vec@);
                    let mut out_vec = out_vec;
                    if add_to_secondary {
                        while out_vec.len() > 0
                            invariant
                                views_of(self.secondary_action_queue@) + views_of(out_vec@) == qs0
                                    + e0,
                                views_of(self.primary_action_queue@) == qp0,
                                self.stores@ == st1,
                                self.menu_state == d3.menu_state,
                                self.use_secondary == d3.use_secondary,
                                self.max_stack_time == d3.max_stack_time,
                                self.current_stack_start_time == d3.stack_start_time,
                                self.dt == d3.dt,
                            decreases out_vec@.len(),
                        {
                            let ghost o0 = out_vec@;
                            let a = out_vec.remove(0);
                            self.add_action_secondary(a);
                            proof {
                                lemma_views_of_remove(o0, 0);
                                assert(views_of(self.secondary_action_queue@) + views_of(out_vec@)
                                    =~= qs0 + e0);
                            }
                        }
                    } else {
                        while out_vec.len() > 0
                            invariant
                                views_of(self.primary_action_queue@) + views_of(out_vec@) == qp0
                                    + e0,
                                views_of(self.secondary_action_queue@) == qs0,
                                self.stores@ == st1,
                                self.menu_state == d3.menu_state,
                                self.use_secondary == d3.use_secondary,
                                self.max_stack_time == d3.max_stack_time,
                                self.current_stack_start_time == d3.stack_start_time,
                                self.dt == d3.dt,
                            decreases out_vec@.len(),
                        {
                            let ghost o0 = out_vec@;
                            let a = out_vec.remove(0);
                            self.add_action_primary(a);
                            proof {
                                lemma_views_of_remove(o0, 0);
                                assert(views_of(self.primary_action_queue@) + views_of(out_vec@)
                                    =~= qp0 + e0);
                            }
                        }
                    }
                    proof {
                        assert(views_of(out_vec@) =~= Seq::<ActionV>::empty());
                        if add_to_secondary {
                            assert(views_of(self.secondary_action_queue@) =~= qs0 + e0);
                            assert(views_of(self.primary_action_queue@) + spec_broadcast::<S>(
                                s0.subrange(index as int + 1, n as int),
                                av,
                                dt,
                            ).1 =~= d3.primary + b.1);
                            assert(views_of(self.secondary_action_queue@) + spec_broadcast::<S>(
                                s0.subrange(index as int + 1, n as int),
                                av,
                                dt,
                            ).2 =~= d3.secondary + b.2);
                        } else {
                            assert(views_of(self.primary_action_queue@) =~= qp0 + e0);
                            assert(views_of(self.primary_action_queue@) + spec_broadcast::<S>(
                                s0.subrange(index as int + 1, n as int),
                                av,
                                dt,
                            ).1 =~= d3.primary + b.1);
                            assert(views_of(self.secondary_action_queue@) + spec_broadcast::<S>(
                                s0.subrange(index as int + 1, n as int),
                                av,
                                dt,
                            ).2 =~= d3.secondary + b.2);
                        }
                    }
                },
                ReceiveActionReturnOption::NoNewAction => {
                    proof {
                        assert(views_of(self.primary_action_queue@) + spec_broadcast::<S>(
                            s0.subrange(index as int + 1, n as int),
                            av,
                            dt,
                        ).1 =~= d3.primary + b.1);
                        assert(views_of(self.secondary_action_queue@) + spec_broadcast::<S>(
                            s0.subrange(index as int + 1, n as int),
                            av,
                            dt,
                        ).2 =~= d3.secondary + b.2);
                    }
                },
            }
            index += 1;
        }
        proof {
            assert(s0.subrange(n as int, n as int) =~= Seq::<S::V>::empty());
            assert(views_of(self.primary_action_queue@) =~= views_of(self.primary_action_queue@)
                + spec_broadcast::<S>(s0.subrange(n as int, n as int), av, dt).1);
            assert(views_of(self.secondary_action_queue@) =~= views_of(
                self.secondary_action_queue@,
            ) + spec_broadcast::<S>(s0.subrange(n as int, n as int), av, dt).2);
            lemma_broadcast_steps_each_store::<S>(s0, av, dt);
            assert(elem_views(self.stores@) =~= b.0);
            assert(self@ =~= (DispState {
                stores: b.0,
                primary: d2.primary + b.1,
                secondary: d2.secondary + b.2,
                dt: dt,
                ..d2
            }));
        }
        true
    }

    /// One dispatch step at the current clock reading. What holds of the step
    /// is stated for every possible reading.
    pub fn dispatch(&mut self) -> (r: bool)
        requires
            old(self)@.wf(),
        ensures
            final(self)@.wf(),
            exists|now: u64|
                #![auto]
                final(self)@ == old(self)@.spec_dispatch(now).0 && r == old(self)@.spec_dispatch(
                    now,
                ).1,
    {
        let now = now_micros();
        let r = self.dispatch_at(now);
        r
    }
}

/// The dispatcher state after `k` dispatch steps, all at clock reading `now`.
pub open spec fn spec_run<S: Store>(d: DispState<S>, now: u64, k: nat) -> DispState<S>
    decreases k,
{
    if k == 0 {
        d
    } else {
        spec_run(d.spec_dispatch(now).0, now, (k - 1) as nat)
    }
}

/// The dispatcher state after working through a sequence of clock readings,
/// one dispatch step per reading, stopping at the first step that signals
/// termination.
pub open spec fn spec_run_trace<S: Store>(d: DispState<S>, readings: Seq<u64>) -> DispState<S>
    decreases readings.len(),
{
    if readings.len() == 0 {
        d
    } else {
        let step = d.spec_dispatch(readings[0]);
        if step.1 {
            spec_run_trace(step.0, readings.subrange(1, readings.len() as int))
        } else {
            step.0
        }
    }
}

/// Whether every dispatch step along `readings` signals continuation.
pub open spec fn spec_trace_live<S: Store>(d: DispState<S>, readings: Seq<u64>) -> bool
    decreases readings.len(),
{
    readings.len() == 0 || (d.spec_dispatch(readings[0]).1 && spec_trace_live(
        d.spec_dispatch(readings[0]).0,
        readings.subrange(1, readings.len() as int),
    ))
}

/// Extending a trace whose steps all continued by one more reading performs
/// exactly one more dispatch step.
pub proof fn lemma_run_trace_snoc<S: Store>(d: DispState<S>, readings: Seq<u64>, n: u64)
    requires
        spec_trace_live(d, readings),
    ensures
        spec_run_trace(d, readings.push(n)) == spec_run_trace(d, readings).spec_dispatch(n).0,
        spec_run_trace(d, readings).spec_dispatch(n).1 ==> spec_trace_live(d, readings.push(n)),
        !spec_run_trace(d, readings).spec_dispatch(n).1 ==> !spec_trace_live(d, readings.push(n)),
    decreases readings.len(),
{
    if readings.len() == 0 {
        let one = readings.push(n);
        assert(one[0] == n);
        assert(one.subrange(1, 1) =~= Seq::<u64>::empty());
        let step = d.spec_dispatch(n);
        assert(spec_run_trace(d, readings) == d);
        assert(spec_run_trace(step.0, one.subrange(1, 1)) == step.0);
        assert(spec_run_trace(d, one) == step.0);
        if step.1 {
            assert(spec_trace_live(step.0, one.subrange(1, 1)));
            assert(spec_trace_live(d, one));
        } else {
            assert(!spec_trace_live(d, one));
        }
    } else {
        let step = d.spec_dispatch(readings[0]);
        let tail = readings.subrange(1, readings.len() as int);
        let ext = readings.push(n);
        assert(ext[0] == readings[0]);
        assert(ext.subrange(1, readings.len() as int + 1) =~= tail.push(n));
        assert(spec_trace_live(step.0, tail));
        lemma_run_trace_snoc(step.0, tail, n);
        assert(spec_run_trace(d, ext) == spec_run_trace(step.0, tail.push(n)));
        assert(spec_run_trace(d, readings) == spec_run_trace(step.0, tail));
        if spec_run_trace(d, readings).spec_dispatch(n).1 {
            assert(spec_trace_live(step.0, tail.push(n)));
            assert(spec_trace_live(d, ext));
        } else {
            assert(!spec_trace_live(step.0, tail.push(n)));
            assert(!spec_trace_live(d, ext));
        }
    }
}

/// A selection step never touches the registered stores.
pub proof fn lemma_select_keeps_stores<S: Store>(d: DispState<S>, now: u64)
    ensures
        d.spec_select(now).0.stores == d.stores,
{
}

/// Delivery order invariant: a dispatch step that selects an action which
/// does not quit the run steps every registered store exactly once, in
/// registration order, with that one action; a step that selects nothing
/// leaves every store untouched.
pub proof fn lemma_delivery_order<S: Store>(d: DispState<S>, now: u64)
    ensures
        ({
            let sel = d.spec_select(now);
            match sel.1 {
                Some(a) => (a != ActionV::Quit && a != ActionV::Menu(MenuSubActionV::Quit)) ==> {
                    let d2 = sel.0.spec_control(a, now);
                    let dt = spec_elapsed(d2.stack_start_time, now);
                    let dn = d.spec_dispatch(now).0;
                    &&& dn.stores.len() == d.stores.len()
                    &&& forall|i: int|
                        0 <= i < d.stores.len() ==> dn.stores[i] == S::sp_next(
                            #[trigger] d.stores[i],
                            a,
                            dt,
                        )
                },
                None => d.spec_dispatch(now).0.stores == d.stores,
            }
        }),
{
    let sel = d.spec_select(now);
    lemma_select_keeps_stores(d, now);
    if sel.1 matches Some(a) && a != ActionV::Quit && a != ActionV::Menu(MenuSubActionV::Quit) {
        let a = sel.1->Some_0;
        let d2 = sel.0.spec_control(a, now);
        let dt = spec_elapsed(d2.stack_start_time, now);
        assert(d2.stores == d.stores);
        lemma_broadcast_steps_each_store::<S>(d2.stores, a, dt);
    }
}

/// Queue discipline: while the secondary queue is not being drained, a
/// selection step takes nothing from the secondary queue at all; outside
/// menu mode it consumes exactly the front of the primary queue and keeps
/// the rest in order, and every front that is not a menu sub-action — and
/// the mode toggle itself — is the action delivered. Together with
/// `add_action_primary` appending at the back, primary actions are delivered
/// first come, first served, and strictly before anything enqueued to the
/// secondary queue.
pub proof fn lemma_queue_discipline<S: Store>(d: DispState<S>, now: u64)
    requires
        !d.use_secondary,
    ensures
        d.spec_select(now).0.secondary == d.secondary,
        d.menu_state == MenuState::NotInMenu && d.primary.len() > 0 ==> {
            &&& d.spec_select(now).0.primary == d.primary.subrange(1, d.primary.len() as int)
            &&& (!(d.primary[0] matches ActionV::Menu(_)) || d.primary[0] == ActionV::Menu(
                MenuSubActionV::ChangeMenuState,
            )) ==> d.spec_select(now).1 == Some(d.primary[0])
        },
{
}

/// Budget round trip: entering menu mode at reading `n1` and leaving it again
/// at a later reading `n2`, with no frame boundary in between, preserves the
/// used share of the budget window exactly: the time counted as elapsed after
/// leaving equals the time that had elapsed on entry.
pub proof fn lemma_menu_budget_round_trip<S: Store>(d: DispState<S>, n1: u64, n2: u64)
    requires
        d.menu_state == MenuState::NotInMenu,
        n2 >= n1,
    ensures
        ({
            let toggle = ActionV::Menu(MenuSubActionV::ChangeMenuState);
            let entered = d.spec_control(toggle, n1);
            let left = entered.spec_control(toggle, n2);
            &&& entered.menu_state == MenuState::InMenu(spec_elapsed(d.stack_start_time, n1))
            &&& left.menu_state == MenuState::NotInMenu
            &&& spec_elapsed(left.stack_start_time, n2) == spec_elapsed(d.stack_start_time, n1)
        }),
{
}

/// Termination: when the selected action is a quit, top level or wrapped as a
/// menu sub-action, the dispatch step reports false and visits no store.
pub proof fn lemma_quit_terminates<S: Store>(d: DispState<S>, now: u64)
    requires
        d.spec_select(now).1 == Some(ActionV::Quit) || d.spec_select(now).1 == Some(
            ActionV::Menu(MenuSubActionV::Quit),
        ),
    ensures
        d.spec_dispatch(now).1 == false,
        d.spec_dispatch(now).0.stores == d.stores,
{
    lemma_select_keeps_stores(d, now);
}

} // verus!

use vstd::prelude::*;

use crate::action::Action;
use crate::action::ActionV;
use crate::action::MenuSubAction;
use crate::action::views_of;

verus! {

/// What a store hands back to the dispatcher: either nothing, or a batch of
/// follow-up actions together with the flag that routes them to the secondary
/// queue.
pub enum ReceiveActionReturnOption {
    NoNewAction,
    NewAction(Vec<Action>, bool),
}

/// What a scene hands back to the scene manager: either nothing, or a batch
/// of follow-up menu sub-actions.
pub enum ReceiveMSAReturnOption {
    NoNewAction,
    NewAction(Vec<MenuSubAction>),
}

/// The views of a sequence of viewable values, in order.
pub open spec fn elem_views<T: View>(s: Seq<T>) -> Seq<T::V> {
    s.map_values(|x: T| x@)
}

/// Turns any struct into a Store in the Flux pattern sense. Stores contain
/// the program's logic and communicate by way of actions through the
/// dispatcher.
///
/// A store's behaviour is pinned over its view by three specification
/// functions: the state it steps to, the batch of actions it emits, and
/// whether that batch is routed to the secondary queue. `inv` is the store's
/// well-formedness condition, which `receive_action` relies on and preserves.
pub trait Store: View + Sized {
    /// The store's well-formedness condition.
    spec fn inv(v: Self::V) -> bool;

    /// The state the store steps to on receiving `a` with elapsed time `dt`.
    spec fn sp_next(v: Self::V, a: ActionV, dt: u64) -> Self::V;

    /// The batch of actions the store emits on receiving `a`, in order.
    spec fn sp_emits(v: Self::V, a: ActionV, dt: u64) -> Seq<ActionV>;

    /// Whether the emitted batch is routed to the secondary queue.
    spec fn sp_to_secondary(v: Self::V, a: ActionV, dt: u64) -> bool;

    /// Whether the store answers with a batch at all — the `NewAction`
    /// variant — as opposed to the canonical empty answer `NoNewAction`.
    spec fn sp_responds(v: Self::V, a: ActionV, dt: u64) -> bool;

    /// The function called by the dispatcher to hand over one action, with
    /// the elapsed time of the current budget window in microseconds.
    fn receive_action(&mut self, action: &Action, dt: u64) -> (r: ReceiveActionReturnOption)
        requires
            Self::inv(old(self)@),
        ensures
            final(self)@ == Self::sp_next(old(self)@, action@, dt),
            Self::inv(final(self)@),
            (r matches ReceiveActionReturnOption::NewAction(_, _)) == Self::sp_responds(
                old(self)@,
                action@,
                dt,
            ),
            match r {
                ReceiveActionReturnOption::NoNewAction => Self::sp_emits(old(self)@, action@, dt)
                    == Seq::<ActionV>::empty(),
                ReceiveActionReturnOption::NewAction(out, to_secondary) => views_of(out@)
                    == Self::sp_emits(old(self)@, action@, dt) && to_secondary
                    == Self::sp_to_secondary(old(self)@, action@, dt),
            },
    ;
}

} // verus!

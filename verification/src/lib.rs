pub mod action;
pub mod example_obj;
pub mod boundary;
pub mod button;
pub mod clock;
pub mod dispatcher;
pub mod game_store;
pub mod img;
pub mod render;
pub mod scene_manager;
pub mod sprite;
pub mod store;
pub mod test_obj;
pub mod test_object;
pub mod test_store;

use vstd::prelude::*;

use crate::dispatcher::DispState;
use crate::dispatcher::Dispatcher;
use crate::dispatcher::lemma_run_trace_snoc;
use crate::dispatcher::spec_run_trace;
use crate::dispatcher::spec_trace_live;
use crate::store::Store;
use crate::store::elem_views;

verus! {

/// The dispatcher state once the given stores are registered: they are
/// appended, in order, to the slot sequence.
pub open spec fn spec_enter<S: Store>(d: DispState<S>, refs: Seq<S>) -> DispState<S> {
    DispState { stores: d.stores + elem_views(refs), ..d }
}

/// Front-end function of the dispatcher: registers the given stores, loops
/// dispatch steps until one signals termination or the step budget runs out,
/// then releases the stores. Pass `u64::MAX` as the budget to run until a
/// quit action ends the loop.
///
/// The contract pins the whole run: the final state is the state the
/// dispatch model reaches from the entered state along some sequence of
/// clock readings, one reading per step, with the stores released at the
/// end; and the run is complete — the trace either spends the whole step
/// budget or ends with the step that signalled termination.
pub fn game_loop<S: Store>(disp: &mut Dispatcher<S>, store_refs: Vec<S>, max_steps: u64)
    requires
        old(disp)@.wf(),
        forall|i: int| 0 <= i < store_refs@.len() ==> S::inv((#[trigger] store_refs@[i])@),
    ensures
        exists|readings: Seq<u64>|
            #![trigger spec_run_trace(spec_enter(old(disp)@, store_refs@), readings)]
            {
                &&& readings.len() <= max_steps
                &&& (readings.len() == max_steps || !spec_trace_live(
                    spec_enter(old(disp)@, store_refs@),
                    readings,
                ))
                &&& final(disp)@ == (DispState {
                    stores: Seq::<S::V>::empty(),
                    ..spec_run_trace(spec_enter(old(disp)@, store_refs@), readings)
                })
            },
{
    disp.enter_refs(store_refs);
    let ghost entered = disp@;
    let ghost mut trace: Seq<u64> = Seq::empty();
    let mut steps_left = max_steps;
    while steps_left > 0
        invariant_except_break
            disp@.wf(),
            steps_left <= max_steps,
            trace.len() == max_steps - steps_left,
            spec_trace_live(entered, trace),
            disp@ == spec_run_trace(entered, trace),
        ensures
            trace.len() <= max_steps,
            trace.len() == max_steps || !spec_trace_live(entered, trace),
            disp@ == spec_run_trace(entered, trace),
        decreases steps_left,
    {
        let ghost pre = disp@;
        let cont = disp.dispatch();
        proof {
            let n = choose|n: u64|
                #![auto]
                disp@ == pre.spec_dispatch(n).0 && cont == pre.spec_dispatch(n).1;
            lemma_run_trace_snoc(entered, trace, n);
            trace = trace.push(n);
        }
        if !cont {
            break ;
        }
        steps_left -= 1;
    }
    disp.drop_refs();
    proof {
        assert(final(disp)@ == (DispState { stores: Seq::<S::V>::empty(), ..spec_run_trace(
            entered,
            trace,
        ) }));
    }
}

} // verus!

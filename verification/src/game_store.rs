use vstd::prelude::*;

use crate::action::Action;
use crate::action::ActionV;
use crate::action::MenuSubAction;
use crate::boundary::BoundaryStore;
use crate::boundary::BoundaryV;
use crate::example_obj::ExampleObj;
use crate::scene_manager::MinimalScene;
use crate::scene_manager::SceneManager;
use crate::scene_manager::SceneManagerV;
use crate::store::ReceiveActionReturnOption;
use crate::store::Store;

verus! {

/// The store kinds a game built on this crate registers with one dispatcher:
/// the rendering boundary, animated game objects, and the menu layer. One
/// sum type, so that they can share the dispatcher's slot sequence.
pub enum GameStore<F> where F: Fn() -> MenuSubAction {
    Boundary(BoundaryStore),
    Object(ExampleObj),
    Scenes(SceneManager<MinimalScene<F>>),
}

/// Mathematical model of a game store: the model of whichever kind it is.
pub enum GameStoreV<F> where F: Fn() -> MenuSubAction {
    Boundary(BoundaryV),
    Object(ExampleObj),
    Scenes(SceneManagerV<MinimalScene<F>>),
}

impl<F: Fn() -> MenuSubAction> View for GameStore<F> {
    type V = GameStoreV<F>;

    open spec fn view(&self) -> GameStoreV<F> {
        match self {
            GameStore::Boundary(b) => GameStoreV::Boundary(b@),
            GameStore::Object(o) => GameStoreV::Object(o@),
            GameStore::Scenes(s) => GameStoreV::Scenes(s@),
        }
    }
}

impl<F: Fn() -> MenuSubAction> Store for GameStore<F> {
    open spec fn inv(v: GameStoreV<F>) -> bool {
        match v {
            GameStoreV::Boundary(b) => <BoundaryStore as Store>::inv(b),
            GameStoreV::Object(o) => <ExampleObj as Store>::inv(o),
            GameStoreV::Scenes(s) => <SceneManager<MinimalScene<F>> as Store>::inv(s),
        }
    }

    open spec fn sp_next(v: GameStoreV<F>, a: ActionV, dt: u64) -> GameStoreV<F> {
        match v {
            GameStoreV::Boundary(b) => GameStoreV::Boundary(
                <BoundaryStore as Store>::sp_next(b, a, dt),
            ),
            GameStoreV::Object(o) => GameStoreV::Object(<ExampleObj as Store>::sp_next(o, a, dt)),
            GameStoreV::Scenes(s) => GameStoreV::Scenes(
                <SceneManager<MinimalScene<F>> as Store>::sp_next(s, a, dt),
            ),
        }
    }

    open spec fn sp_emits(v: GameStoreV<F>, a: ActionV, dt: u64) -> Seq<ActionV> {
        match v {
            GameStoreV::Boundary(b) => <BoundaryStore as Store>::sp_emits(b, a, dt),
            GameStoreV::Object(o) => <ExampleObj as Store>::sp_emits(o, a, dt),
            GameStoreV::Scenes(s) => <SceneManager<MinimalScene<F>> as Store>::sp_emits(s, a, dt),
        }
    }

    open spec fn sp_to_secondary(v: GameStoreV<F>, a: ActionV, dt: u64) -> bool {
        match v {
            GameStoreV::Boundary(b) => <BoundaryStore as Store>::sp_to_secondary(b, a, dt),
            GameStoreV::Object(o) => <ExampleObj as Store>::sp_to_secondary(o, a, dt),
            GameStoreV::Scenes(s) => <SceneManager<MinimalScene<F>> as Store>::sp_to_secondary(
                s,
                a,
                dt,
            ),
        }
    }

    open spec fn sp_responds(v: GameStoreV<F>, a: ActionV, dt: u64) -> bool {
        match v {
            GameStoreV::Boundary(b) => <BoundaryStore as Store>::sp_responds(b, a, dt),
            GameStoreV::Object(o) => <ExampleObj as Store>::sp_responds(o, a, dt),
            GameStoreV::Scenes(s) => <SceneManager<MinimalScene<F>> as Store>::sp_responds(
                s,
                a,
                dt,
            ),
        }
    }

    fn receive_action(&mut self, action: &Action, dt: u64) -> (r: ReceiveActionReturnOption) {
        match self {
            GameStore::Boundary(b) => b.receive_action(action, dt),
            GameStore::Object(o) => o.receive_action(action, dt),
            GameStore::Scenes(s) => s.receive_action(action, dt),
        }
    }
}

} // verus!

use frame::action::Action;
use frame::action::MenuSubAction;
use frame::boundary::BoundaryStore;
use frame::dispatcher::Dispatcher;
use frame::game_store::GameStore;
use frame::img::Img;
use frame::scene_manager::MinimalScene;
use frame::scene_manager::SceneManager;
use frame::sprite::Sprite;
use frame::store::ReceiveActionReturnOption;
use frame::store::Store;
use frame::button::Button;

#[test]
fn boundary_records_and_emits_frame_tail() {
    let mut b = BoundaryStore::new(256, 256, 8);
    b.load_action(Action::KeyboardAction(44));
    match b.receive_action(&Action::EndFrameAction, 0) {
        ReceiveActionReturnOption::NewAction(out, to_secondary) => {
            assert!(!to_secondary);
            // The loaded input action comes first, then the fixed tail.
            assert_eq!(out.len(), 4);
            assert!(matches!(out[0], Action::KeyboardAction(44)));
            assert!(matches!(out[1], Action::UpdateAction));
            assert!(matches!(out[2], Action::SendFrameAction(256, 256, 8)));
            assert!(matches!(out[3], Action::DrawAction(true)));
        }
        ReceiveActionReturnOption::NoNewAction => panic!("a frame boundary always responds"),
    }
    // Everything delivered was recorded for the driver, and a drain empties
    // the record.
    let drained = b.drain_received();
    assert_eq!(drained.len(), 1);
    assert!(matches!(drained[0], Action::EndFrameAction));
    assert!(b.drain_received().is_empty());
}

#[test]
fn boundary_hands_out_loads_on_wait_for_input() {
    let mut b = BoundaryStore::new(256, 256, 8);
    b.load_action(Action::QuitAction);
    match b.receive_action(&Action::MenuAction(MenuSubAction::WaitForInputAction), 0) {
        ReceiveActionReturnOption::NewAction(out, _) => {
            assert_eq!(out.len(), 1);
            assert!(matches!(out[0], Action::QuitAction));
        }
        ReceiveActionReturnOption::NoNewAction => panic!("a wait hands the loads out"),
    }
    // The pending actions were handed out once.
    match b.receive_action(&Action::MenuAction(MenuSubAction::WaitForInputAction), 0) {
        ReceiveActionReturnOption::NewAction(out, _) => assert!(out.is_empty()),
        ReceiveActionReturnOption::NoNewAction => {}
    }
}

#[test]
fn boundary_ignores_ordinary_actions() {
    let mut b = BoundaryStore::new(256, 256, 8);
    match b.receive_action(&Action::UpdateAction, 0) {
        ReceiveActionReturnOption::NoNewAction => {}
        ReceiveActionReturnOption::NewAction(_, _) => panic!("nothing to say about an update"),
    }
    let drained = b.drain_received();
    assert_eq!(drained.len(), 1);
    assert!(matches!(drained[0], Action::UpdateAction));
}

type ClickFn = fn() -> MenuSubAction;

fn exit_action() -> MenuSubAction {
    MenuSubAction::QuitAction
}

#[test]
fn game_with_boundary_quits_on_loaded_quit() {
    // A whole game wiring without a real backend: a boundary store, and the
    // menu layer; a quit loaded into the boundary ends the run once it is
    // handed out at the frame boundary and drained from the queue.
    let button = Button::new(
        Sprite::new((0, 0), vec![Img::new_from_u8(8, vec![0x11; 32])], vec![(0, 1)], 0),
        exit_action as ClickFn,
    );
    let mut scenes = SceneManager::new();
    scenes.add_scenes(vec![MinimalScene::new(button)]);

    let mut boundary = BoundaryStore::new(256, 256, 8);
    boundary.load_action(Action::QuitAction);

    let mut disp: Dispatcher<GameStore<ClickFn>> = Dispatcher::new(1_000_000);
    disp.enter_refs(vec![GameStore::Boundary(boundary), GameStore::Scenes(scenes)]);

    let mut steps: u32 = 0;
    while disp.dispatch_at(0) {
        steps += 1;
        assert!(steps < 100, "the loaded quit must end the run");
    }
}

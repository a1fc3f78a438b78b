use frame::action::Action;
use frame::action::MenuSubAction;
use frame::dispatcher::Dispatcher;
use frame::dispatcher::MenuState;
use frame::game_loop;
use frame::test_store::TestStore;

#[test]
fn test_dispatcher() {
    // A TestStore instance holds a random number. The number is sent through
    // the dispatcher in a test action, which the dispatcher should hand back
    // to the store. The payload that arrives must equal the number the store
    // was seeded with.
    let mut test_num: u8 = rand::random();

    while test_num == 0 {
        test_num = rand::random()
    }

    let test_store = TestStore { in_num: test_num, out_num: 0 };

    let mut disp: Dispatcher<TestStore> = Dispatcher::new(16_666);
    disp.enter_refs(vec![test_store]);

    for _i in 1..10 {
        disp.dispatch();
    }

    assert_eq!(test_num, disp.stores[0].out_num)
}

#[test]
fn echo_round_trip_fixed_clock() {
    // The same echo scenario with the clock reading pinned to zero: nine
    // steps deliver the seeded value no matter how they are scheduled.
    let test_store = TestStore { in_num: 42, out_num: 0 };
    let mut disp: Dispatcher<TestStore> = Dispatcher::new(16_666);
    disp.enter_refs(vec![test_store]);
    for _i in 1..10 {
        disp.dispatch_at(0);
    }
    assert_eq!(disp.stores[0].out_num, 42);
}

#[test]
fn primary_queue_is_fifo() {
    let mut disp: Dispatcher<TestStore> = Dispatcher::new(1_000_000);
    disp.enter_refs(vec![TestStore { in_num: 1, out_num: 0 }]);
    disp.add_action_primary(Action::TestAction(5));
    disp.add_action_primary(Action::TestAction(7));
    // Queue now: Start, EndFrame, Test(5), Test(7); the frame boundary also
    // makes the store append Test(1) behind them.
    assert!(disp.dispatch_at(0)); // Start
    assert!(disp.dispatch_at(0)); // EndFrame
    assert!(disp.dispatch_at(0));
    assert_eq!(disp.stores[0].out_num, 5);
    assert!(disp.dispatch_at(0));
    assert_eq!(disp.stores[0].out_num, 7);
}

#[test]
fn secondary_drained_after_primary() {
    let mut disp: Dispatcher<TestStore> = Dispatcher::new(1_000_000);
    disp.enter_refs(vec![TestStore { in_num: 3, out_num: 0 }]);
    disp.add_action_secondary(Action::TestAction(9));
    assert!(disp.dispatch_at(0)); // Start
    assert!(disp.dispatch_at(0)); // EndFrame; store emits Test(3) to primary
    assert!(disp.dispatch_at(0)); // Test(3)
    assert_eq!(disp.stores[0].out_num, 3);
    assert!(disp.dispatch_at(0)); // primary empty: flip to the secondary queue
    assert!(disp.use_secondary);
    assert!(disp.dispatch_at(0)); // Test(9) from the secondary queue
    assert_eq!(disp.stores[0].out_num, 9);
}

#[test]
fn quit_action_stops_the_run() {
    let mut disp: Dispatcher<TestStore> = Dispatcher::new(1_000_000);
    disp.enter_refs(vec![TestStore { in_num: 8, out_num: 0 }]);
    disp.add_action_primary(Action::QuitAction);
    assert!(disp.dispatch_at(0)); // Start
    assert!(disp.dispatch_at(0)); // EndFrame
    // Quit sits in front of the store's echoed test action: the run ends and
    // the store is never visited with it.
    assert!(!disp.dispatch_at(0));
    assert_eq!(disp.stores[0].out_num, 0);
}

#[test]
fn menu_quit_action_stops_the_run() {
    let mut disp: Dispatcher<TestStore> = Dispatcher::new(1_000_000);
    disp.enter_refs(vec![TestStore { in_num: 8, out_num: 0 }]);
    // Outside menu mode the primary queue discards menu sub-actions other
    // than the mode toggle, so the menu quit travels the secondary queue.
    disp.add_action_secondary(Action::MenuAction(MenuSubAction::QuitAction));
    assert!(disp.dispatch_at(0)); // Start
    assert!(disp.dispatch_at(0)); // EndFrame
    assert!(disp.dispatch_at(0)); // the echoed Test(8)
    assert!(disp.dispatch_at(0)); // primary empty: flip to the secondary queue
    assert!(!disp.dispatch_at(0)); // the menu quit ends the run
}

#[test]
fn menu_quit_in_menu_mode_stops_the_run() {
    let mut disp: Dispatcher<TestStore> = Dispatcher::new(1_000_000);
    disp.enter_refs(vec![TestStore { in_num: 8, out_num: 0 }]);
    assert!(disp.dispatch_at(0)); // Start
    assert!(disp.dispatch_at(0)); // EndFrame
    assert!(disp.dispatch_at(0)); // the echoed Test(8)
    disp.add_action_primary(Action::MenuAction(MenuSubAction::ChangeMenuStateAction));
    assert!(disp.dispatch_at(0)); // enter menu mode
    disp.add_action_primary(Action::MenuAction(MenuSubAction::QuitAction));
    disp.add_action_primary(Action::EmptyAction);
    // In menu mode the quit is promoted past the queue's last entry.
    assert!(!disp.dispatch_at(0));
}

#[test]
fn menu_round_trip_preserves_budget() {
    let mut disp: Dispatcher<TestStore> = Dispatcher::new(1_000_000);
    disp.enter_refs(vec![TestStore { in_num: 1, out_num: 0 }]);
    assert!(disp.dispatch_at(0)); // Start
    assert!(disp.dispatch_at(0)); // EndFrame: the budget window opens at 0
    assert!(disp.dispatch_at(0)); // Test(1) echoed by the frame boundary
    disp.add_action_primary(Action::MenuAction(MenuSubAction::ChangeMenuStateAction));
    // Entering the menu at reading 300 captures 300 elapsed microseconds.
    assert!(disp.dispatch_at(300));
    assert!(matches!(disp.menu_state, MenuState::InMenu(300)));
    // In menu mode, the first menu action short of the last queued entry is
    // promoted; leaving at reading 500 rewinds the window start to 200, so
    // the 300 used microseconds survive the round trip.
    disp.add_action_primary(Action::MenuAction(MenuSubAction::ChangeMenuStateAction));
    disp.add_action_primary(Action::TestAction(77));
    assert!(disp.dispatch_at(500));
    assert!(matches!(disp.menu_state, MenuState::NotInMenu));
    assert_eq!(disp.current_stack_start_time, 200);
}

#[test]
fn menu_mode_discards_nothing_but_waits() {
    let mut disp: Dispatcher<TestStore> = Dispatcher::new(1_000_000);
    disp.enter_refs(vec![TestStore { in_num: 1, out_num: 0 }]);
    assert!(disp.dispatch_at(0)); // Start
    assert!(disp.dispatch_at(0)); // EndFrame
    assert!(disp.dispatch_at(0)); // Test(1)
    disp.add_action_primary(Action::MenuAction(MenuSubAction::ChangeMenuStateAction));
    assert!(disp.dispatch_at(0)); // enter menu mode
    // With no menu action queued, a wait-for-input is synthesized and the
    // queue stays as it is; a test action never jumps the queue.
    disp.add_action_primary(Action::TestAction(50));
    assert!(disp.dispatch_at(0));
    assert_eq!(disp.stores[0].out_num, 1);
}

#[test]
fn budget_exhaustion_forces_frame_boundary() {
    let mut disp: Dispatcher<TestStore> = Dispatcher::new(1_000);
    disp.enter_refs(vec![TestStore { in_num: 6, out_num: 0 }]);
    assert!(disp.dispatch_at(0)); // Start
    assert!(disp.dispatch_at(0)); // EndFrame: window opens at 0
    assert!(disp.dispatch_at(0)); // Test(6)
    assert_eq!(disp.stores[0].out_num, 6);
    // The queue is empty and the budget of 1000 microseconds is spent: an
    // EndFrame is synthesized instead of flipping to the secondary queue,
    // and the store echoes again.
    assert!(disp.dispatch_at(2_000));
    assert!(!disp.use_secondary);
    assert!(disp.dispatch_at(2_000)); // the echoed Test(6) again
}

#[test]
fn game_loop_runs_to_quit_and_releases_stores() {
    let mut disp: Dispatcher<TestStore> = Dispatcher::new(16_666);
    disp.add_action_primary(Action::QuitAction);
    game_loop(&mut disp, vec![TestStore { in_num: 2, out_num: 0 }], u64::MAX);
    assert!(disp.stores.is_empty());
}

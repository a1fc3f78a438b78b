use frame::action::Action;
use frame::action::MenuSubAction;
use frame::action::MouseButton;
use frame::button::Button;
use frame::img::Img;
use frame::scene_manager::MinimalScene;
use frame::scene_manager::SceneManager;
use frame::sprite::Sprite;
use frame::store::ReceiveActionReturnOption;
use frame::store::Store;

/// An 8 by 8 sprite at the given position: 4-bit pixels, two to a byte, so 8
/// rows of 4 bytes.
fn square_sprite(pos: (u32, u32)) -> Sprite {
    let img = Img::new_from_u8(8, vec![0x11; 32]);
    Sprite::new(pos, vec![img], vec![(0, 1)], 0)
}

fn quit_button(pos: (u32, u32)) -> Button<impl Fn() -> MenuSubAction> {
    Button::new(square_sprite(pos), || MenuSubAction::QuitAction)
}

#[test]
fn hit_test_edges_are_exclusive() {
    let button = quit_button((10, 10));
    // A button at (10, 10) showing an 8 by 8 sprite: the top-left corner is
    // out, the inside is in, the bottom-right corner is out.
    assert!(button.check_click(10, 10, 1).is_none());
    assert!(button.check_click(11, 11, 1).is_some());
    assert!(button.check_click(18, 18, 1).is_none());
}

#[test]
fn hit_test_scales_with_pixel_size() {
    let button = quit_button((10, 10));
    // At two window pixels per image pixel the box sits at (20, 20) and is
    // 16 by 16 window pixels large.
    assert!(button.check_click(11, 11, 2).is_none());
    assert!(button.check_click(21, 21, 2).is_some());
    assert!(button.check_click(36, 36, 2).is_none());
}

#[test]
fn click_fires_the_callback() {
    let button = quit_button((0, 0));
    match button.check_click(1, 1, 1) {
        Some(MenuSubAction::QuitAction) => {},
        _ => panic!("expected the button's quit sub-action"),
    }
}

fn quit_callback() -> MenuSubAction {
    MenuSubAction::QuitAction
}

fn draw_callback() -> MenuSubAction {
    MenuSubAction::DrawAction
}

#[test]
fn set_onclick_replaces_the_callback() {
    let mut button: Button<fn() -> MenuSubAction> =
        Button::new(square_sprite((0, 0)), quit_callback);
    button.set_onclick(draw_callback);
    match button.check_click(1, 1, 1) {
        Some(MenuSubAction::DrawAction) => {},
        _ => panic!("expected the replacement callback's sub-action"),
    }
}

#[test]
fn send_frame_places_the_sprite() {
    let button = quit_button((3, 4));
    match button.send_frame() {
        MenuSubAction::AddImgToCanvasAction(x, y, img) => {
            assert_eq!((x, y), (3, 4));
            assert_eq!(*img.get_width(), 8);
            assert_eq!(img.get_pixels().len(), 32);
        },
        _ => panic!("expected an add-image sub-action"),
    }
}

fn manager_with_scene() -> SceneManager<MinimalScene<impl Fn() -> MenuSubAction>> {
    let mut manager = SceneManager::new();
    manager.add_scenes(vec![MinimalScene::new(quit_button((0, 0)))]);
    manager
}

/// The first wrapped sub-action of the batch the manager emits for `sub`.
fn first_follow_up<F: Fn() -> MenuSubAction>(
    manager: &mut SceneManager<MinimalScene<F>>,
    sub: MenuSubAction,
) -> MenuSubAction {
    match manager.receive_action(&Action::MenuAction(sub), 0) {
        ReceiveActionReturnOption::NewAction(mut out, to_secondary) => {
            assert!(!to_secondary);
            assert!(!out.is_empty());
            match out.remove(0) {
                Action::MenuAction(m) => m,
                _ => panic!("the scene manager only emits menu actions"),
            }
        },
        ReceiveActionReturnOption::NoNewAction => panic!("expected a follow-up batch"),
    }
}

#[test]
fn menu_sub_action_cycle() {
    let mut manager = manager_with_scene();
    // Starting from the mode toggle, the derived follow-ups cycle through
    // wait-for-input and draw, for as long as the menu is pumped.
    let s1 = first_follow_up(&mut manager, MenuSubAction::ChangeMenuStateAction);
    assert!(matches!(s1, MenuSubAction::WaitForInputAction));
    let s2 = first_follow_up(&mut manager, s1);
    assert!(matches!(s2, MenuSubAction::DrawAction));
    let s3 = first_follow_up(&mut manager, s2);
    assert!(matches!(s3, MenuSubAction::WaitForInputAction));
    let s4 = first_follow_up(&mut manager, s3);
    assert!(matches!(s4, MenuSubAction::DrawAction));
}

#[test]
fn draw_also_paints_every_scene() {
    let mut manager = manager_with_scene();
    match manager.receive_action(&Action::MenuAction(MenuSubAction::DrawAction), 0) {
        ReceiveActionReturnOption::NewAction(out, _) => {
            assert_eq!(out.len(), 2);
            assert!(matches!(
                out[0],
                Action::MenuAction(MenuSubAction::WaitForInputAction)
            ));
            assert!(matches!(
                out[1],
                Action::MenuAction(MenuSubAction::AddImgToCanvasAction(0, 0, _))
            ));
        },
        ReceiveActionReturnOption::NoNewAction => panic!("expected a follow-up batch"),
    }
}

#[test]
fn left_click_on_button_emits_its_action() {
    let mut manager = manager_with_scene();
    let click = MenuSubAction::ClickAction(1, 1, MouseButton::Left, 1);
    match manager.receive_action(&Action::MenuAction(click), 0) {
        ReceiveActionReturnOption::NewAction(out, _) => {
            assert_eq!(out.len(), 1);
            assert!(matches!(out[0], Action::MenuAction(MenuSubAction::QuitAction)));
        },
        ReceiveActionReturnOption::NoNewAction => panic!("expected the button's action"),
    }
}

#[test]
fn right_click_is_ignored() {
    let mut manager = manager_with_scene();
    let click = MenuSubAction::ClickAction(1, 1, MouseButton::Right, 1);
    match manager.receive_action(&Action::MenuAction(click), 0) {
        ReceiveActionReturnOption::NewAction(out, _) => assert!(out.is_empty()),
        ReceiveActionReturnOption::NoNewAction => {},
    }
}

#[test]
fn non_menu_actions_do_not_reach_scenes() {
    let mut manager = manager_with_scene();
    match manager.receive_action(&Action::UpdateAction, 0) {
        ReceiveActionReturnOption::NoNewAction => {},
        ReceiveActionReturnOption::NewAction(_, _) => panic!("only menu actions are handled"),
    }
}

#[test]
fn click_off_screen_is_ignored() {
    let mut manager = manager_with_scene();
    let click = MenuSubAction::ClickAction(-1, -1, MouseButton::Left, 1);
    match manager.receive_action(&Action::MenuAction(click), 0) {
        ReceiveActionReturnOption::NewAction(out, _) => assert!(out.is_empty()),
        ReceiveActionReturnOption::NoNewAction => {},
    }
}

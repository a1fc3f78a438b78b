use frame::action::Action;
use frame::example_obj::ExampleObj;
use frame::img::Img;
use frame::store::ReceiveActionReturnOption;
use frame::store::Store;
use frame::test_object::TestObject;
use frame::render::CellPaint;
use frame::render::default_color_space;
use frame::render::frame_end_actions;
use frame::render::poll_event_action;
use frame::render::rasterize;
use frame::render::wait_event_action;
use frame::render::InputEvent;
use frame::action::MenuSubAction;
use frame::action::MouseButton;
use frame::sprite::Sprite;

#[test]
fn img_from_buf_unpacks_width_and_pixels() {
    // The width header ors byte i shifted left by 3 - i: 1,0,0,0 encodes 8.
    let buf = vec![1u8, 0, 0, 0, 0xAB, 0xCD, 0xEF];
    let img = Img::new_from_buf(&buf);
    assert_eq!(*img.get_width(), 8);
    assert_eq!(img.get_pixels(), &vec![0xAB, 0xCD, 0xEF]);
}

#[test]
fn img_from_short_buf_is_empty() {
    let img = Img::new_from_buf(&vec![1u8, 2, 3]);
    assert_eq!(*img.get_width(), 0);
    assert!(img.get_pixels().is_empty());
}

#[test]
fn img_width_packing_combines_all_four_bytes() {
    // 1<<3 | 1<<2 | 1<<1 | 1 = 15.
    let img = Img::new_from_buf(&vec![1u8, 1, 1, 1]);
    assert_eq!(*img.get_width(), 15);
}

#[test]
fn img_rows_come_in_half_width_chunks() {
    let mut img = Img::new_from_u8(8, vec![1, 2, 3, 4, 5, 6, 7, 8, 9, 10]);
    // Width 8 means 4 bytes per row; the shorter remainder is the last row.
    assert_eq!(img.next_row(), Some(vec![1, 2, 3, 4]));
    assert_eq!(img.next_row(), Some(vec![5, 6, 7, 8]));
    assert_eq!(img.next_row(), Some(vec![9, 10]));
    // The row sequence is not restartable: exhausted stays exhausted.
    assert_eq!(img.next_row(), None);
    assert_eq!(img.next_row(), None);
}

#[test]
fn img_clone_copies_the_pixels() {
    let img = Img::new_from_u8(4, vec![9, 8, 7]);
    let copy = img.clone();
    assert_eq!(*copy.get_width(), 4);
    assert_eq!(copy.get_pixels(), img.get_pixels());
}

#[test]
fn rasterize_places_nibbles_side_by_side() {
    // Width 2: one byte per row. The low nibble sits to the right of the
    // high nibble; the alpha index 15 becomes a clear cell.
    let img = Img::new_from_u8(2, vec![0x21, 0xF3]);
    let cells = rasterize(&img, 0, 0, 1);
    assert_eq!(cells.len(), 4);
    assert_eq!((cells[0].x, cells[0].y), (1, 0));
    assert_eq!(cells[0].paint, CellPaint::Palette(1));
    assert_eq!((cells[1].x, cells[1].y), (0, 0));
    assert_eq!(cells[1].paint, CellPaint::Palette(2));
    assert_eq!((cells[2].x, cells[2].y), (1, 1));
    assert_eq!(cells[2].paint, CellPaint::Palette(3));
    assert_eq!((cells[3].x, cells[3].y), (0, 1));
    assert_eq!(cells[3].paint, CellPaint::Clear);
}

#[test]
fn rasterize_scales_and_offsets() {
    let img = Img::new_from_u8(2, vec![0x21]);
    let cells = rasterize(&img, 10, 20, 8);
    // Cell of the low nibble: x = 8 * (0 + 10 + 1), y = 8 * 20.
    assert_eq!((cells[0].x, cells[0].y, cells[0].size), (88, 160, 8));
    // Cell of the high nibble sits one cell to the left.
    assert_eq!((cells[1].x, cells[1].y), (80, 160));
}

#[test]
fn default_color_space_has_fifteen_colors() {
    let space = default_color_space();
    assert_eq!(space.len(), 15);
    assert_eq!((space[0].r, space[0].g, space[0].b), (0x74, 0xDC, 0x20));
    assert_eq!((space[14].r, space[14].g, space[14].b), (0x40, 0x43, 0x37));
}

#[test]
fn frame_end_actions_in_order() {
    let out = frame_end_actions(256, 256, 8);
    assert_eq!(out.len(), 3);
    assert!(matches!(out[0], Action::UpdateAction));
    assert!(matches!(out[1], Action::SendFrameAction(256, 256, 8)));
    assert!(matches!(out[2], Action::DrawAction(true)));
}

#[test]
fn polled_events_map_to_actions() {
    assert!(matches!(
        poll_event_action(&InputEvent::Quit),
        Some(Action::MenuAction(MenuSubAction::QuitAction))
    ));
    assert!(matches!(
        poll_event_action(&InputEvent::KeyDown { escape: true, scancode: None }),
        Some(Action::MenuAction(MenuSubAction::ChangeMenuStateAction))
    ));
    assert!(matches!(
        poll_event_action(&InputEvent::KeyDown { escape: false, scancode: Some(44) }),
        Some(Action::KeyboardAction(44))
    ));
    assert!(poll_event_action(&InputEvent::Other).is_none());
}

#[test]
fn waited_events_map_to_actions() {
    assert!(matches!(wait_event_action(&InputEvent::Quit, 8), Some(Action::QuitAction)));
    assert!(matches!(
        wait_event_action(&InputEvent::KeyDown { escape: true, scancode: None }, 8),
        Some(Action::MenuAction(MenuSubAction::ChangeMenuStateAction))
    ));
    assert!(matches!(
        wait_event_action(
            &InputEvent::MouseButtonDown { x: 3, y: 4, button: MouseButton::Left },
            8
        ),
        Some(Action::MenuAction(MenuSubAction::ClickAction(3, 4, MouseButton::Left, 8)))
    ));
    assert!(wait_event_action(&InputEvent::KeyDown { escape: false, scancode: Some(9) }, 8)
        .is_none());
}

#[test]
fn sprite_from_buf_cuts_frames() {
    // Four pixels per frame means two bytes per frame; the trailing byte is
    // dropped.
    let buf = vec![1u8, 0, 0, 0, 0xA1, 0xA2, 0xB1, 0xB2, 0xC1];
    let sprite = Sprite::new_from_buf(&buf, 4, (5, 6), vec![(0, 2)], 30);
    assert_eq!(sprite.frames.len(), 2);
    assert_eq!(sprite.frames[0].get_pixels(), &vec![0xA1, 0xA2]);
    assert_eq!(sprite.frames[1].get_pixels(), &vec![0xB1, 0xB2]);
    assert_eq!(*sprite.frames[0].get_width(), 8);
    assert_eq!(sprite.get_pos(), (5, 6));
}

#[test]
fn sprite_from_short_buf_is_empty() {
    let sprite = Sprite::new_from_buf(&vec![1u8, 0], 4, (0, 0), vec![(0, 2)], 30);
    assert!(sprite.frames.is_empty());
    assert!(sprite.anims.is_empty());
    assert_eq!(sprite.framerate, 0);
}

#[test]
fn sprite_animation_advances_and_wraps() {
    let frames = vec![
        Img::new_from_u8(2, vec![1]),
        Img::new_from_u8(2, vec![2]),
        Img::new_from_u8(2, vec![3]),
    ];
    // Ten frames a second: one frame every 100000 microseconds.
    let mut sprite = Sprite::new((0, 0), frames, vec![(0, 3)], 10);
    assert_eq!(sprite.current_frame, 0);
    sprite.animate(40_000);
    assert_eq!(sprite.current_frame, 0); // not yet due
    sprite.animate(60_000);
    assert_eq!(sprite.current_frame, 1); // accumulated a full period
    sprite.animate(100_000);
    assert_eq!(sprite.current_frame, 2);
    sprite.animate(100_000);
    assert_eq!(sprite.current_frame, 0); // wrapped to the window start
}

#[test]
fn sprite_with_zero_framerate_never_advances() {
    let mut sprite = Sprite::new((0, 0), vec![Img::new_from_u8(2, vec![1])], vec![(0, 1)], 0);
    sprite.animate(10_000_000);
    assert_eq!(sprite.current_frame, 0);
}

#[test]
fn example_obj_drifts_with_time() {
    let sprite = Sprite::new((0, 0), vec![Img::new_from_u8(2, vec![1])], vec![(0, 1)], 0);
    let mut obj = ExampleObj::new(sprite);
    // Half a second of updates: 300 pixels a second puts the sprite at 150.
    let r = obj.receive_action(&Action::UpdateAction, 500_000);
    assert!(matches!(r, ReceiveActionReturnOption::NoNewAction));
    match &obj.sprite {
        Some(s) => assert_eq!(s.get_pos(), (150, 150)),
        None => panic!("the sprite stays in place"),
    }
    // Far later the drift saturates at 255.
    obj.receive_action(&Action::UpdateAction, 10_000_000);
    match &obj.sprite {
        Some(s) => assert_eq!(s.get_pos(), (255, 255)),
        None => panic!("the sprite stays in place"),
    }
}

#[test]
fn test_object_paints_its_frame() {
    let sprite = Sprite::new((7, 9), vec![Img::new_from_u8(2, vec![0x21])], vec![(0, 1)], 0);
    let mut obj = TestObject::new(sprite);
    match obj.receive_action(&Action::SendFrameAction(256, 256, 8), 0) {
        ReceiveActionReturnOption::NewAction(out, to_secondary) => {
            assert!(!to_secondary);
            assert_eq!(out.len(), 1);
            match &out[0] {
                Action::AddImgToCanvasAction(x, y, img) => {
                    assert_eq!((*x, *y), (7, 9));
                    assert_eq!(img.get_pixels(), &vec![0x21]);
                },
                _ => panic!("expected an add-image action"),
            }
        },
        ReceiveActionReturnOption::NoNewAction => panic!("expected one painted frame"),
    }
}

#[test]
fn img_with_width_under_two_yields_one_row() {
    let mut img = Img::new_from_u8(1, vec![1, 2, 3]);
    // Half a pixel of width rounds to zero bytes per row: the whole
    // remainder comes as a single row.
    assert_eq!(img.next_row(), Some(vec![1, 2, 3]));
    assert_eq!(img.next_row(), None);
    assert_eq!(img.next_row(), None);
}

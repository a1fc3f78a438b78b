use vstd::prelude::*;

use crate::img::Img;
use crate::img::ImgV;

verus! {

/// Mouse buttons as reported by the input backend.
#[derive(Clone, Copy, PartialEq, Eq, Structural, Debug)]
pub enum MouseButton {
    Unknown,
    Left,
    Middle,
    Right,
    X1,
    X2,
}

/// An Action in the Flux pattern sense. Has a type and a payload.
///
/// All communication between the stores happens through these. They are sent
/// to the dispatcher which sends them to every registered store.
pub enum Action {
    AddImgToCanvasAction(u32, u32, Img),
    DrawAction(bool),
    UpdateAction,
    SendFrameAction(u32, u32, u32),
    EndFrameAction,
    StartAction,
    MenuAction(MenuSubAction),
    QuitAction,
    EmptyAction,
    TestAction(u8),
    KeyboardAction(i32),
}

/// Similar to the Action enum. Only meant for use in menu states.
pub enum MenuSubAction {
    ChangeMenuStateAction,
    WaitForInputAction,
    DrawAction,
    AddImgToCanvasAction(u32, u32, Img),
    ClickAction(i32, i32, MouseButton, u32),
    QuitAction,
}

/// Mathematical model of an `Action`: payloads carried as plain values, with
/// images abstracted to their width and pixel sequence.
pub enum ActionV {
    AddImgToCanvas(u32, u32, ImgV),
    Draw(bool),
    Update,
    SendFrame(u32, u32, u32),
    EndFrame,
    Start,
    Menu(MenuSubActionV),
    Quit,
    Empty,
    Test(u8),
    Keyboard(i32),
}

/// Mathematical model of a `MenuSubAction`.
pub enum MenuSubActionV {
    ChangeMenuState,
    WaitForInput,
    Draw,
    AddImgToCanvas(u32, u32, ImgV),
    Click(i32, i32, MouseButton, u32),
    Quit,
}

impl View for MenuSubAction {
    type V = MenuSubActionV;

    open spec fn view(&self) -> MenuSubActionV {
        match self {
            MenuSubAction::ChangeMenuStateAction => MenuSubActionV::ChangeMenuState,
            MenuSubAction::WaitForInputAction => MenuSubActionV::WaitForInput,
            MenuSubAction::DrawAction => MenuSubActionV::Draw,
            MenuSubAction::AddImgToCanvasAction(x, y, i) => MenuSubActionV::AddImgToCanvas(
                *x,
                *y,
                i@,
            ),
            MenuSubAction::ClickAction(x, y, b, s) => MenuSubActionV::Click(*x, *y, *b, *s),
            MenuSubAction::QuitAction => MenuSubActionV::Quit,
        }
    }
}

impl View for Action {
    type V = ActionV;

    open spec fn view(&self) -> ActionV {
        match self {
            Action::AddImgToCanvasAction(x, y, i) => ActionV::AddImgToCanvas(*x, *y, i@),
            Action::DrawAction(c) => ActionV::Draw(*c),
            Action::UpdateAction => ActionV::Update,
            Action::SendFrameAction(w, h, p) => ActionV::SendFrame(*w, *h, *p),
            Action::EndFrameAction => ActionV::EndFrame,
            Action::StartAction => ActionV::Start,
            Action::MenuAction(sub) => ActionV::Menu(sub@),
            Action::QuitAction => ActionV::Quit,
            Action::EmptyAction => ActionV::Empty,
            Action::TestAction(n) => ActionV::Test(*n),
            Action::KeyboardAction(c) => ActionV::Keyboard(*c),
        }
    }
}

/// The views of a sequence of actions, in order.
pub open spec fn views_of(s: Seq<Action>) -> Seq<ActionV> {
    s.map_values(|a: Action| a@)
}

/// The views of a sequence of menu sub-actions, in order.
pub open spec fn sub_views_of(s: Seq<MenuSubAction>) -> Seq<MenuSubActionV> {
    s.map_values(|a: MenuSubAction| a@)
}

impl Clone for MenuSubAction {
    /// A cloned menu sub-action carries the same view.
    fn clone(&self) -> (r: Self)
        ensures
            r@ == self@,
    {
        match self {
            MenuSubAction::ChangeMenuStateAction => MenuSubAction::ChangeMenuStateAction,
            MenuSubAction::WaitForInputAction => MenuSubAction::WaitForInputAction,
            MenuSubAction::DrawAction => MenuSubAction::DrawAction,
            MenuSubAction::AddImgToCanvasAction(x, y, i) => MenuSubAction::AddImgToCanvasAction(
                *x,
                *y,
                i.clone(),
            ),
            MenuSubAction::ClickAction(x, y, b, s) => MenuSubAction::ClickAction(*x, *y, *b, *s),
            MenuSubAction::QuitAction => MenuSubAction::QuitAction,
        }
    }
}

impl Clone for Action {
    /// A cloned action carries the same view.
    fn clone(&self) -> (r: Self)
        ensures
            r@ == self@,
    {
        match self {
            Action::AddImgToCanvasAction(x, y, i) => Action::AddImgToCanvasAction(
                *x,
                *y,
                i.clone(),
            ),
            Action::DrawAction(c) => Action::DrawAction(*c),
            Action::UpdateAction => Action::UpdateAction,
            Action::SendFrameAction(w, h, p) => Action::SendFrameAction(*w, *h, *p),
            Action::EndFrameAction => Action::EndFrameAction,
            Action::StartAction => Action::StartAction,
            Action::MenuAction(sub) => Action::MenuAction(sub.clone()),
            Action::QuitAction => Action::QuitAction,
            Action::EmptyAction => Action::EmptyAction,
            Action::TestAction(n) => Action::TestAction(*n),
            Action::KeyboardAction(c) => Action::KeyboardAction(*c),
        }
    }
}

} // verus!

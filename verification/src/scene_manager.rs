use vstd::prelude::*;

use crate::action::Action;
use crate::action::ActionV;
use crate::action::MenuSubAction;
use crate::action::MenuSubActionV;
use crate::action::MouseButton;
use crate::action::views_of;
use crate::action::sub_views_of;
use crate::button::Button;
use crate::store::ReceiveActionReturnOption;
use crate::store::ReceiveMSAReturnOption;
use crate::store::Store;
use crate::store::elem_views;

verus! {

/// Turns a struct into a Scene: a menu-mode leaf that receives menu
/// sub-actions from the scene manager and may emit follow-up sub-actions.
/// The same three-part specification discipline as for `Store`.
pub trait Scene: View + Sized {
    /// The scene's well-formedness condition.
    spec fn inv(v: Self::V) -> bool;

    /// The state the scene steps to on receiving `sub`.
    spec fn sp_next(v: Self::V, sub: MenuSubActionV) -> Self::V;

    /// The batch of menu sub-actions the scene emits on receiving `sub`.
    spec fn sp_emits(v: Self::V, sub: MenuSubActionV) -> Seq<MenuSubActionV>;

    /// Whether the scene answers with a batch at all — the `NewAction`
    /// variant — as opposed to the canonical empty answer `NoNewAction`.
    spec fn sp_responds(v: Self::V, sub: MenuSubActionV) -> bool;

    /// The function called by the scene manager to hand over one sub-action.
    fn receive_menu_sub_action(&mut self, sub_action: &MenuSubAction) -> (r:
        ReceiveMSAReturnOption)
        requires
            Self::inv(old(self)@),
        ensures
            final(self)@ == Self::sp_next(old(self)@, sub_action@),
            Self::inv(final(self)@),
            (r matches ReceiveMSAReturnOption::NewAction(_)) == Self::sp_responds(
                old(self)@,
                sub_action@,
            ),
            match r {
                ReceiveMSAReturnOption::NoNewAction => Self::sp_emits(old(self)@, sub_action@)
                    == Seq::<MenuSubActionV>::empty(),
                ReceiveMSAReturnOption::NewAction(out) => sub_views_of(out@) == Self::sp_emits(
                    old(self)@,
                    sub_action@,
                ),
            },
    ;
}

/// A minimal scene: one clickable button.
pub struct MinimalScene<F> where F: Fn() -> MenuSubAction {
    pub button: Button<F>,
}

impl<F: Fn() -> MenuSubAction> MinimalScene<F> {
    pub fn new(button: Button<F>) -> (r: Self)
        ensures
            r.button == button,
    {
        Self { button }
    }
}

impl<F: Fn() -> MenuSubAction> View for MinimalScene<F> {
    type V = MinimalScene<F>;

    open spec fn view(&self) -> MinimalScene<F> {
        *self
    }
}

impl<F: Fn() -> MenuSubAction> Scene for MinimalScene<F> {
    open spec fn inv(v: MinimalScene<F>) -> bool {
        v.button.wf()
    }

    open spec fn sp_next(v: MinimalScene<F>, sub: MenuSubActionV) -> MinimalScene<F> {
        v
    }

    /// On draw, the scene paints its button; on a left click that lands on
    /// the button, it fires the button's callback; everything else is
    /// ignored, clicks off screen included.
    open spec fn sp_emits(v: MinimalScene<F>, sub: MenuSubActionV) -> Seq<MenuSubActionV> {
        match sub {
            MenuSubActionV::Draw => seq![
                MenuSubActionV::AddImgToCanvas(
                    v.button.sprite.pos.0,
                    v.button.sprite.pos.1,
                    v.button.frame()@,
                ),
            ],
            MenuSubActionV::Click(x, y, btn, scale) => if btn == MouseButton::Left && x >= 0 && y
                >= 0 && v.button.hit(x as u32, y as u32, scale) {
                seq![v.button.on_click()]
            } else {
                Seq::<MenuSubActionV>::empty()
            },
            _ => Seq::<MenuSubActionV>::empty(),
        }
    }

    /// The scene answers exactly when it has something to emit.
    open spec fn sp_responds(v: MinimalScene<F>, sub: MenuSubActionV) -> bool {
        Self::sp_emits(v, sub).len() > 0
    }

    fn receive_menu_sub_action(&mut self, sub_action: &MenuSubAction) -> (r:
        ReceiveMSAReturnOption) {
        match sub_action {
            MenuSubAction::DrawAction => {
                let mut out: Vec<MenuSubAction> = Vec::new();
                out.push(self.button.send_frame());
                proof {
                    assert(sub_views_of(out@) =~= Self::sp_emits(*self, sub_action@));
                }
                ReceiveMSAReturnOption::NewAction(out)
            },
            MenuSubAction::ClickAction(x, y, mouse_btn, scale) => {
                match mouse_btn {
                    MouseButton::Left => {
                        if *x >= 0 && *y >= 0 {
                            match self.button.check_click(*x as u32, *y as u32, *scale) {
                                Some(msa) => {
                                    let mut out: Vec<MenuSubAction> = Vec::new();
                                    out.push(msa);
                                    proof {
                                        assert(sub_views_of(out@) =~= Self::sp_emits(
                                            *self,
                                            sub_action@,
                                        ));
                                    }
                                    ReceiveMSAReturnOption::NewAction(out)
                                },
                                None => ReceiveMSAReturnOption::NoNewAction,
                            }
                        } else {
                            ReceiveMSAReturnOption::NoNewAction
                        }
                    },
                    _ => ReceiveMSAReturnOption::NoNewAction,
                }
            },
            _ => ReceiveMSAReturnOption::NoNewAction,
        }
    }
}

/// The dispatcher-level follow-up the scene manager derives locally from a
/// menu sub-action: the fixed mode cycle — the toggle and a draw lead to
/// wait-for-input, wait-for-input leads to draw, the rest to nothing.
pub open spec fn menu_follow_up(sub: MenuSubActionV) -> Seq<ActionV> {
    match sub {
        MenuSubActionV::ChangeMenuState => seq![ActionV::Menu(MenuSubActionV::WaitForInput)],
        MenuSubActionV::WaitForInput => seq![ActionV::Menu(MenuSubActionV::Draw)],
        MenuSubActionV::Draw => seq![ActionV::Menu(MenuSubActionV::WaitForInput)],
        _ => Seq::<ActionV>::empty(),
    }
}

/// Menu sub-actions wrapped back into top-level actions, in order.
pub open spec fn wrap_menu(subs: Seq<MenuSubActionV>) -> Seq<ActionV> {
    subs.map_values(|s: MenuSubActionV| ActionV::Menu(s))
}

/// The wrapped emissions of a sequence of scenes, visited in order.
pub open spec fn scenes_emits<Sc: Scene>(scenes: Seq<Sc::V>, sub: MenuSubActionV) -> Seq<ActionV>
    decreases scenes.len(),
{
    if scenes.len() == 0 {
        Seq::<ActionV>::empty()
    } else {
        wrap_menu(Sc::sp_emits(scenes[0], sub)) + scenes_emits::<Sc>(
            scenes.subrange(1, scenes.len() as int),
            sub,
        )
    }
}

/// Very similar to the dispatcher, the SceneManager supervises menus: it fans
/// every menu sub-action out to its scenes and derives the mode-cycle
/// follow-up.
pub struct SceneManager<Sc> {
    pub scenes: Vec<Sc>,
    pub current_scene: usize,
}

/// Mathematical model of a scene manager.
#[verifier::ext_equal]
pub struct SceneManagerV<SV> {
    pub scenes: Seq<SV>,
    pub current_scene: usize,
}

impl<Sc: Scene> View for SceneManager<Sc> {
    type V = SceneManagerV<Sc::V>;

    open spec fn view(&self) -> SceneManagerV<Sc::V> {
        SceneManagerV { scenes: elem_views(self.scenes@), current_scene: self.current_scene }
    }
}

impl<Sc: Scene> SceneManager<Sc> {
    pub fn new() -> (r: Self)
        ensures
            r@.scenes == Seq::<Sc::V>::empty(),
            r@.current_scene == 0,
    {
        let r = Self { scenes: Vec::new(), current_scene: 0 };
        proof {
            assert(elem_views(Seq::<Sc>::empty()) =~= Seq::<Sc::V>::empty());
        }
        r
    }

    /// Appends the given scenes to the scene sequence, in order.
    pub fn add_scenes(&mut self, references: Vec<Sc>)
        ensures
            final(self)@ == (SceneManagerV {
                scenes: old(self)@.scenes + elem_views(references@),
                ..old(self)@
            }),
    {
        let mut refs = references;
        let ghost r0 = refs@;
        let ghost s0 = self.scenes@;
        let ghost mut k: int = 0;
        while refs.len() > 0
            invariant
                0 <= k <= r0.len(),
                refs@ == r0.subrange(k, r0.len() as int),
                self.scenes@ == s0 + r0.subrange(0, k),
                self.current_scene == old(self).current_scene,
            decreases refs@.len(),
        {
            let sc = refs.remove(0);
            self.scenes.push(sc);
            proof {
                k = k + 1;
                assert(refs@ =~= r0.subrange(k, r0.len() as int));
                assert(self.scenes@ =~= s0 + r0.subrange(0, k));
            }
        }
        proof {
            assert(r0.subrange(0, r0.len() as int) =~= r0);
            assert(self.scenes@ == s0 + r0);
            assert(elem_views(s0 + r0) =~= elem_views(s0) + elem_views(r0));
        }
    }
}

impl<Sc: Scene> Store for SceneManager<Sc> {
    /// The manager may only be dispatched once scenes are registered — being
    /// asked earlier is a setup error — and every scene is well formed.
    open spec fn inv(v: SceneManagerV<Sc::V>) -> bool {
        &&& v.scenes.len() > 0
        &&& forall|i: int| 0 <= i < v.scenes.len() ==> Sc::inv(#[trigger] v.scenes[i])
    }

    open spec fn sp_next(v: SceneManagerV<Sc::V>, a: ActionV, dt: u64) -> SceneManagerV<Sc::V> {
        match a {
            ActionV::Menu(sub) => SceneManagerV {
                scenes: v.scenes.map_values(|sv: Sc::V| Sc::sp_next(sv, sub)),
                ..v
            },
            _ => v,
        }
    }

    /// On a menu action, the locally derived mode-cycle follow-up comes
    /// first, then every scene's emissions in scene order, wrapped back into
    /// top-level menu actions.
    open spec fn sp_emits(v: SceneManagerV<Sc::V>, a: ActionV, dt: u64) -> Seq<ActionV> {
        match a {
            ActionV::Menu(sub) => menu_follow_up(sub) + scenes_emits::<Sc>(v.scenes, sub),
            _ => Seq::<ActionV>::empty(),
        }
    }

    open spec fn sp_to_secondary(v: SceneManagerV<Sc::V>, a: ActionV, dt: u64) -> bool {
        false
    }

    /// The manager answers every menu action, with the batch possibly empty.
    open spec fn sp_responds(v: SceneManagerV<Sc::V>, a: ActionV, dt: u64) -> bool {
        a matches ActionV::Menu(_)
    }

    fn receive_action(&mut self, action: &Action, dt: u64) -> (r: ReceiveActionReturnOption) {
        match action {
            Action::MenuAction(menu_sub_action) => {
                let ghost sub = menu_sub_action@;
                let ghost v0 = self@;
                let mut out_actions: Vec<Action> = Vec::new();
                match menu_sub_action {
                    MenuSubAction::ChangeMenuStateAction => {
                        out_actions.push(Action::MenuAction(MenuSubAction::WaitForInputAction));
                    },
                    MenuSubAction::WaitForInputAction => {
                        out_actions.push(Action::MenuAction(MenuSubAction::DrawAction));
                    },
                    MenuSubAction::DrawAction => {
                        out_actions.push(Action::MenuAction(MenuSubAction::WaitForInputAction));
                    },
                    _ => {},
                }
                proof {
                    assert(views_of(out_actions@) =~= menu_follow_up(sub));
                }
                let ghost sc0 = elem_views(self.scenes@);
                let ghost target = menu_follow_up(sub) + scenes_emits::<Sc>(sc0, sub);
                proof {
                    assert(sc0.subrange(0, sc0.len() as int) =~= sc0);
                    assert(views_of(out_actions@) + scenes_emits::<Sc>(
                        sc0.subrange(0, sc0.len() as int),
                        sub,
                    ) =~= target);
                }
                let n = self.scenes.len();
                let mut index: usize = 0;
                while index < n
                    invariant
                        index <= n,
                        n == sc0.len(),
                        self.scenes@.len() == n,
                        sub == menu_sub_action@,
                        target == menu_follow_up(sub) + scenes_emits::<Sc>(sc0, sub),
                        forall|j: int|
                            0 <= j < index ==> (#[trigger] self.scenes@[j])@ == Sc::sp_next(
                                sc0[j],
                                sub,
                            ) && Sc::inv(self.scenes@[j]@),
                        forall|j: int| index <= j < n ==> (#[trigger] self.scenes@[j])@ == sc0[j],
                        forall|j: int| index <= j < n ==> Sc::inv(#[trigger] sc0[j]),
                        views_of(out_actions@) + scenes_emits::<Sc>(
                            sc0.subrange(index as int, n as int),
                            sub,
                        ) == target,
                        self.current_scene == old(self).current_scene,
                    decreases n - index,
                {
                    let ghost suffix = sc0.subrange(index as int, n as int);
                    proof {
                        assert(suffix.len() > 0);
                        assert(suffix[0] == sc0[index as int]);
                        assert(suffix.subrange(1, suffix.len() as int) =~= sc0.subrange(
                            index as int + 1,
                            n as int,
                        ));
                    }
                    let ghost o0 = views_of(out_actions@);
                    let res = self.scenes[index].receive_menu_sub_action(menu_sub_action);
                    match res {
                        ReceiveMSAReturnOption::NewAction(out_msa_vec) => {
                            let ghost e0 = sub_views_of(out_msa_vec@);
                            let mut out_msa_vec = out_msa_vec;
                            while out_msa_vec.len() > 0
                                invariant
                                    views_of(out_actions@) + wrap_menu(
                                        sub_views_of(out_msa_vec@),
                                    ) == o0 + wrap_menu(e0),
                                decreases out_msa_vec@.len(),
                            {
                                let ghost m0 = out_msa_vec@;
                                let msa = out_msa_vec.remove(0);
                                out_actions.push(Action::MenuAction(msa));
                                proof {
                                    assert(views_of(out_actions@) + wrap_menu(
                                        sub_views_of(out_msa_vec@),
                                    ) =~= o0 + wrap_menu(e0));
                                }
                            }
                            proof {
                                assert(wrap_menu(sub_views_of(out_msa_vec@)) =~= Seq::<
                                    ActionV,
                                >::empty());
                                assert(views_of(out_actions@) =~= o0 + wrap_menu(e0));
                                assert(views_of(out_actions@) + scenes_emits::<Sc>(
                                    sc0.subrange(index as int + 1, n as int),
                                    sub,
                                ) =~= target);
                            }
                        },
                        ReceiveMSAReturnOption::NoNewAction => {
                            proof {
                                assert(wrap_menu(Seq::<MenuSubActionV>::empty()) =~= Seq::<
                                    ActionV,
                                >::empty());
                                assert(views_of(out_actions@) + scenes_emits::<Sc>(
                                    sc0.subrange(index as int + 1, n as int),
                                    sub,
                                ) =~= target);
                            }
                        },
                    }
                    index += 1;
                }
                proof {
                    assert(sc0.subrange(n as int, n as int) =~= Seq::<Sc::V>::empty());
                    assert(views_of(out_actions@) =~= target);
                    assert(elem_views(self.scenes@) =~= sc0.map_values(
                        |sv: Sc::V| Sc::sp_next(sv, sub),
                    ));
                }
                ReceiveActionReturnOption::NewAction(out_actions, false)
            },
            _ => ReceiveActionReturnOption::NoNewAction,
        }
    }
}

/// The sub-action the menu cycle shows at step `k` after the menu was
/// entered: the toggle derives wait-for-input, and from there draw and
/// wait-for-input alternate.
pub open spec fn menu_cycle(k: nat) -> MenuSubActionV
    decreases k,
{
    if k == 0 {
        MenuSubActionV::WaitForInput
    } else if menu_cycle((k - 1) as nat) == MenuSubActionV::WaitForInput {
        MenuSubActionV::Draw
    } else {
        MenuSubActionV::WaitForInput
    }
}

/// Menu sub-action cycle: starting from the mode toggle, the follow-ups the
/// scene manager derives are exactly wait-for-input, draw, wait-for-input,
/// and so on — wait-for-input at every even step, draw at every odd step,
/// each step deriving exactly the next one and nothing else.
pub proof fn lemma_menu_cycle(k: nat)
    ensures
        menu_cycle(k) == if k % 2 == 0 {
            MenuSubActionV::WaitForInput
        } else {
            MenuSubActionV::Draw
        },
        menu_follow_up(MenuSubActionV::ChangeMenuState) == seq![ActionV::Menu(menu_cycle(0))],
        menu_follow_up(menu_cycle(k)) == seq![ActionV::Menu(menu_cycle((k + 1) as nat))],
    decreases k,
{
    if k > 0 {
        lemma_menu_cycle((k - 1) as nat);
    }
}

} // verus!

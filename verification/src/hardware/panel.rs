//! The backend's in-memory display state and the command merge.
//!
//! Commands drained from the channel are merged into fixed per-encoder
//! display slots and per-button icon slots: the latest command per target
//! wins, in arrival order. A slot only counts as changed when the new
//! content differs from what it holds, so draining nothing, or commands
//! identical to the current state, never triggers a render or push.

use vstd::prelude::*;
use vstd::pervasive::VecAdditionalExecFns;

use crate::hardware::model::{
    ButtonImage, ButtonImageView, DisplayView, EncoderDisplay, HardwareCommand,
};

verus! {

/// Mathematical image of the panel: what each encoder region and each
/// button slot should show.
pub ghost struct PanelView {
    pub displays: Seq<Option<DisplayView>>,
    pub icons: Seq<Option<ButtonImageView>>,
}

/// Mathematical image of one command.
pub ghost enum CommandView {
    Display { slot: int, display: DisplayView },
    Icon { slot: int, icon: Option<ButtonImageView> },
}

pub open spec fn cmd_view(c: HardwareCommand) -> CommandView {
    match c {
        HardwareCommand::UpdateEncoderDisplay { encoder, display } => CommandView::Display {
            slot: encoder.spec_index(),
            display: display@,
        },
        HardwareCommand::UpdateButtonIcon { index, icon } => CommandView::Icon {
            slot: index as int,
            icon: match icon {
                Some(img) => Some(img@),
                None => None,
            },
        },
    }
}

pub open spec fn cmd_views(cmds: Seq<HardwareCommand>) -> Seq<CommandView> {
    Seq::new(cmds.len(), |i: int| cmd_view(cmds[i]))
}

/// Effect of one command: the new panel, whether a display slot changed,
/// and the button slots that changed. A command that restates what a
/// slot already holds changes nothing; an out-of-range button index is
/// dropped.
pub open spec fn apply_one(p: PanelView, c: CommandView) -> (PanelView, bool, Seq<u8>) {
    match c {
        CommandView::Display { slot, display } => {
            if 0 <= slot < p.displays.len() {
                if p.displays[slot] == Some(display) {
                    (p, false, seq![])
                } else {
                    (
                        PanelView { displays: p.displays.update(slot, Some(display)), ..p },
                        true,
                        seq![],
                    )
                }
            } else {
                (p, false, seq![])
            }
        },
        CommandView::Icon { slot, icon } => {
            if 0 <= slot < p.icons.len() {
                if p.icons[slot] == icon {
                    (p, false, seq![])
                } else {
                    (PanelView { icons: p.icons.update(slot, icon), ..p }, false, seq![
                        slot as u8,
                    ])
                }
            } else {
                (p, false, seq![])
            }
        },
    }
}

/// Effect of a batch of commands, applied in arrival order: the final
/// panel, whether any display changed, and every button slot change.
pub open spec fn spec_run(p: PanelView, cmds: Seq<CommandView>) -> (PanelView, bool, Seq<u8>)
    decreases cmds.len(),
{
    if cmds.len() == 0 {
        (p, false, seq![])
    } else {
        let (p1, d1, b1) = apply_one(p, cmds[0]);
        let (p2, d2, b2) = spec_run(p1, cmds.skip(1));
        (p2, d1 || d2, b1 + b2)
    }
}

/// What a render pass owes after a drain: re-render the display strip if
/// any display slot changed, and push exactly the changed button slots.
pub struct RenderPlan {
    pub displays_changed: bool,
    pub buttons_changed: Vec<u8>,
}

/// The in-memory display and icon state of the backend.
pub struct PanelState {
    pub displays: Vec<Option<EncoderDisplay>>,
    pub icons: Vec<Option<ButtonImage>>,
}

impl PanelState {
    pub open spec fn view_(self) -> PanelView {
        PanelView { displays: self.displays.deep_view(), icons: self.icons.deep_view() }
    }

    /// One display slot per encoder.
    pub open spec fn wf(self) -> bool {
        self.displays@.len() == 4
    }

    /// An empty panel: nothing to show on any encoder or button.
    pub fn new(button_count: usize) -> (r: PanelState)
        ensures
            r.wf(),
            r.view_().displays =~= Seq::new(4, |i: int| None::<DisplayView>),
            r.view_().icons =~= Seq::new(button_count as nat, |i: int| None::<ButtonImageView>),
    {
        let mut displays: Vec<Option<EncoderDisplay>> = Vec::new();
        displays.push(None);
        displays.push(None);
        displays.push(None);
        displays.push(None);
        let mut icons: Vec<Option<ButtonImage>> = Vec::new();
        let mut i: usize = 0;
        while i < button_count
            invariant
                i <= button_count,
                icons@.len() == i,
                forall|j: int| 0 <= j < i ==> (#[trigger] icons@[j]) is None,
            decreases button_count - i,
        {
            icons.push(None);
            i = i + 1;
        }
        let r = PanelState { displays, icons };
        proof {
            assert(r.view_().displays =~= Seq::new(4, |i: int| None::<DisplayView>));
            assert forall|j: int| 0 <= j < button_count implies r.view_().icons[j] == Seq::new(
                button_count as nat,
                |i: int| None::<ButtonImageView>,
            )[j] by {
                assert(icons@[j] is None);
            }
            assert(r.view_().icons =~= Seq::new(
                button_count as nat,
                |i: int| None::<ButtonImageView>,
            ));
        }
        r
    }

    /// Merges a drained batch of commands, in order, and reports what
    /// must be re-rendered.
    pub fn apply_commands(&mut self, cmds: Vec<HardwareCommand>) -> (plan: RenderPlan)
        requires
            old(self).wf(),
        ensures
            final(self).wf(),
            ({
                let (p, d, b) = spec_run(old(self).view_(), cmd_views(cmds@));
                final(self).view_() == p && plan.displays_changed == d && plan.buttons_changed@
                    == b
            }),
    {
        let ghost p0 = self.view_();
        let ghost all = cmd_views(cmds@);
        let mut cmds = cmds;
        let mut plan = RenderPlan { displays_changed: false, buttons_changed: Vec::new() };
        proof {
            let (pf, df, bf) = spec_run(p0, all);
            assert(plan.buttons_changed@ + spec_run(self.view_(), cmd_views(cmds@)).2 =~= bf);
        }
        while cmds.len() > 0
            invariant
                self.wf(),
                ({
                    let (pf, df, bf) = spec_run(p0, all);
                    let (p1, d1, b1) = spec_run(self.view_(), cmd_views(cmds@));
                    pf == p1 && df == (plan.displays_changed || d1) && bf
                        == plan.buttons_changed@ + b1
                }),
            decreases cmds.len(),
        {
            let ghost pre_panel = self.view_();
            let ghost pre_cmds = cmds@;
            let cmd = cmds.remove(0);
            proof {
                assert(cmds@ =~= pre_cmds.skip(1));
                assert(cmd_views(cmds@) =~= cmd_views(pre_cmds).skip(1));
                assert(cmd_views(pre_cmds)[0] == cmd_view(cmd));
            }
            let ghost step = apply_one(pre_panel, cmd_view(cmd));
            match cmd {
                HardwareCommand::UpdateEncoderDisplay { encoder, display } => {
                    let slot = encoder.index();
                    let keep = match &self.displays[slot] {
                        Option::Some(current) => current.same_as(&display),
                        Option::None => false,
                    };
                    if !keep {
                        self.displays.set(slot, Some(display));
                        plan.displays_changed = true;
                        proof {
                            assert(self.view_().displays =~= pre_panel.displays.update(
                                encoder.spec_index(),
                                Some(display@),
                            ));
                            assert(self.view_() == step.0);
                        }
                    } else {
                        proof {
                            assert(pre_panel.displays[encoder.spec_index()] == Some(display@));
                            assert(self.view_() == step.0);
                        }
                    }
                },
                HardwareCommand::UpdateButtonIcon { index, icon } => {
                    let slot = index as usize;
                    if slot < self.icons.len() {
                        let keep = match (&self.icons[slot], &icon) {
                            (Option::None, Option::None) => true,
                            (Option::Some(current), Option::Some(wanted)) => current.same_as(
                                wanted,
                            ),
                            _ => false,
                        };
                        if !keep {
                            self.icons.set(slot, icon);
                            plan.buttons_changed.push(index);
                            proof {
                                assert(self.view_().icons =~= pre_panel.icons.update(
                                    index as int,
                                    step.0.icons[index as int],
                                ));
                                assert(self.view_() == step.0);
                            }
                        } else {
                            proof {
                                assert(self.view_() == step.0);
                            }
                        }
                    } else {
                        proof {
                            assert(self.view_() == step.0);
                        }
                    }
                },
            }
            proof {
                let (pf, df, bf) = spec_run(p0, all);
                let (p1, d1, b1) = spec_run(pre_panel, cmd_views(pre_cmds));
                let (p2, d2, b2) = spec_run(self.view_(), cmd_views(cmds@));
                assert(p1 == p2 && d1 == (step.1 || d2) && b1 == step.2 + b2);
                assert(plan.buttons_changed@ + b2 =~= bf);
            }
        }
        proof {
            let (pf, df, bf) = spec_run(p0, all);
            assert(plan.buttons_changed@ + Seq::<u8>::empty() =~= plan.buttons_changed@);
        }
        plan
    }
}

/// A command restating what its target slot already holds (or aimed at
/// no slot at all).
pub open spec fn matches_state(p: PanelView, c: CommandView) -> bool {
    match c {
        CommandView::Display { slot, display } => !(0 <= slot < p.displays.len())
            || p.displays[slot] == Some(display),
        CommandView::Icon { slot, icon } => !(0 <= slot < p.icons.len()) || p.icons[slot]
            == icon,
    }
}

/// Idempotence law: draining zero commands, or commands that each only
/// restate the current state, changes nothing and triggers no render and
/// no push.
pub proof fn lemma_idempotent_drain(p: PanelView, cmds: Seq<CommandView>)
    requires
        forall|k: int| 0 <= k < cmds.len() ==> matches_state(p, #[trigger] cmds[k]),
    ensures
        spec_run(p, cmds) == (p, false, Seq::<u8>::empty()),
    decreases cmds.len(),
{
    if cmds.len() == 0 {
        assert(spec_run(p, cmds) == (p, false, Seq::<u8>::empty()));
    } else {
        assert(matches_state(p, cmds[0]));
        assert(apply_one(p, cmds[0]) == (p, false, Seq::<u8>::empty()));
        assert(forall|k: int|
            0 <= k < cmds.skip(1).len() ==> matches_state(p, #[trigger] cmds.skip(1)[k]));
        lemma_idempotent_drain(p, cmds.skip(1));
        assert(seq![] + Seq::<u8>::empty() =~= Seq::<u8>::empty());
    }
}

} // verus!

//! The output-toggle buttons: each button cycles among its configured
//! audio outputs, icons reflect availability and the active output, and
//! a failing switch tool is backed off through the availability tracker
//! instead of being hammered on every press.

use vstd::prelude::*;
use vstd::string::StringExecFns;

use crate::controls::ControlError;
use crate::hardware::model::{ButtonImage, DisplayPipeline, PipelineError};
use crate::system::audio_switch::{AudioSwitchBackend, SinkSelector};
use crate::system::availability::{now_secs, RetryableAvailability};
use crate::text;

verus! {

/// How long the switch tool rests after a failure before a retry.
pub const SWITCH_BACKOFF_SECS: u64 = 5;

/// A built-in icon name.
#[derive(Debug, Clone, Copy, PartialEq, Eq, Structural)]
pub enum MaterialIcon {
    Monitor,
    Headphones,
}

/// How an output's icon is configured: a built-in name or a file path,
/// in either the tagged or the shorthand form.
#[derive(Debug, Clone)]
pub enum IconConfig {
    Material { material: MaterialIcon },
    Path { path: String },
    Simple(MaterialIcon),
    File(String),
}

/// One configured output: which button it belongs to, how its sink is
/// selected, and its icon.
#[derive(Debug, Clone)]
pub struct AudioOutputConfig {
    pub button_index: Option<u8>,
    pub id: Option<u32>,
    pub name: Option<String>,
    pub description: Option<String>,
    pub icon: Option<IconConfig>,
}

impl AudioOutputConfig {
    /// The selector this entry denotes: id beats name beats
    /// description; an entry with none of the three is refused.
    pub fn selector(&self) -> (r: Result<SinkSelector, ControlError>)
        ensures
            (r matches Err(_)) == (self.id is None && self.name is None && self.description
                is None),
    {
        if let Option::Some(id) = self.id {
            return Ok(SinkSelector::by_id(id));
        }
        if let Option::Some(name) = &self.name {
            return Ok(SinkSelector::by_name(name.clone()));
        }
        if let Option::Some(description) = &self.description {
            return Ok(SinkSelector::by_description(description.clone()));
        }
        Err(
            ControlError::Backend(
                crate::system::BackendError {
                    message: String::from_str(
                        "audio toggle output entry must provide an id, name, or description",
                    ),
                },
            ),
        )
    }

    /// The label used in logs: the name, else the description, else the
    /// numbered sink, else a placeholder.
    pub fn label(&self) -> (r: String)
        ensures
            match (self.name, self.description, self.id) {
                (Some(_), _, _) => Some(r@) == ov_label(self.name),
                (None, Some(_), _) => Some(r@) == ov_label(self.description),
                (None, None, Some(id)) => r@ == "sink #"@ + text::spec_decimal(id as nat),
                (None, None, None) => r@ == "unnamed sink"@,
            },
    {
        if let Option::Some(name) = &self.name {
            return name.clone();
        }
        if let Option::Some(description) = &self.description {
            return description.clone();
        }
        if let Option::Some(id) = self.id {
            let mut s = String::from_str("sink #");
            let digits = text::string_of(&text::decimal_chars(id as u64));
            s.append(digits.as_str());
            return s;
        }
        String::from_str("unnamed sink")
    }
}

pub open spec fn ov_label(o: Option<String>) -> Option<Seq<char>> {
    match o {
        Some(s) => Some(s@),
        None => None,
    }
}

/// The toggle's configuration: a fallback button index and the outputs.
#[derive(Debug, Clone)]
pub struct AudioToggleConfig {
    pub button_index: Option<u8>,
    pub outputs: Vec<AudioOutputConfig>,
}

/// The configuration together with where it was read from.
#[derive(Debug, Clone)]
pub struct AudioToggleSettings {
    pub config: AudioToggleConfig,
    pub config_path: Option<String>,
}

/// An output's observed state: listed by the tool, and the default.
#[derive(Debug, Clone, Copy, PartialEq, Eq, Structural)]
pub struct OutputState {
    pub available: bool,
    pub active: bool,
}

/// The four icon variants of one output.
pub struct OutputIcons {
    pub available_selected: ButtonImage,
    pub available_inactive: ButtonImage,
    pub unavailable_selected: ButtonImage,
    pub unavailable_inactive: ButtonImage,
}

impl OutputIcons {
    /// The variant to show for a state.
    pub fn icon(&self, state: OutputState) -> (r: ButtonImage)
        ensures
            state.available && state.active ==> r@ == self.available_selected@,
            state.available && !state.active ==> r@ == self.available_inactive@,
            !state.available && state.active ==> r@ == self.unavailable_selected@,
            !state.available && !state.active ==> r@ == self.unavailable_inactive@,
    {
        if state.available && state.active {
            self.available_selected.duplicate()
        } else if state.available {
            self.available_inactive.duplicate()
        } else if state.active {
            self.unavailable_selected.duplicate()
        } else {
            self.unavailable_inactive.duplicate()
        }
    }
}

/// A slug of an icon identity: ASCII letters and digits lowered, dashes
/// and underscores kept without repeats, everything else dropped.
pub open spec fn spec_slug(s: Seq<char>) -> Seq<char>
    decreases s.len(),
{
    if s.len() == 0 {
        Seq::empty()
    } else {
        let rest = spec_slug(s.drop_last());
        let c = s.last();
        if is_alnum(c) {
            rest.push(text::lower_char(c))
        } else if (c == '-' || c == '_') && !(rest.len() > 0 && rest.last() == c) {
            rest.push(c)
        } else {
            rest
        }
    }
}

pub open spec fn is_alnum(c: char) -> bool {
    ('0' <= c && c <= '9') || ('a' <= c && c <= 'z') || ('A' <= c && c <= 'Z')
}

/// The normalised identity: the slug cut to thirty-two characters, or
/// `icon` when nothing survives.
pub fn normalize_id(id: &str) -> (r: String)
    ensures
        spec_slug(id@).len() == 0 ==> r@ == "icon"@,
        spec_slug(id@).len() > 0 ==> r@ == spec_slug(id@).take(
            if spec_slug(id@).len() <= 32 {
                spec_slug(id@).len() as int
            } else {
                32
            },
        ),
{
    let chars = text::chars_of(id);
    let mut slug: Vec<char> = Vec::new();
    let mut i: usize = 0;
    proof {
        assert(chars@.take(0).len() == 0);
        assert(slug@ =~= spec_slug(chars@.take(0)));
    }
    while i < chars.len()
        invariant
            i <= chars@.len(),
            chars@ == id@,
            slug@ == spec_slug(chars@.take(i as int)),
        decreases chars@.len() - i,
    {
        let c = chars[i];
        proof {
            assert(chars@.take(i as int + 1).drop_last() =~= chars@.take(i as int));
            assert(chars@.take(i as int + 1).last() == c);
        }
        if ('0' <= c && c <= '9') || ('a' <= c && c <= 'z') || ('A' <= c && c <= 'Z') {
            slug.push(text::to_lower(c));
            proof {
                assert(slug@ =~= spec_slug(chars@.take(i as int + 1)));
            }
        } else if c == '-' || c == '_' {
            let repeat = slug.len() > 0 && slug[slug.len() - 1] == c;
            if !repeat {
                slug.push(c);
            }
            proof {
                assert(slug@ =~= spec_slug(chars@.take(i as int + 1)));
            }
        } else {
            proof {
                assert(slug@ =~= spec_slug(chars@.take(i as int + 1)));
            }
        }
        i = i + 1;
    }
    proof {
        assert(chars@.take(chars@.len() as int) =~= chars@);
    }
    if slug.len() == 0 {
        proof {
            reveal_strlit("icon");
        }
        return String::from_str("icon");
    }
    let cut: usize = if slug.len() <= 32 {
        slug.len()
    } else {
        32
    };
    let cut_slug = text::slice_range(&slug, 0, cut);
    proof {
        assert(cut_slug@ =~= spec_slug(id@).take(cut as int));
    }
    text::string_of(&cut_slug)
}

/// One icon variant: the identity names the button, position, base slug
/// and variant, the pixels are shared, and the tint marks the variant.
pub fn tinted_variant(
    base: &ButtonImage,
    button_index: u8,
    position: u8,
    base_id: &str,
    suffix: &str,
    tint: [u8; 3],
) -> (r: ButtonImage)
    ensures
        r@.tint == Some(tint),
        r@.id == "audio-"@ + text::spec_decimal(button_index as nat) + seq!['-']
            + text::spec_decimal(position as nat) + seq!['-'] + base_id@ + seq!['-'] + suffix@,
{
    let mut id = String::from_str("audio-");
    id.append(text::string_of(&text::decimal_chars(button_index as u64)).as_str());
    id.append("-");
    id.append(text::string_of(&text::decimal_chars(position as u64)).as_str());
    id.append("-");
    id.append(base_id);
    id.append("-");
    id.append(suffix);
    proof {
        reveal_strlit("-");
        assert(id@ =~= "audio-"@ + text::spec_decimal(button_index as nat) + seq!['-']
            + text::spec_decimal(position as nat) + seq!['-'] + base_id@ + seq!['-']
            + suffix@) by {
            assert("-"@ =~= seq!['-']);
        }
    }
    ButtonImage { id, image: base.image.duplicate(), tint: Some(tint) }
}

/// One output as the controller drives it.
pub struct OutputProfile {
    pub selector: SinkSelector,
    pub icons: OutputIcons,
    pub label: String,
    pub button_index: u8,
}

pub struct OutputEntry {
    pub profile: OutputProfile,
    pub state: OutputState,
}

/// What one press did: the button belongs to no output; the press was
/// absorbed inside a failure's backoff window; the switch tool was
/// asked and succeeded; or it was asked and failed.
#[derive(Debug, Clone, Copy, PartialEq, Eq, Structural)]
pub enum SwitchOutcome {
    NotMine,
    Deferred,
    Switched,
    Failed,
}

impl SwitchOutcome {
    /// Whether the press belonged to this controller (and so stops the
    /// dispatch chain).
    pub fn handled(&self) -> (r: bool)
        ensures
            r == !(*self is NotMine),
    {
        !matches!(self, SwitchOutcome::NotMine)
    }
}

/// Some output is assigned to this button.
pub open spec fn spec_owns(outs: Seq<OutputEntry>, button: u8) -> bool {
    exists|k: int| 0 <= k < outs.len() && (#[trigger] outs[k]).profile.button_index == button
}

/// Every output keeps its profile; only observed states may change.
pub open spec fn profiles_kept(a: Seq<OutputEntry>, b: Seq<OutputEntry>) -> bool {
    a.len() == b.len() && forall|i: int| 0 <= i < a.len() ==> (#[trigger] b[i]).profile == a[i].profile
}

/// The observed state of one output against a sink list and the
/// current default.
pub open spec fn spec_observed(
    sel: crate::system::audio_switch::SelectorView,
    sinks: Seq<crate::system::audio_switch::SinkInfo>,
    current: Option<crate::system::audio_switch::SinkInfo>,
) -> OutputState {
    OutputState {
        available: exists|j: int|
            0 <= j < sinks.len() && crate::system::audio_switch::spec_selector_matches(
                sel,
                (#[trigger] sinks[j])@,
            ),
        active: match current {
            Some(c) => crate::system::audio_switch::spec_selector_matches(sel, c@),
            None => false,
        },
    }
}

/// The indices of the outputs assigned to a button, scanning from `i`,
/// in configuration order.
pub open spec fn spec_group(outs: Seq<OutputEntry>, button: u8, i: int) -> Seq<usize>
    decreases outs.len() - i,
{
    if i < 0 || i >= outs.len() {
        Seq::empty()
    } else {
        (if outs[i].profile.button_index == button {
            seq![i as usize]
        } else {
            Seq::empty()
        }) + spec_group(outs, button, i + 1)
    }
}

/// Position of the first active output of a group, scanning from `k`;
/// the group's length when none is active.
pub open spec fn spec_first_active(outs: Seq<OutputEntry>, idx: Seq<usize>, k: int) -> int
    decreases idx.len() - k,
{
    if k < 0 || k >= idx.len() {
        idx.len() as int
    } else if outs[idx[k] as int].state.active {
        k
    } else {
        spec_first_active(outs, idx, k + 1)
    }
}

/// Position of the first available output of a group, scanning from `k`.
pub open spec fn spec_first_available(outs: Seq<OutputEntry>, idx: Seq<usize>, k: int) -> int
    decreases idx.len() - k,
{
    if k < 0 || k >= idx.len() {
        idx.len() as int
    } else if outs[idx[k] as int].state.available {
        k
    } else {
        spec_first_available(outs, idx, k + 1)
    }
}

/// The documented choice within a group: a single output stands alone;
/// with an active output, the one after it, cyclically; with none
/// active, the first available output; with none available either, the
/// first of the group.
pub open spec fn spec_next_in_group(outs: Seq<OutputEntry>, idx: Seq<usize>) -> usize {
    if idx.len() == 1 {
        idx[0]
    } else {
        let a = spec_first_active(outs, idx, 0);
        if a < idx.len() {
            idx[if a + 1 < idx.len() {
                a + 1
            } else {
                0
            }]
        } else {
            let v = spec_first_available(outs, idx, 0);
            if v < idx.len() {
                idx[v]
            } else {
                idx[0]
            }
        }
    }
}

/// The output-toggle controller.
pub struct AudioToggleController<B: AudioSwitchBackend, H: DisplayPipeline> {
    pub backend: B,
    pub hardware: H,
    pub outputs: Vec<OutputEntry>,
    pub availability: RetryableAvailability,
}

/// The fields no call ever changes: the backend and the display sink.
pub open spec fn toggle_frame<B: AudioSwitchBackend, H: DisplayPipeline>(
    a: AudioToggleController<B, H>,
    b: AudioToggleController<B, H>,
) -> bool {
    a.backend == b.backend && a.hardware == b.hardware
}

/// How one press at time `now` relates the states before and after, by
/// outcome: an unowned button or a deferred press changes nothing; a
/// granted gate ends with the tracker available exactly when the switch
/// tool succeeded, and unavailable (with the deadline `now` plus the
/// backoff) when it failed; profiles are never touched.
pub open spec fn press_outcome<B: AudioSwitchBackend, H: DisplayPipeline>(
    pre: AudioToggleController<B, H>,
    post: AudioToggleController<B, H>,
    button: u8,
    now: u64,
    outcome: SwitchOutcome,
) -> bool {
    match outcome {
        SwitchOutcome::NotMine => post == pre && !spec_owns(pre.outputs@, button),
        SwitchOutcome::Deferred => post == pre && spec_owns(pre.outputs@, button)
            && !pre.availability.spec_acquired(now).1.0,
        SwitchOutcome::Switched => spec_owns(pre.outputs@, button)
            && pre.availability.spec_acquired(now).1.0 && toggle_frame(pre, post)
            && profiles_kept(pre.outputs@, post.outputs@) && post.availability
            == pre.availability.spec_acquired(now).0.spec_marked_available(),
        SwitchOutcome::Failed => spec_owns(pre.outputs@, button)
            && pre.availability.spec_acquired(now).1.0 && toggle_frame(pre, post)
            && profiles_kept(pre.outputs@, post.outputs@) && post.availability
            == pre.availability.spec_acquired(now).0.spec_marked_unavailable(now),
    }
}

impl<B: AudioSwitchBackend, H: DisplayPipeline> AudioToggleController<B, H> {
    pub open spec fn wf(self) -> bool {
        self.outputs@.len() >= 1
    }

    /// A controller over prepared outputs (selector, icons and label
    /// already built); refused without at least one output. All icons
    /// are pushed and the state read once.
    pub fn new(backend: B, hardware: H, outputs: Vec<OutputEntry>) -> (r: Result<
        AudioToggleController<B, H>,
        ControlError,
    >)
        ensures
            match r {
                Ok(c) => c.wf() && profiles_kept(outputs@, c.outputs@)
                    && c.availability.spec_available() && c.availability.spec_retry_after() == 0
                    && c.availability.spec_backoff_secs() == SWITCH_BACKOFF_SECS,
                Err(_) => true,
            },
    {
        if outputs.len() == 0 {
            return Err(
                ControlError::Backend(
                    crate::system::BackendError {
                        message: String::from_str(
                            "audio toggle requires at least one configured output",
                        ),
                    },
                ),
            );
        }
        let mut controller = AudioToggleController {
            backend,
            hardware,
            outputs,
            availability: RetryableAvailability::new(true, SWITCH_BACKOFF_SECS),
        };
        match controller.initialise_icons() {
            Ok(()) => {},
            Err(e) => {
                return Err(e);
            },
        }
        match controller.refresh_state() {
            Ok(()) => {},
            Err(e) => {
                return Err(e);
            },
        }
        Ok(controller)
    }

    fn initialise_icons(&mut self) -> (r: Result<(), ControlError>)
        ensures
            *final(self) == *old(self),
    {
        let mut idx: usize = 0;
        while idx < self.outputs.len()
            invariant
                *self == *old(self),
                idx <= self.outputs@.len(),
            decreases self.outputs@.len() - idx,
        {
            match self.push_icon(idx) {
                Ok(()) => {},
                Err(e) => {
                    return Err(e);
                },
            }
            idx = idx + 1;
        }
        Ok(())
    }

    /// Takes one observation of the sound server as plain values — the
    /// listed sinks and the current default — and stores each output's
    /// observed state exactly (`spec_observed`), pushing only changed
    /// icons. Profiles and the availability tracker are untouched.
    pub fn absorb_observation(
        &mut self,
        sinks: &Vec<crate::system::audio_switch::SinkInfo>,
        current: &Option<crate::system::audio_switch::SinkInfo>,
    ) -> (r: Result<(), ControlError>)
        ensures
            toggle_frame(*old(self), *final(self)),
            final(self).availability == old(self).availability,
            profiles_kept(old(self).outputs@, final(self).outputs@),
            (r matches Ok(_)) ==> forall|i: int|
                0 <= i < old(self).outputs@.len() ==> (#[trigger] final(self).outputs@[i]).state
                    == spec_observed(
                    old(self).outputs@[i].profile.selector@,
                    sinks@,
                    *current,
                ),
    {
        let mut index: usize = 0;
        while index < self.outputs.len()
            invariant
                toggle_frame(*old(self), *self),
                self.outputs@.len() == old(self).outputs@.len(),
                self.availability == old(self).availability,
                profiles_kept(old(self).outputs@, self.outputs@),
                index <= self.outputs@.len(),
                forall|i: int|
                    0 <= i < index ==> (#[trigger] self.outputs@[i]).state == spec_observed(
                        old(self).outputs@[i].profile.selector@,
                        sinks@,
                        *current,
                    ),
                forall|i: int|
                    index <= i < self.outputs@.len() ==> (#[trigger] self.outputs@[i])
                        == old(self).outputs@[i],
            decreases self.outputs@.len() - index,
        {
            let mut available = false;
            let mut s: usize = 0;
            while s < sinks.len()
                invariant
                    s <= sinks@.len(),
                    index < self.outputs@.len(),
                    available ==> exists|j: int|
                        0 <= j < sinks@.len()
                            && crate::system::audio_switch::spec_selector_matches(
                            self.outputs@[index as int].profile.selector@,
                            (#[trigger] sinks@[j])@,
                        ),
                    !available ==> forall|j: int|
                        0 <= j < s ==> !crate::system::audio_switch::spec_selector_matches(
                            self.outputs@[index as int].profile.selector@,
                            (#[trigger] sinks@[j])@,
                        ),
                decreases sinks@.len() - s,
            {
                if self.outputs[index].profile.selector.matches(&sinks[s]) {
                    available = true;
                    s = sinks.len();
                } else {
                    s = s + 1;
                }
            }
            let active = match current {
                Option::Some(sink) => self.outputs[index].profile.selector.matches(sink),
                Option::None => false,
            };
            let new_state = OutputState { available, active };
            proof {
                assert(new_state == spec_observed(
                    self.outputs@[index as int].profile.selector@,
                    sinks@,
                    *current,
                ));
            }
            match self.apply_state(index, new_state) {
                Ok(()) => {},
                Err(e) => {
                    return Err(e);
                },
            }
            index = index + 1;
        }
        Ok(())
    }

    /// Reads the sink list and default from the backend and absorbs the
    /// observation as `absorb_observation` says.
    pub fn refresh_state(&mut self) -> (r: Result<(), ControlError>)
        ensures
            toggle_frame(*old(self), *final(self)),
            final(self).availability == old(self).availability,
            profiles_kept(old(self).outputs@, final(self).outputs@),
    {
        let sinks = match self.backend.list_sinks() {
            Ok(s) => s,
            Err(e) => {
                return Err(ControlError::Backend(e));
            },
        };
        let current = match self.backend.current_default_sink() {
            Ok(c) => c,
            Err(e) => {
                return Err(ControlError::Backend(e));
            },
        };
        self.absorb_observation(&sinks, &current)
    }

    /// Stores an output's observed state; the icon is pushed only when
    /// the state changed.
    fn apply_state(&mut self, index: usize, new_state: OutputState) -> (r: Result<
        (),
        ControlError,
    >)
        requires
            index < old(self).outputs@.len(),
        ensures
            toggle_frame(*old(self), *final(self)),
            final(self).outputs@.len() == old(self).outputs@.len(),
            final(self).availability == old(self).availability,
            final(self).outputs@[index as int].state == new_state,
            final(self).outputs@[index as int].profile == old(self).outputs@[
                index as int].profile,
            forall|j: int|
                0 <= j < old(self).outputs@.len() && j != index ==> (#[trigger] final(self)
                    .outputs@[j]) == old(self).outputs@[j],
    {
        if self.outputs[index].state == new_state {
            return Ok(());
        }
        let entry = self.outputs.remove(index);
        let replaced = OutputEntry { profile: entry.profile, state: new_state };
        self.outputs.insert(index, replaced);
        proof {
            assert(self.outputs@[index as int].state == new_state);
            assert forall|j: int|
                0 <= j < old(self).outputs@.len() && j != index implies (#[trigger] self.outputs@[
            j]) == old(self).outputs@[j] by {
                if j < index {
                    assert(self.outputs@[j] == old(self).outputs@.remove(index as int)[j]);
                } else {
                    assert(self.outputs@[j] == old(self).outputs@.remove(index as int)[j - 1]);
                }
            }
        }
        self.push_icon(index)
    }

    fn push_icon(&self, index: usize) -> (r: Result<(), ControlError>)
        requires
            index < self.outputs@.len(),
    {
        let entry = &self.outputs[index];
        let icon = entry.profile.icons.icon(entry.state);
        match self.hardware.update_button_icon(entry.profile.button_index, Some(icon)) {
            Ok(()) => Ok(()),
            Err(e) => Err(ControlError::Pipeline(e)),
        }
    }

    /// The outputs assigned to a button, in configuration order.
    fn group_for(&self, button_index: u8) -> (r: Vec<usize>)
        ensures
            r@ == spec_group(self.outputs@, button_index, 0),
            forall|k: int| 0 <= k < r@.len() ==> #[trigger] r@[k] < self.outputs@.len(),
            r@.len() == 0 ==> forall|j: int|
                0 <= j < self.outputs@.len() ==> (#[trigger] self.outputs@[j])
                    .profile.button_index != button_index,
            r@.len() > 0 ==> spec_owns(self.outputs@, button_index),
    {
        let mut group: Vec<usize> = Vec::new();
        let mut idx: usize = 0;
        proof {
            assert(group@ + spec_group(self.outputs@, button_index, 0) =~= spec_group(
                self.outputs@,
                button_index,
                0,
            ));
        }
        while idx < self.outputs.len()
            invariant
                idx <= self.outputs@.len(),
                spec_group(self.outputs@, button_index, 0) == group@ + spec_group(
                    self.outputs@,
                    button_index,
                    idx as int,
                ),
                forall|k: int| 0 <= k < group@.len() ==> #[trigger] group@[k] < idx,
                group@.len() > 0 ==> self.outputs@[group@[0] as int].profile.button_index
                    == button_index,
                group@.len() == 0 ==> forall|j: int|
                    0 <= j < idx ==> (#[trigger] self.outputs@[j]).profile.button_index
                        != button_index,
            decreases self.outputs@.len() - idx,
        {
            let ghost pre = group@;
            if self.outputs[idx].profile.button_index == button_index {
                group.push(idx);
            }
            idx = idx + 1;
            proof {
                assert(spec_group(self.outputs@, button_index, 0) =~= group@ + spec_group(
                    self.outputs@,
                    button_index,
                    idx as int,
                ));
            }
        }
        proof {
            assert(spec_group(self.outputs@, button_index, idx as int) =~= Seq::<usize>::empty());
            assert(group@ =~= spec_group(self.outputs@, button_index, 0));
        }
        group
    }

    /// The next output a press selects within a group, exactly the
    /// documented choice: the output after the active one, cyclically;
    /// with none active, the first available; else the first configured.
    fn select_next_in_group(&self, indices: &Vec<usize>) -> (r: usize)
        requires
            indices@.len() >= 1,
            forall|k: int| 0 <= k < indices@.len() ==> #[trigger] indices@[k] < self.outputs@.len(),
        ensures
            r == spec_next_in_group(self.outputs@, indices@),
            exists|k: int| 0 <= k < indices@.len() && indices@[k] == r,
    {
        if indices.len() == 1 {
            proof {
                assert(indices@[0] == indices@[0]);
            }
            return indices[0];
        }
        let mut pos: usize = 0;
        while pos < indices.len()
            invariant
                pos <= indices@.len(),
                indices@.len() >= 2,
                forall|k: int|
                    0 <= k < indices@.len() ==> #[trigger] indices@[k] < self.outputs@.len(),
                spec_first_active(self.outputs@, indices@, 0) == spec_first_active(
                    self.outputs@,
                    indices@,
                    pos as int,
                ),
            decreases indices@.len() - pos,
        {
            if self.outputs[indices[pos]].state.active {
                proof {
                    assert(spec_first_active(self.outputs@, indices@, pos as int) == pos);
                }
                let next = if pos + 1 < indices.len() {
                    pos + 1
                } else {
                    0
                };
                proof {
                    assert(indices@[next as int] == indices@[next as int]);
                }
                return indices[next];
            }
            pos = pos + 1;
        }
        proof {
            assert(spec_first_active(self.outputs@, indices@, pos as int) == indices@.len());
        }
        let mut k: usize = 0;
        while k < indices.len()
            invariant
                k <= indices@.len(),
                indices@.len() >= 2,
                forall|m: int|
                    0 <= m < indices@.len() ==> #[trigger] indices@[m] < self.outputs@.len(),
                spec_first_active(self.outputs@, indices@, 0) == indices@.len(),
                spec_first_available(self.outputs@, indices@, 0) == spec_first_available(
                    self.outputs@,
                    indices@,
                    k as int,
                ),
            decreases indices@.len() - k,
        {
            if self.outputs[indices[k]].state.available {
                proof {
                    assert(spec_first_available(self.outputs@, indices@, k as int) == k);
                    assert(indices@[k as int] == indices@[k as int]);
                }
                return indices[k];
            }
            k = k + 1;
        }
        proof {
            assert(spec_first_available(self.outputs@, indices@, k as int) == indices@.len());
            assert(indices@[0] == indices@[0]);
        }
        indices[0]
    }

    /// A press at time `now`, related to the states exactly by
    /// `press_outcome`: a button owning no output changes nothing;
    /// within a failure's backoff window the press is absorbed without
    /// touching the tool; otherwise the group's documented next output
    /// (`spec_next_in_group`) is selected through the tool — on success
    /// the tracker ends available, on failure unavailable with the
    /// deadline `now` plus the backoff — and the observed state is
    /// refreshed.
    pub fn on_button_pressed_at(&mut self, button_index: u8, now: u64) -> (r: Result<
        SwitchOutcome,
        ControlError,
    >)
        requires
            old(self).wf(),
        ensures
            final(self).wf(),
            final(self).outputs@.len() == old(self).outputs@.len(),
            match r {
                Ok(outcome) => press_outcome(
                    *old(self),
                    *final(self),
                    button_index,
                    now,
                    outcome,
                ),
                Err(_) => true,
            },
    {
        let group = self.group_for(button_index);
        if group.len() == 0 {
            return Ok(SwitchOutcome::NotMine);
        }
        let ghost pre = *old(self);
        let (usable, _recovered) = self.availability.try_acquire_at(now);
        if !usable {
            return Ok(SwitchOutcome::Deferred);
        }
        let ghost granted = *self;
        let target_index = if group.len() == 1 {
            proof {
                assert(group@[0] == group@[0]);
            }
            group[0]
        } else {
            self.select_next_in_group(&group)
        };
        let switched = self.backend.set_default_sink(
            &self.outputs[target_index].profile.selector,
        );
        match switched {
            Ok(_) => {
                self.availability.mark_available();
                let ghost marked = *self;
                match self.refresh_state() {
                    Ok(()) => {},
                    Err(_) => {},
                }
                proof {
                    assert(self.availability == marked.availability);
                }
                Ok(SwitchOutcome::Switched)
            },
            Err(_) => {
                self.availability.mark_unavailable_at(now);
                let ghost marked = *self;
                match self.refresh_state() {
                    Ok(()) => {},
                    Err(_) => {},
                }
                proof {
                    assert(self.availability == marked.availability);
                }
                Ok(SwitchOutcome::Failed)
            },
        }
    }

    /// A press at the current wall-clock time; whatever the clock read,
    /// the states are related by `press_outcome` at that time.
    pub fn on_button_pressed(&mut self, button_index: u8) -> (r: Result<
        SwitchOutcome,
        ControlError,
    >)
        requires
            old(self).wf(),
        ensures
            final(self).wf(),
            final(self).outputs@.len() == old(self).outputs@.len(),
            match r {
                Ok(outcome) => exists|now: u64|
                    press_outcome(*old(self), *final(self), button_index, now, outcome),
                Err(_) => true,
            },
    {
        let now = now_secs();
        let pressed = self.on_button_pressed_at(button_index, now);
        proof {
            match pressed {
                Ok(outcome) => {
                    assert(press_outcome(*old(self), *self, button_index, now, outcome));
                },
                Err(_) => {},
            }
        }
        pressed
    }

    /// A tick re-reads the observed sink state; profiles and the
    /// availability tracker are untouched.
    pub fn on_tick(&mut self) -> (r: Result<(), ControlError>)
        requires
            old(self).wf(),
        ensures
            final(self).wf(),
            toggle_frame(*old(self), *final(self)),
            final(self).availability == old(self).availability,
            profiles_kept(old(self).outputs@, final(self).outputs@),
    {
        self.refresh_state()
    }
}

} // verus!

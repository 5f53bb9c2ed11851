//! Translation of raw device reports into debounced `HardwareEvent`s.
//!
//! Press state is edge-triggered: the previous pressed state of every
//! encoder and button is tracked, and an event is emitted only on a
//! transition, never on a repeated "still pressed" report. Rotation
//! deltas are passed through verbatim: every nonzero report is a real
//! detent and becomes exactly one event.

use vstd::prelude::*;

use crate::hardware::model::{EncoderId, HardwareEvent};

verus! {

/// Buttons beyond this many cannot be addressed by the `u8` index events
/// carry; later entries of a report are ignored.
pub const MAX_BUTTONS: usize = 256;

/// One raw report read from the device, already freed of device-specific
/// encoding: pressed flags per button, pressed flags per encoder, or one
/// signed rotation delta per encoder.
pub enum InputReport {
    NoData,
    ButtonStates(Vec<bool>),
    EncoderStates(Vec<bool>),
    EncoderTwists(Vec<i8>),
    Other,
}

/// The previous pressed state the debouncer compares reports against.
pub struct DebounceState {
    pub encoder_pressed: Vec<bool>,
    pub button_pressed: Vec<bool>,
}

pub open spec fn enc_of(i: int) -> EncoderId {
    if i == 0 {
        EncoderId::One
    } else if i == 1 {
        EncoderId::Two
    } else if i == 2 {
        EncoderId::Three
    } else {
        EncoderId::Four
    }
}

/// Previous pressed state at an index, false where none was tracked yet.
pub open spec fn prev_at(prev: Seq<bool>, i: int) -> bool {
    if 0 <= i < prev.len() {
        prev[i]
    } else {
        false
    }
}

/// Events of one rotation report, scanning from encoder `i` on: one
/// event per nonzero delta among the first four encoders, sign and
/// magnitude kept, nothing for zero deltas.
pub open spec fn spec_twists(deltas: Seq<i8>, i: int) -> Seq<HardwareEvent>
    decreases deltas.len() - i,
{
    if i < 0 || i >= deltas.len() || i >= 4 {
        seq![]
    } else {
        let head = if deltas[i] != 0 {
            seq![
                HardwareEvent::EncoderTurned { encoder: enc_of(i), delta: deltas[i] as i32 },
            ]
        } else {
            seq![]
        };
        head + spec_twists(deltas, i + 1)
    }
}

pub open spec fn button_edge(i: int, pressed: bool) -> HardwareEvent {
    if pressed {
        HardwareEvent::ButtonPressed(i as u8)
    } else {
        HardwareEvent::ButtonReleased(i as u8)
    }
}

pub open spec fn encoder_edge(i: int, pressed: bool) -> HardwareEvent {
    if pressed {
        HardwareEvent::EncoderPressed { encoder: enc_of(i) }
    } else {
        HardwareEvent::EncoderReleased { encoder: enc_of(i) }
    }
}

/// Button events of one report against the tracked state, from index `i`
/// on: one event exactly where the reported flag differs from the
/// tracked one.
pub open spec fn spec_button_edges(prev: Seq<bool>, states: Seq<bool>, i: int) -> Seq<
    HardwareEvent,
>
    decreases states.len() - i,
{
    if i < 0 || i >= states.len() {
        seq![]
    } else {
        let head = if prev_at(prev, i) != states[i] {
            seq![button_edge(i, states[i])]
        } else {
            seq![]
        };
        head + spec_button_edges(prev, states, i + 1)
    }
}

/// Encoder press events of one report, from index `i` on, covering the
/// four tracked encoders.
pub open spec fn spec_encoder_edges(prev: Seq<bool>, states: Seq<bool>, i: int) -> Seq<
    HardwareEvent,
>
    decreases states.len() - i,
{
    if i < 0 || i >= states.len() || i >= 4 {
        seq![]
    } else {
        let head = if prev_at(prev, i) != states[i] {
            seq![encoder_edge(i, states[i])]
        } else {
            seq![]
        };
        head + spec_encoder_edges(prev, states, i + 1)
    }
}

/// Tracked state after a button report: reported flags take over, flags
/// beyond the report keep their old value, the tracked list grows to the
/// report's length where it was shorter.
pub open spec fn spec_merged(prev: Seq<bool>, states: Seq<bool>) -> Seq<bool> {
    let n = if prev.len() >= states.len() {
        prev.len()
    } else {
        states.len()
    };
    Seq::new(n, |i: int| if i < states.len() { states[i] } else { prev[i] })
}

impl DebounceState {
    /// Four tracked encoders; the button list only ever grows.
    pub open spec fn wf(self) -> bool {
        self.encoder_pressed@.len() == 4 && self.button_pressed@.len() <= MAX_BUTTONS
    }

    /// All-released tracking for four encoders and `buttons` buttons.
    pub fn new(buttons: usize) -> (r: DebounceState)
        requires
            buttons <= MAX_BUTTONS,
        ensures
            r.wf(),
            r.encoder_pressed@ == Seq::new(4, |i: int| false),
            r.button_pressed@ == Seq::new(buttons as nat, |i: int| false),
    {
        let mut encoder_pressed: Vec<bool> = Vec::new();
        encoder_pressed.push(false);
        encoder_pressed.push(false);
        encoder_pressed.push(false);
        encoder_pressed.push(false);
        let mut button_pressed: Vec<bool> = Vec::new();
        let mut i: usize = 0;
        while i < buttons
            invariant
                i <= buttons,
                button_pressed@ == Seq::new(i as nat, |j: int| false),
            decreases buttons - i,
        {
            button_pressed.push(false);
            i = i + 1;
            proof {
                assert(button_pressed@ =~= Seq::new(i as nat, |j: int| false));
            }
        }
        proof {
            assert(encoder_pressed@ =~= Seq::new(4, |i: int| false));
        }
        DebounceState { encoder_pressed, button_pressed }
    }

    /// Turns one raw report into the events it stands for, updating the
    /// tracked press state. Rotation deltas emit verbatim; press flags
    /// emit only on a transition; `NoData` and unknown reports emit
    /// nothing and change nothing.
    pub fn translate(&mut self, report: InputReport) -> (events: Vec<HardwareEvent>)
        requires
            old(self).wf(),
        ensures
            final(self).wf(),
            match report {
                InputReport::NoData => events@ == Seq::<HardwareEvent>::empty() && *final(self)
                    == *old(self),
                InputReport::Other => events@ == Seq::<HardwareEvent>::empty() && *final(self)
                    == *old(self),
                InputReport::EncoderTwists(deltas) => events@ == spec_twists(deltas@, 0)
                    && *final(self) == *old(self),
                InputReport::EncoderStates(states) => events@ == spec_encoder_edges(
                    old(self).encoder_pressed@,
                    states@,
                    0,
                ) && final(self).encoder_pressed@ == Seq::new(
                    4,
                    |i: int|
                        if i < states@.len() {
                            states@[i]
                        } else {
                            old(self).encoder_pressed@[i]
                        },
                ) && final(self).button_pressed@ == old(self).button_pressed@,
                InputReport::ButtonStates(states) => {
                    let kept = if states@.len() <= MAX_BUTTONS {
                        states@
                    } else {
                        states@.take(MAX_BUTTONS as int)
                    };
                    events@ == spec_button_edges(old(self).button_pressed@, kept, 0)
                        && final(self).button_pressed@ == spec_merged(
                        old(self).button_pressed@,
                        kept,
                    ) && final(self).encoder_pressed@ == old(self).encoder_pressed@
                },
            },
    {
        match report {
            InputReport::NoData => Vec::new(),
            InputReport::Other => Vec::new(),
            InputReport::EncoderTwists(deltas) => self.twist_events(&deltas),
            InputReport::EncoderStates(states) => self.encoder_edge_events(&states),
            InputReport::ButtonStates(states) => self.button_edge_events(&states),
        }
    }

    fn twist_events(&mut self, deltas: &Vec<i8>) -> (events: Vec<HardwareEvent>)
        ensures
            *final(self) == *old(self),
            events@ == spec_twists(deltas@, 0),
    {
        let mut events: Vec<HardwareEvent> = Vec::new();
        let mut i: usize = 0;
        let n = if deltas.len() < 4 {
            deltas.len()
        } else {
            4
        };
        proof {
            assert(events@ + spec_twists(deltas@, 0) =~= spec_twists(deltas@, 0));
        }
        while i < n
            invariant
                n <= deltas@.len() && n <= 4,
                deltas@.len() <= 4 ==> n == deltas@.len(),
                deltas@.len() > 4 ==> n == 4,
                i <= n,
                spec_twists(deltas@, 0) == events@ + spec_twists(deltas@, i as int),
            decreases n - i,
        {
            let ghost pre = events@;
            let d = deltas[i];
            if d != 0 {
                let encoder = match EncoderId::from_index(i) {
                    Some(e) => e,
                    None => {
                        proof {
                            assert(false);
                        }
                        EncoderId::One
                    },
                };
                proof {
                    assert(encoder == enc_of(i as int));
                }
                events.push(HardwareEvent::EncoderTurned { encoder, delta: d as i32 });
            }
            i = i + 1;
            proof {
                assert(spec_twists(deltas@, 0) =~= events@ + spec_twists(deltas@, i as int));
            }
        }
        proof {
            assert(spec_twists(deltas@, n as int) =~= Seq::<HardwareEvent>::empty());
            assert(events@ =~= spec_twists(deltas@, 0));
        }
        events
    }

    fn encoder_edge_events(&mut self, states: &Vec<bool>) -> (events: Vec<HardwareEvent>)
        requires
            old(self).wf(),
        ensures
            final(self).wf(),
            final(self).button_pressed@ == old(self).button_pressed@,
            events@ == spec_encoder_edges(old(self).encoder_pressed@, states@, 0),
            final(self).encoder_pressed@ == Seq::new(
                4,
                |i: int|
                    if i < states@.len() {
                        states@[i]
                    } else {
                        old(self).encoder_pressed@[i]
                    },
            ),
    {
        let ghost prev0 = self.encoder_pressed@;
        let mut events: Vec<HardwareEvent> = Vec::new();
        let mut i: usize = 0;
        let n = if states.len() < 4 {
            states.len()
        } else {
            4
        };
        proof {
            assert(events@ + spec_encoder_edges(prev0, states@, 0) =~= spec_encoder_edges(
                prev0,
                states@,
                0,
            ));
        }
        while i < n
            invariant
                old(self).wf(),
                self.encoder_pressed@.len() == 4,
                self.button_pressed@ == old(self).button_pressed@,
                n <= states@.len() && n <= 4,
                states@.len() <= 4 ==> n == states@.len(),
                states@.len() > 4 ==> n == 4,
                i <= n,
                prev0 == old(self).encoder_pressed@,
                spec_encoder_edges(prev0, states@, 0) == events@ + spec_encoder_edges(
                    prev0,
                    states@,
                    i as int,
                ),
                self.encoder_pressed@ == Seq::new(
                    4,
                    |j: int|
                        if j < i && j < states@.len() {
                            states@[j]
                        } else {
                            prev0[j]
                        },
                ),
            decreases n - i,
        {
            let s = states[i];
            if self.encoder_pressed[i] != s {
                let encoder = match EncoderId::from_index(i) {
                    Some(e) => e,
                    None => {
                        proof {
                            assert(false);
                        }
                        EncoderId::One
                    },
                };
                proof {
                    assert(encoder == enc_of(i as int));
                }
                events.push(
                    if s {
                        HardwareEvent::EncoderPressed { encoder }
                    } else {
                        HardwareEvent::EncoderReleased { encoder }
                    },
                );
            }
            self.encoder_pressed.set(i, s);
            i = i + 1;
            proof {
                assert(spec_encoder_edges(prev0, states@, 0) =~= events@ + spec_encoder_edges(
                    prev0,
                    states@,
                    i as int,
                ));
                assert(self.encoder_pressed@ =~= Seq::new(
                    4,
                    |j: int|
                        if j < i && j < states@.len() {
                            states@[j]
                        } else {
                            prev0[j]
                        },
                ));
            }
        }
        proof {
            assert(spec_encoder_edges(prev0, states@, n as int) =~= Seq::<
                HardwareEvent,
            >::empty());
            assert(events@ =~= spec_encoder_edges(prev0, states@, 0));
            assert(self.encoder_pressed@ =~= Seq::new(
                4,
                |j: int|
                    if j < states@.len() {
                        states@[j]
                    } else {
                        prev0[j]
                    },
            ));
        }
        events
    }

    fn button_edge_events(&mut self, states: &Vec<bool>) -> (events: Vec<HardwareEvent>)
        requires
            old(self).wf(),
        ensures
            final(self).wf(),
            final(self).encoder_pressed@ == old(self).encoder_pressed@,
            ({
                let kept = if states@.len() <= MAX_BUTTONS {
                    states@
                } else {
                    states@.take(MAX_BUTTONS as int)
                };
                events@ == spec_button_edges(old(self).button_pressed@, kept, 0)
                    && final(self).button_pressed@ == spec_merged(old(self).button_pressed@, kept)
            }),
    {
        let ghost prev0 = self.button_pressed@;
        let n = if states.len() <= MAX_BUTTONS {
            states.len()
        } else {
            MAX_BUTTONS
        };
        let ghost kept = states@.take(n as int);
        proof {
            if states@.len() <= MAX_BUTTONS {
                assert(kept =~= states@);
            }
        }
        let mut events: Vec<HardwareEvent> = Vec::new();
        let mut i: usize = 0;
        proof {
            assert(events@ + spec_button_edges(prev0, kept, 0) =~= spec_button_edges(
                prev0,
                kept,
                0,
            ));
        }
        while i < n
            invariant
                old(self).wf(),
                self.encoder_pressed@ == old(self).encoder_pressed@,
                n <= states@.len() && n <= MAX_BUTTONS,
                kept == states@.take(n as int),
                kept.len() == n,
                i <= n,
                prev0 == old(self).button_pressed@,
                spec_button_edges(prev0, kept, 0) == events@ + spec_button_edges(
                    prev0,
                    kept,
                    i as int,
                ),
                self.button_pressed@.len() == (if prev0.len() >= i {
                    prev0.len()
                } else {
                    i as nat
                }),
                self.button_pressed@.len() <= MAX_BUTTONS,
                forall|j: int|
                    0 <= j < self.button_pressed@.len() ==> self.button_pressed@[j] == (if j < i {
                        kept[j]
                    } else {
                        prev0[j]
                    }),
            decreases n - i,
        {
            let s = states[i];
            if i >= self.button_pressed.len() {
                self.button_pressed.push(false);
            }
            let previous = self.button_pressed[i];
            if previous != s {
                events.push(
                    if s {
                        HardwareEvent::ButtonPressed(i as u8)
                    } else {
                        HardwareEvent::ButtonReleased(i as u8)
                    },
                );
                proof {
                    assert(prev_at(prev0, i as int) != kept[i as int]);
                }
            } else {
                proof {
                    assert(prev_at(prev0, i as int) == kept[i as int]);
                }
            }
            self.button_pressed.set(i, s);
            i = i + 1;
            proof {
                assert(spec_button_edges(prev0, kept, 0) =~= events@ + spec_button_edges(
                    prev0,
                    kept,
                    i as int,
                ));
            }
        }
        proof {
            assert(spec_button_edges(prev0, kept, n as int) =~= Seq::<HardwareEvent>::empty());
            assert(events@ =~= spec_button_edges(prev0, kept, 0));
            assert(self.button_pressed@ =~= spec_merged(prev0, kept));
        }
        events
    }
}

/// Rotation law: when every delta of a report (up to the four encoders)
/// is nonzero, exactly one event per delta is emitted, in report order,
/// with the delta's sign and magnitude kept and no coalescing.
pub proof fn lemma_twists_verbatim(deltas: Seq<i8>)
    requires
        deltas.len() <= 4,
        forall|i: int| 0 <= i < deltas.len() ==> deltas[i] != 0,
    ensures
        spec_twists(deltas, 0).len() == deltas.len(),
        forall|i: int|
            0 <= i < deltas.len() ==> spec_twists(deltas, 0)[i] == (HardwareEvent::EncoderTurned {
                encoder: enc_of(i),
                delta: deltas[i] as i32,
            }),
{
    lemma_twists_verbatim_from(deltas, 0);
}

proof fn lemma_twists_verbatim_from(deltas: Seq<i8>, k: int)
    requires
        deltas.len() <= 4,
        0 <= k <= deltas.len(),
        forall|i: int| 0 <= i < deltas.len() ==> deltas[i] != 0,
    ensures
        spec_twists(deltas, k).len() == deltas.len() - k,
        forall|i: int|
            k <= i < deltas.len() ==> spec_twists(deltas, k)[i - k]
                == (HardwareEvent::EncoderTurned {
                encoder: enc_of(i),
                delta: deltas[i] as i32,
            }),
    decreases deltas.len() - k,
{
    if k < deltas.len() {
        lemma_twists_verbatim_from(deltas, k + 1);
    }
}

/// Debounce law, no transition: a report that matches the tracked state
/// exactly emits no event at all.
pub proof fn lemma_edges_silent(prev: Seq<bool>, states: Seq<bool>)
    requires
        forall|i: int| 0 <= i < states.len() ==> states[i] == prev_at(prev, i),
    ensures
        spec_button_edges(prev, states, 0) == Seq::<HardwareEvent>::empty(),
        spec_encoder_edges(prev, states, 0) == Seq::<HardwareEvent>::empty(),
{
    lemma_edges_silent_from(prev, states, 0);
}

proof fn lemma_edges_silent_from(prev: Seq<bool>, states: Seq<bool>, k: int)
    requires
        0 <= k <= states.len(),
        forall|i: int| 0 <= i < states.len() ==> states[i] == prev_at(prev, i),
    ensures
        spec_button_edges(prev, states, k) == Seq::<HardwareEvent>::empty(),
        spec_encoder_edges(prev, states, k) == Seq::<HardwareEvent>::empty(),
    decreases states.len() - k,
{
    if k < states.len() {
        lemma_edges_silent_from(prev, states, k + 1);
        assert(spec_button_edges(prev, states, k) =~= Seq::<HardwareEvent>::empty());
        assert(spec_encoder_edges(prev, states, k) =~= Seq::<HardwareEvent>::empty());
    }
}

/// Debounce law, press then release: a report pair that presses one
/// button and then releases it emits exactly one pressed event and then
/// exactly one released event; identical reports in between (covered by
/// the silence law above) emit nothing.
pub proof fn lemma_press_release_pair(prev: Seq<bool>, press: Seq<bool>, t: int)
    requires
        0 <= t < press.len(),
        !prev_at(prev, t),
        press[t],
        forall|i: int| 0 <= i < press.len() && i != t ==> press[i] == prev_at(prev, i),
    ensures
        spec_button_edges(prev, press, 0) == seq![HardwareEvent::ButtonPressed(t as u8)],
        spec_button_edges(spec_merged(prev, press), press.update(t, false), 0) == seq![
            HardwareEvent::ButtonReleased(t as u8),
        ],
{
    lemma_edges_single(prev, press, t);
    let merged = spec_merged(prev, press);
    let release = press.update(t, false);
    assert(release[t] != prev_at(merged, t));
    assert(forall|i: int|
        0 <= i < release.len() && i != t ==> release[i] == prev_at(merged, i));
    lemma_edges_single(merged, release, t);
    assert(button_edge(t, press[t]) == HardwareEvent::ButtonPressed(t as u8));
    assert(button_edge(t, release[t]) == HardwareEvent::ButtonReleased(t as u8));
}

/// Debounce law, one transition: a report that differs from the tracked
/// state at exactly one index emits exactly the one corresponding
/// pressed or released event.
pub proof fn lemma_edges_single(prev: Seq<bool>, states: Seq<bool>, t: int)
    requires
        0 <= t < states.len(),
        states[t] != prev_at(prev, t),
        forall|i: int| 0 <= i < states.len() && i != t ==> states[i] == prev_at(prev, i),
    ensures
        spec_button_edges(prev, states, 0) == seq![button_edge(t, states[t])],
        t < 4 ==> spec_encoder_edges(prev, states, 0) == seq![encoder_edge(t, states[t])],
{
    lemma_edges_single_from(prev, states, t, 0);
}

proof fn lemma_edges_single_from(prev: Seq<bool>, states: Seq<bool>, t: int, k: int)
    requires
        0 <= k <= states.len(),
        0 <= t < states.len(),
        states[t] != prev_at(prev, t),
        forall|i: int| 0 <= i < states.len() && i != t ==> states[i] == prev_at(prev, i),
    ensures
        k <= t ==> spec_button_edges(prev, states, k) == seq![button_edge(t, states[t])],
        k > t ==> spec_button_edges(prev, states, k) == Seq::<HardwareEvent>::empty(),
        k <= t && t < 4 ==> spec_encoder_edges(prev, states, k) == seq![
            encoder_edge(t, states[t]),
        ],
        (k > t || t >= 4) && k >= 4 ==> spec_encoder_edges(prev, states, k) == Seq::<
            HardwareEvent,
        >::empty(),
        k > t && k < 4 ==> spec_encoder_edges(prev, states, k) == Seq::<HardwareEvent>::empty(),
        t >= 4 && k <= t ==> spec_encoder_edges(prev, states, k) == Seq::<HardwareEvent>::empty(),
    decreases states.len() - k,
{
    if k < states.len() {
        lemma_edges_single_from(prev, states, t, k + 1);
        if k == t {
            assert(spec_button_edges(prev, states, k) =~= seq![button_edge(t, states[t])]);
            if t < 4 {
                assert(spec_encoder_edges(prev, states, k) =~= seq![
                    encoder_edge(t, states[t]),
                ]);
            }
        } else {
            if k <= t {
                assert(spec_button_edges(prev, states, k) =~= seq![button_edge(t, states[t])]);
            } else {
                assert(spec_button_edges(prev, states, k) =~= Seq::<HardwareEvent>::empty());
            }
            if k < 4 {
                if k <= t && t < 4 {
                    assert(spec_encoder_edges(prev, states, k) =~= seq![
                        encoder_edge(t, states[t]),
                    ]);
                } else {
                    assert(spec_encoder_edges(prev, states, k) =~= Seq::<
                        HardwareEvent,
                    >::empty());
                }
            }
        }
    } else {
        if t >= 4 && k <= t {
            assert(spec_encoder_edges(prev, states, k) == Seq::<HardwareEvent>::empty());
        }
    }
}

} // verus!

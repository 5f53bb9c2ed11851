//! The two one-directional channels that decouple the hardware thread
//! from the rest of the system, and the cloneable handle controllers
//! write commands through.
//!
//! The channel types come from the outside concurrency crate; what a
//! receive yields depends on the other threads, so nothing is assumed of
//! it beyond the variant split, and all decisions on received values are
//! made by verified callers.

use vstd::prelude::*;

use crate::hardware::model::{
    ButtonImage, DisplayPipeline, EncoderDisplay, EncoderId, HardwareCommand, HardwareEvent,
    PipelineError,
};

verus! {

#[verifier::external_type_specification]
#[verifier::external_body]
#[verifier::reject_recursive_types(T)]
pub struct ExSender<T>(crossbeam_channel::Sender<T>);

#[verifier::external_type_specification]
#[verifier::external_body]
#[verifier::reject_recursive_types(T)]
pub struct ExReceiver<T>(crossbeam_channel::Receiver<T>);

/// Outcome of one non-blocking receive: a value, nothing pending, or a
/// channel whose senders are all gone.
pub enum TryRecv<T> {
    Got(T),
    Empty,
    Closed,
}

/// Relies on `crossbeam_channel::Receiver::try_recv`: a non-blocking
/// poll. Which variant comes back depends on the other threads, so
/// nothing is assumed of the result.
#[verifier::external_body]
pub fn chan_try_recv<T>(rx: &crossbeam_channel::Receiver<T>) -> TryRecv<T> {
    match rx.try_recv() {
        Ok(value) => TryRecv::Got(value),
        Err(crossbeam_channel::TryRecvError::Empty) => TryRecv::Empty,
        Err(crossbeam_channel::TryRecvError::Disconnected) => TryRecv::Closed,
    }
}

/// Relies on `crossbeam_channel::Sender::send`: hands the value to the
/// channel; false when every receiver is gone. On a bounded channel that
/// is full, `send` blocks until there is room; the library only ever
/// sends on the unbounded channels its callers create. Nothing more is
/// assumed.
#[verifier::external_body]
pub fn chan_send<T>(tx: &crossbeam_channel::Sender<T>, value: T) -> bool {
    tx.send(value).is_ok()
}

/// Relies on `crossbeam_channel::Sender::clone`: another sender for the
/// same channel.
#[verifier::external_body]
pub fn clone_sender<T>(tx: &crossbeam_channel::Sender<T>) -> (r: crossbeam_channel::Sender<T>)
    ensures
        r == *tx,
{
    tx.clone()
}

/// The cloneable handle the controllers hold: a sender into the hardware
/// thread's command channel.
pub struct HardwareHandle {
    command_tx: crossbeam_channel::Sender<HardwareCommand>,
}

impl HardwareHandle {
    pub fn new(command_tx: crossbeam_channel::Sender<HardwareCommand>) -> HardwareHandle {
        HardwareHandle { command_tx }
    }

    /// Another handle to the same command channel.
    pub fn duplicate(&self) -> HardwareHandle {
        HardwareHandle { command_tx: clone_sender(&self.command_tx) }
    }

    /// Asks the backend to show nothing on any encoder region: one blank
    /// display per encoder. Fails only when the backend is gone.
    pub fn clear_all_displays(&self) -> Result<(), PipelineError> {
        let encoders = EncoderId::all();
        let mut i: usize = 0;
        while i < 4
            decreases 4 - i,
        {
            let blank = EncoderDisplay::new(String::new(), String::new());
            let encoder = encoders[i];
            let ok = chan_send(
                &self.command_tx,
                HardwareCommand::UpdateEncoderDisplay { encoder, display: blank },
            );
            if !ok {
                return Err(PipelineError::ChannelClosed);
            }
            i = i + 1;
        }
        Ok(())
    }
}

impl DisplayPipeline for HardwareHandle {
    fn update_encoder(&self, encoder: EncoderId, display: EncoderDisplay) -> Result<
        (),
        PipelineError,
    > {
        if chan_send(&self.command_tx, HardwareCommand::UpdateEncoderDisplay { encoder, display })
            {
            Ok(())
        } else {
            Err(PipelineError::ChannelClosed)
        }
    }

    fn update_button_icon(&self, index: u8, icon: Option<ButtonImage>) -> Result<
        (),
        PipelineError,
    > {
        if chan_send(&self.command_tx, HardwareCommand::UpdateButtonIcon { index, icon }) {
            Ok(())
        } else {
            Err(PipelineError::ChannelClosed)
        }
    }
}

/// Drains up to `limit` pending commands without blocking, in arrival
/// order; the flag says whether the channel is closed for good.
pub fn drain_commands(
    rx: &crossbeam_channel::Receiver<HardwareCommand>,
    limit: usize,
) -> (r: (Vec<HardwareCommand>, bool))
    ensures
        r.0@.len() <= limit,
{
    let mut out: Vec<HardwareCommand> = Vec::new();
    let mut closed = false;
    let mut i: usize = 0;
    while i < limit
        invariant
            i <= limit,
            out@.len() <= i,
        decreases limit - i,
    {
        match chan_try_recv(rx) {
            TryRecv::Got(cmd) => {
                out.push(cmd);
            },
            TryRecv::Empty => {
                return (out, closed);
            },
            TryRecv::Closed => {
                closed = true;
                return (out, closed);
            },
        }
        i = i + 1;
    }
    (out, closed)
}

/// Sends translated events on; false once every receiver is gone.
pub fn forward_events(
    tx: &crossbeam_channel::Sender<HardwareEvent>,
    events: Vec<HardwareEvent>,
) -> bool {
    let mut events = events;
    let mut all_sent = true;
    while events.len() > 0
        decreases events@.len(),
    {
        let event = events.remove(0);
        if !chan_send(tx, event) {
            all_sent = false;
        }
    }
    all_sent
}

} // verus!

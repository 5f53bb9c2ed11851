//! The domain controllers, and the two capability interfaces every one
//! of them implements: interactive (turn, press, release) and periodic
//! (tick). A controller owns its backend handle, is called only from the
//! dispatch loop's thread, and issues display or icon commands through
//! its pipeline as the observable side effect of each call.

pub mod audio_toggle;
pub mod brightness;
pub mod launcher;
pub mod now_playing;
pub mod timer;
pub mod volume;

use vstd::prelude::*;

use crate::hardware::model::PipelineError;
use crate::system::BackendError;

verus! {

/// Why a controller call failed: the display pipeline is gone, or the
/// backend reported an error.
#[derive(Debug)]
pub enum ControlError {
    Pipeline(PipelineError),
    Backend(BackendError),
}

/// The interactive capability: called synchronously from the dispatch
/// loop for the one encoder the event targets. `inv` is the controller's
/// own well-formedness, which every call preserves.
pub trait EncoderController {
    spec fn inv(&self) -> bool;

    fn on_turn(&mut self, delta: i32) -> (r: Result<(), ControlError>)
        requires
            old(self).inv(),
        ensures
            final(self).inv(),
    ;

    fn on_press(&mut self) -> (r: Result<(), ControlError>)
        requires
            old(self).inv(),
        ensures
            final(self).inv(),
    ;

    fn on_release(&mut self) -> (r: Result<(), ControlError>)
        requires
            old(self).inv(),
        ensures
            final(self).inv(),
    ;
}

/// The periodic capability: called for every registered controller on
/// every tick, regardless of input; `inv` as above.
pub trait Tickable {
    spec fn tick_inv(&self) -> bool;

    fn on_tick(&mut self) -> (r: Result<(), ControlError>)
        requires
            old(self).tick_inv(),
        ensures
            final(self).tick_inv(),
    ;
}

} // verus!

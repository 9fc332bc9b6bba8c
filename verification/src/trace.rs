//! Whole runs of the frame driver: the sequence of actions it asks for over
//! a sequence of events, and the account that every run keeps.

use vstd::prelude::*;
use crate::frame::{Action, DriverState, DriverView, Event, FrameFailure, FatalError};

verus! {

/// How often each kind of work was asked for in a run.
pub struct Ledger {
    /// Frames begun: first requests for an image.
    pub acquires: nat,
    /// Second requests for an image, each after configuring the surface again.
    pub retries: nat,
    /// Render passes recorded and submitted.
    pub encodes: nat,
    /// Images handed over for presentation.
    pub presents: nat,
    /// Frames that reached the screen.
    pub shown: nat,
    /// Frames given up because no image could be acquired.
    pub dropped_acquiring: nat,
    /// Frames given up because the image could not be presented.
    pub dropped_presenting: nat,
    /// Runs ended for want of memory while acquiring: 0 or 1.
    pub aborted_acquiring: nat,
    /// Runs ended for want of memory while presenting: 0 or 1.
    pub aborted_presenting: nat,
}

impl Ledger {
    /// The ledger of a run that has not begun.
    pub open spec fn empty() -> Ledger {
        Ledger {
            acquires: 0,
            retries: 0,
            encodes: 0,
            presents: 0,
            shown: 0,
            dropped_acquiring: 0,
            dropped_presenting: 0,
            aborted_acquiring: 0,
            aborted_presenting: 0,
        }
    }

    /// The ledger after one more action.
    pub open spec fn record(self, action: Action) -> Ledger {
        match action {
            Action::Acquire => Ledger { acquires: self.acquires + 1, ..self },
            Action::ReconfigureAndAcquire => Ledger { retries: self.retries + 1, ..self },
            Action::Encode(_) => Ledger { encodes: self.encodes + 1, ..self },
            Action::Present => Ledger { presents: self.presents + 1, ..self },
            Action::FramePresented => Ledger { shown: self.shown + 1, ..self },
            Action::FrameDropped(FrameFailure::Acquire(_)) => Ledger {
                dropped_acquiring: self.dropped_acquiring + 1,
                ..self
            },
            Action::FrameDropped(FrameFailure::Present) => Ledger {
                dropped_presenting: self.dropped_presenting + 1,
                ..self
            },
            Action::Abort(FatalError::AcquireOutOfMemory) => Ledger {
                aborted_acquiring: self.aborted_acquiring + 1,
                ..self
            },
            Action::Abort(FatalError::PresentOutOfMemory) => Ledger {
                aborted_presenting: self.aborted_presenting + 1,
                ..self
            },
            _ => self,
        }
    }

    /// The ledger agrees with the state the driver is in.
    ///
    /// Every frame begun has either encoded its pass, or was given up or
    /// aborted while acquiring, or is acquiring still. Every pass encoded was
    /// handed over for presentation, unless it is being encoded still. Every
    /// image handed over was shown, given up or aborted, unless it is being
    /// presented still. No frame has retried more than once, and a frame on
    /// its first request has not retried at all.
    pub open spec fn balanced(self, state: DriverState) -> bool {
        &&& self.acquires == self.encodes + self.dropped_acquiring + self.aborted_acquiring + (
        if state is Acquiring {
            1nat
        } else {
            0nat
        })
        &&& self.encodes == self.presents + (if state == DriverState::Encoding {
            1nat
        } else {
            0nat
        })
        &&& self.presents == self.shown + self.dropped_presenting + self.aborted_presenting + (
        if state == DriverState::Presenting {
            1nat
        } else {
            0nat
        })
        &&& self.retries + (if state == (DriverState::Acquiring { retried: false }) {
            1nat
        } else {
            0nat
        }) <= self.acquires
        &&& self.aborted_acquiring + self.aborted_presenting == (if state == DriverState::Error {
            1nat
        } else {
            0nat
        })
    }
}

impl DriverView {
    /// The driver after a sequence of events.
    pub open spec fn run(self, events: Seq<Event>) -> DriverView
        decreases events.len(),
    {
        if events.len() == 0 {
            self
        } else {
            self.run(events.drop_last()).step(events.last()).0
        }
    }

    /// The ledger of the actions asked for over a sequence of events.
    pub open spec fn tally(self, events: Seq<Event>) -> Ledger
        decreases events.len(),
    {
        if events.len() == 0 {
            Ledger::empty()
        } else {
            self.tally(events.drop_last()).record(
                self.run(events.drop_last()).step(events.last()).1,
            )
        }
    }
}

/// One step keeps the ledger balanced.
pub proof fn lemma_step_balanced(driver: DriverView, ledger: Ledger, event: Event)
    requires
        ledger.balanced(driver.state),
    ensures
        ledger.record(driver.step(event).1).balanced(driver.step(event).0.state),
{
}

/// Whatever events an idle driver is handed, in whatever order, its ledger
/// stays balanced and the driver well formed: each frame asks for an image
/// at most twice, each acquired image gets exactly one render pass, each
/// pass is presented exactly once, and out of memory ends the run once.
pub proof fn lemma_run_balanced(driver: DriverView, events: Seq<Event>)
    requires
        driver.wf(),
        driver.state == DriverState::Idle,
    ensures
        driver.run(events).wf(),
        driver.tally(events).balanced(driver.run(events).state),
        driver.run(events).pipeline == driver.pipeline,
        driver.run(events).config.format == driver.config.format,
    decreases events.len(),
{
    if events.len() > 0 {
        lemma_run_balanced(driver, events.drop_last());
        lemma_step_balanced(
            driver.run(events.drop_last()),
            driver.tally(events.drop_last()),
            events.last(),
        );
    }
}

/// In a run that ends idle, every frame begun was either shown or given up.
pub proof fn lemma_idle_run_is_settled(driver: DriverView, events: Seq<Event>)
    requires
        driver.wf(),
        driver.state == DriverState::Idle,
        driver.run(events).state == DriverState::Idle,
    ensures
        driver.tally(events).acquires == driver.tally(events).shown + driver.tally(
            events,
        ).dropped_acquiring + driver.tally(events).dropped_presenting,
        driver.tally(events).encodes == driver.tally(events).presents,
        driver.tally(events).presents == driver.tally(events).shown + driver.tally(
            events,
        ).dropped_presenting,
        driver.tally(events).retries <= driver.tally(events).acquires,
{
    lemma_run_balanced(driver, events);
}

} // verus!

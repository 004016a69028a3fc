//! The frame loop of the bridge as a state machine: what is asked of the
//! scheduler and of the backend, and in which order.
use vstd::prelude::*;

verus! {

/// The frame index that stands for "no frame has completed yet".
pub const NO_FRAME: u64 = 0xFFFF_FFFF_FFFF_FFFF;

/// Where the driver stands within a frame.
#[derive(Clone, Copy, Debug, PartialEq, Eq, Structural)]
pub enum Phase {
    /// Between frames.
    Idle,
    /// The scheduler updates the graph.
    GraphUpdate,
    /// Batch `next` of `count` is the next to record and submit.
    BatchIterate { next: u32, count: u32 },
    /// Every batch is submitted; the frame waits to be presented.
    Present,
}

/// The driver between two steps.
#[derive(Clone, Copy, Debug, PartialEq, Eq, Structural)]
pub struct FrameDriver {
    pub frame_index: u64,
    pub completed_frame_index: u64,
    pub phase: Phase,
}

/// What happened outside the driver.
#[derive(Clone, Copy, Debug, PartialEq, Eq, Structural)]
pub enum Event {
    /// A new frame is wanted.
    RedrawRequested,
    /// The scheduler updated the graph and laid it out in `batches` batches.
    GraphUpdated { batches: u32 },
    /// The recorder of the current batch was closed and submitted.
    BatchSubmitted,
    /// The frame was presented.
    Presented,
}

/// What the driver asks for next.
#[derive(Clone, Copy, Debug, PartialEq, Eq, Structural)]
pub enum Action {
    /// Update the graph for frame `frame_index`.
    UpdateGraph { frame_index: u64, gpu_completed_frame_index: u64 },
    /// Open a recorder, record batch `batch`, close and submit the recorder.
    RecordBatch { batch: u32 },
    /// Present the frame.
    Present,
    /// Nothing: wait for the next frame.
    Wait,
    /// The event does not belong to the phase; the driver stays as it is.
    Rejected,
}

/// The phase after the batches before `next` of `count` are submitted, and
/// what it asks for.
pub open spec fn spec_enter_batch(next: u32, count: u32) -> (Phase, Action) {
    if next < count {
        (Phase::BatchIterate { next, count }, Action::RecordBatch { batch: next })
    } else {
        (Phase::Present, Action::Present)
    }
}

/// The frame index after `frame_index`; the last index has no successor.
pub open spec fn spec_next_frame(frame_index: u64) -> u64 {
    if frame_index < u64::MAX {
        (frame_index + 1) as u64
    } else {
        frame_index
    }
}

/// The driver after `event`, and what it asks for.
pub open spec fn spec_step(driver: FrameDriver, event: Event) -> (FrameDriver, Action) {
    match (driver.phase, event) {
        (Phase::Idle, Event::RedrawRequested) => (
            FrameDriver { phase: Phase::GraphUpdate, ..driver },
            Action::UpdateGraph {
                frame_index: driver.frame_index,
                gpu_completed_frame_index: driver.completed_frame_index,
            },
        ),
        (Phase::GraphUpdate, Event::GraphUpdated { batches }) => (
            FrameDriver { phase: spec_enter_batch(0, batches).0, ..driver },
            spec_enter_batch(0, batches).1,
        ),
        (Phase::BatchIterate { next, count }, Event::BatchSubmitted) => (
            FrameDriver { phase: spec_enter_batch((next + 1) as u32, count).0, ..driver },
            spec_enter_batch((next + 1) as u32, count).1,
        ),
        (Phase::Present, Event::Presented) => (
            FrameDriver {
                frame_index: spec_next_frame(driver.frame_index),
                completed_frame_index: driver.frame_index,
                phase: Phase::Idle,
            },
            Action::Wait,
        ),
        _ => (driver, Action::Rejected),
    }
}

/// Whether the driver is in a state that its own steps can reach: within
/// the batches of a frame, the next batch is one of them.
pub open spec fn spec_consistent(driver: FrameDriver) -> bool {
    match driver.phase {
        Phase::BatchIterate { next, count } => next < count,
        _ => true,
    }
}

impl FrameDriver {
    /// The driver before the first frame.
    pub fn new() -> (driver: FrameDriver)
        ensures
            driver == (FrameDriver {
                frame_index: 0,
                completed_frame_index: NO_FRAME,
                phase: Phase::Idle,
            }),
    {
        FrameDriver { frame_index: 0, completed_frame_index: NO_FRAME, phase: Phase::Idle }
    }

    /// Takes `event` in and says what to do next.
    pub fn step(&mut self, event: Event) -> (action: Action)
        requires
            spec_consistent(*old(self)),
        ensures
            (*final(self), action) == spec_step(*old(self), event),
            spec_consistent(*final(self)),
    {
        match (self.phase, event) {
            (Phase::Idle, Event::RedrawRequested) => {
                self.phase = Phase::GraphUpdate;
                Action::UpdateGraph {
                    frame_index: self.frame_index,
                    gpu_completed_frame_index: self.completed_frame_index,
                }
            },
            (Phase::GraphUpdate, Event::GraphUpdated { batches }) => {
                if batches > 0 {
                    self.phase = Phase::BatchIterate { next: 0, count: batches };
                    Action::RecordBatch { batch: 0 }
                } else {
                    self.phase = Phase::Present;
                    Action::Present
                }
            },
            (Phase::BatchIterate { next, count }, Event::BatchSubmitted) => {
                if next + 1 < count {
                    self.phase = Phase::BatchIterate { next: next + 1, count };
                    Action::RecordBatch { batch: next + 1 }
                } else {
                    self.phase = Phase::Present;
                    Action::Present
                }
            },
            (Phase::Present, Event::Presented) => {
                self.completed_frame_index = self.frame_index;
                if self.frame_index < u64::MAX {
                    self.frame_index = self.frame_index + 1;
                }
                self.phase = Phase::Idle;
                Action::Wait
            },
            _ => Action::Rejected,
        }
    }
}

/// The frame counter never goes back, whatever happens.
pub proof fn lemma_frame_counter_monotonic(driver: FrameDriver, event: Event)
    ensures
        spec_step(driver, event).0.frame_index >= driver.frame_index,
{
}

/// Batches are recorded one by one in the order of the schedule: the only
/// batch that the driver ever asks for is the one after the last submitted,
/// and the frame is presented only when every batch is submitted.
pub proof fn lemma_batches_in_order(driver: FrameDriver, event: Event)
    requires
        spec_consistent(driver),
    ensures
        spec_consistent(spec_step(driver, event).0),
        match spec_step(driver, event).1 {
            Action::RecordBatch { batch } => match driver.phase {
                Phase::GraphUpdate => batch == 0,
                Phase::BatchIterate { next, count } => batch == next + 1 && batch < count,
                _ => false,
            },
            Action::Present => match driver.phase {
                Phase::GraphUpdate => event == (Event::GraphUpdated { batches: 0 }),
                Phase::BatchIterate { next, count } => next + 1 == count,
                _ => false,
            },
            _ => true,
        },
{
}

} // verus!

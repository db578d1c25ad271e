use vstd::prelude::*;
use crate::dispatch::{DispatchPlan, plan, plan_spec};
use crate::error::PipelineError;
use crate::kernel::{find_entry_point, has_entry_point};
use crate::pixels::{byte_len, image_byte_len, row_len};
use crate::texture::{Region, TextureDesc};

verus! {

/// What one run is asked to do.
#[derive(Clone, Debug)]
pub struct JobConfig {
    pub width: u32,
    pub height: u32,
    pub tile_width: u32,
    pub entry_point: String,
}

/// Where a run stands. `Completed` and `Failed` are terminal.
#[derive(Clone, Debug, PartialEq, Eq)]
pub enum JobPhase {
    AwaitingDevice,
    Idle,
    Bound,
    Encoded,
    Submitted,
    Completed,
    Failed(PipelineError),
}

/// What the host reports back after carrying out an action.
#[derive(Clone, Debug)]
pub enum JobEvent {
    /// The device was looked for; `found` says whether one is present.
    DeviceProbed { found: bool },
    /// Surfaces were created and the kernel compiled: `diagnostics` holds the
    /// diagnostics of a failed compile, `functions` the program's entry points.
    Prepared {
        input: TextureDesc,
        output: TextureDesc,
        diagnostics: Option<String>,
        functions: Vec<String>,
    },
    /// The dispatch and the copy back into the input surface were recorded.
    Encoded,
    /// The command sequence was handed to the queue.
    Committed,
    /// The device signalled the end of the work; `error` holds its diagnostic.
    DeviceFinished { error: Option<String> },
}

/// What the host is to do next.
#[derive(Clone, Debug, PartialEq, Eq)]
pub enum JobAction {
    /// Create the input and output surfaces, compile the kernel, list its entry points.
    Prepare,
    /// Record a dispatch of this geometry, then the copy of the output surface
    /// into the input surface.
    EncodeDispatch(DispatchPlan),
    /// Hand the recorded commands to the queue.
    Commit,
    /// Block until the device signals completion.
    WaitUntilCompleted,
    /// Copy the input surface into a staging buffer of this shape and read it back.
    Readback(Region),
    /// Nothing more to do.
    Stop,
}

/// The region that a finished run reads back: the whole surface, tightly packed.
pub open spec fn readback_region(config: JobConfig) -> Region {
    Region {
        width: config.width as u64,
        height: config.height as u64,
        bytes_per_row: row_len(config.width as nat) as u64,
    }
}

/// The error for a surface whose size is not the run's: the run's byte count
/// against the surface's.
pub open spec fn surface_size_mismatch(config: JobConfig, surface: TextureDesc) -> PipelineError {
    PipelineError::SizeMismatch {
        expected: byte_len(config.width as nat, config.height as nat) as u128,
        actual: byte_len(surface.width as nat, surface.height as nat) as u128,
    }
}

/// Builds the error for a surface whose size is not the run's.
pub fn size_mismatch(config: &JobConfig, surface: &TextureDesc) -> (r: PipelineError)
    ensures
        r == surface_size_mismatch(*config, *surface),
{
    PipelineError::SizeMismatch {
        expected: image_byte_len(config.width, config.height),
        actual: image_byte_len(surface.width, surface.height),
    }
}

/// One step of a run: the phase after `event` and the action that follows.
pub open spec fn step_spec(config: JobConfig, phase: JobPhase, event: JobEvent) -> (
    JobPhase,
    JobAction,
) {
    match phase {
        JobPhase::Failed(e) => (JobPhase::Failed(e), JobAction::Stop),
        JobPhase::Completed => (JobPhase::Completed, JobAction::Stop),
        JobPhase::AwaitingDevice => match event {
            JobEvent::DeviceProbed { found } => if found {
                (JobPhase::Idle, JobAction::Prepare)
            } else {
                (JobPhase::Failed(PipelineError::NoDevice), JobAction::Stop)
            },
            _ => (JobPhase::Failed(PipelineError::InvalidTransition), JobAction::Stop),
        },
        JobPhase::Idle => match event {
            JobEvent::Prepared { input, output, diagnostics, functions } => {
                if diagnostics is Some {
                    (
                        JobPhase::Failed(PipelineError::Compile(diagnostics->Some_0)),
                        JobAction::Stop,
                    )
                } else if !has_entry_point(functions@, config.entry_point@) {
                    (
                        JobPhase::Failed(PipelineError::EntryPointNotFound(config.entry_point)),
                        JobAction::Stop,
                    )
                } else if input.format != output.format {
                    (JobPhase::Failed(PipelineError::FormatMismatch), JobAction::Stop)
                } else if input.width != config.width || input.height != config.height {
                    (
                        JobPhase::Failed(surface_size_mismatch(config, input)),
                        JobAction::Stop,
                    )
                } else if output.width != config.width || output.height != config.height {
                    (
                        JobPhase::Failed(surface_size_mismatch(config, output)),
                        JobAction::Stop,
                    )
                } else {
                    (
                        JobPhase::Bound,
                        JobAction::EncodeDispatch(
                            plan_spec(config.width, config.height, config.tile_width),
                        ),
                    )
                }
            },
            _ => (JobPhase::Failed(PipelineError::InvalidTransition), JobAction::Stop),
        },
        JobPhase::Bound => match event {
            JobEvent::Encoded => (JobPhase::Encoded, JobAction::Commit),
            _ => (JobPhase::Failed(PipelineError::InvalidTransition), JobAction::Stop),
        },
        JobPhase::Encoded => match event {
            JobEvent::Committed => (JobPhase::Submitted, JobAction::WaitUntilCompleted),
            _ => (JobPhase::Failed(PipelineError::InvalidTransition), JobAction::Stop),
        },
        JobPhase::Submitted => match event {
            JobEvent::DeviceFinished { error } => match error {
                None => (JobPhase::Completed, JobAction::Readback(readback_region(config))),
                Some(m) => (JobPhase::Failed(PipelineError::Device(m)), JobAction::Stop),
            },
            _ => (JobPhase::Failed(PipelineError::InvalidTransition), JobAction::Stop),
        },
    }
}

/// The phase reached and the actions asked for when `events` arrive in turn.
pub open spec fn run(config: JobConfig, phase: JobPhase, events: Seq<JobEvent>) -> (
    JobPhase,
    Seq<JobAction>,
)
    decreases events.len(),
{
    if events.len() == 0 {
        (phase, Seq::empty())
    } else {
        let (next, action) = step_spec(config, phase, events[0]);
        let (last, rest) = run(config, next, events.drop_first());
        (last, seq![action] + rest)
    }
}

/// A run asks for one action per event.
proof fn lemma_run_len(config: JobConfig, phase: JobPhase, events: Seq<JobEvent>)
    ensures
        run(config, phase, events).1.len() == events.len(),
    decreases events.len(),
{
    if events.len() > 0 {
        lemma_run_len(config, step_spec(config, phase, events[0]).0, events.drop_first());
    }
}

/// The first event decides the first action; the rest of the run starts from
/// the phase that it reached.
proof fn lemma_run_first(config: JobConfig, phase: JobPhase, events: Seq<JobEvent>, i: int)
    requires
        0 <= i < events.len(),
    ensures
        run(config, phase, events).0 == run(
            config,
            step_spec(config, phase, events[0]).0,
            events.drop_first(),
        ).0,
        i == 0 ==> run(config, phase, events).1[i] == step_spec(config, phase, events[0]).1,
        i > 0 ==> run(config, phase, events).1[i] == run(
            config,
            step_spec(config, phase, events[0]).0,
            events.drop_first(),
        ).1[i - 1],
{
    lemma_run_len(config, step_spec(config, phase, events[0]).0, events.drop_first());
}

/// A failed run stays failed with the same cause and asks for nothing more,
/// whatever is reported to it afterwards.
pub proof fn lemma_failed_is_terminal(config: JobConfig, cause: PipelineError, events: Seq<JobEvent>)
    ensures
        run(config, JobPhase::Failed(cause), events).0 == JobPhase::Failed(cause),
        forall|i: int|
            0 <= i < events.len() ==> #[trigger] run(config, JobPhase::Failed(cause), events).1[i]
                == JobAction::Stop,
    decreases events.len(),
{
    if events.len() > 0 {
        lemma_failed_is_terminal(config, cause, events.drop_first());
        lemma_run_first(config, JobPhase::Failed(cause), events, 0);
        assert forall|i: int| 0 <= i < events.len() implies #[trigger] run(
            config,
            JobPhase::Failed(cause),
            events,
        ).1[i] == JobAction::Stop by {
            lemma_run_first(config, JobPhase::Failed(cause), events, i);
        }
    }
}

/// A run without a device fails with `NoDevice` and never asks for a surface
/// or a buffer to be allocated, whatever follows.
pub proof fn lemma_no_device_allocates_nothing(config: JobConfig, later: Seq<JobEvent>)
    ensures
        ({
            let events = seq![JobEvent::DeviceProbed { found: false }] + later;
            let (last, actions) = run(config, JobPhase::AwaitingDevice, events);
            &&& last == JobPhase::Failed(PipelineError::NoDevice)
            &&& forall|i: int| 0 <= i < actions.len() ==> #[trigger] actions[i] == JobAction::Stop
        }),
{
    let events = seq![JobEvent::DeviceProbed { found: false }] + later;
    assert(events.drop_first() =~= later);
    lemma_failed_is_terminal(config, PipelineError::NoDevice, later);
    lemma_run_len(config, JobPhase::AwaitingDevice, events);
    lemma_run_first(config, JobPhase::AwaitingDevice, events, 0);
    let actions = run(config, JobPhase::AwaitingDevice, events).1;
    assert forall|i: int| 0 <= i < actions.len() implies #[trigger] actions[i] == JobAction::Stop by {
        lemma_run_first(config, JobPhase::AwaitingDevice, events, i);
    }
}

/// A kernel without the requested entry point fails the run with
/// `EntryPointNotFound` naming it, and no dispatch is ever asked for.
pub proof fn lemma_missing_entry_point_dispatches_nothing(
    config: JobConfig,
    input: TextureDesc,
    output: TextureDesc,
    functions: Vec<String>,
    later: Seq<JobEvent>,
)
    requires
        !has_entry_point(functions@, config.entry_point@),
    ensures
        ({
            let events = seq![
                JobEvent::Prepared { input, output, diagnostics: None, functions },
            ] + later;
            let (last, actions) = run(config, JobPhase::Idle, events);
            &&& last == JobPhase::Failed(PipelineError::EntryPointNotFound(config.entry_point))
            &&& forall|i: int| 0 <= i < actions.len() ==> !(#[trigger] actions[i] is EncodeDispatch)
        }),
{
    let events = seq![JobEvent::Prepared { input, output, diagnostics: None, functions }] + later;
    let cause = PipelineError::EntryPointNotFound(config.entry_point);
    assert(events.drop_first() =~= later);
    lemma_failed_is_terminal(config, cause, later);
    lemma_run_len(config, JobPhase::Idle, events);
    lemma_run_first(config, JobPhase::Idle, events, 0);
    let actions = run(config, JobPhase::Idle, events).1;
    assert forall|i: int| 0 <= i < actions.len() implies !(#[trigger] actions[i] is EncodeDispatch) by {
        lemma_run_first(config, JobPhase::Idle, events, i);
    }
}

/// A surface whose size is not the run's fails the run with `SizeMismatch`,
/// the run's byte count against the surface's, and nothing is dispatched or
/// read back afterwards.
pub proof fn lemma_wrong_surface_size_dispatches_nothing(
    config: JobConfig,
    input: TextureDesc,
    output: TextureDesc,
    functions: Vec<String>,
    later: Seq<JobEvent>,
)
    requires
        has_entry_point(functions@, config.entry_point@),
        input.format == output.format,
        input.width != config.width || input.height != config.height || output.width
            != config.width || output.height != config.height,
    ensures
        ({
            let events = seq![
                JobEvent::Prepared { input, output, diagnostics: None, functions },
            ] + later;
            let (last, actions) = run(config, JobPhase::Idle, events);
            let wrong = if input.width != config.width || input.height != config.height {
                input
            } else {
                output
            };
            &&& last == JobPhase::Failed(surface_size_mismatch(config, wrong))
            &&& forall|i: int|
                0 <= i < actions.len() ==> !(#[trigger] actions[i] is EncodeDispatch)
                    && !(actions[i] is Readback)
        }),
{
    let events = seq![JobEvent::Prepared { input, output, diagnostics: None, functions }] + later;
    let wrong = if input.width != config.width || input.height != config.height {
        input
    } else {
        output
    };
    let cause = surface_size_mismatch(config, wrong);
    assert(events.drop_first() =~= later);
    lemma_failed_is_terminal(config, cause, later);
    lemma_run_len(config, JobPhase::Idle, events);
    lemma_run_first(config, JobPhase::Idle, events, 0);
    let actions = run(config, JobPhase::Idle, events).1;
    assert forall|i: int| 0 <= i < actions.len() implies !(#[trigger] actions[i] is EncodeDispatch)
        && !(actions[i] is Readback) by {
        lemma_run_first(config, JobPhase::Idle, events, i);
    }
}

/// One run of the upload, compute and readback protocol. The host carries out
/// each action and reports the outcome as the next event.
#[derive(Clone, Debug)]
pub struct ComputeJob {
    pub config: JobConfig,
    pub phase: JobPhase,
}

impl ComputeJob {
    /// A run that has not yet looked for a device.
    pub fn new(config: JobConfig) -> (r: ComputeJob)
        requires
            config.tile_width >= 1,
        ensures
            r.config == config,
            r.phase == JobPhase::AwaitingDevice,
    {
        ComputeJob { config, phase: JobPhase::AwaitingDevice }
    }

    /// Tiles have a positive width, as planning needs.
    pub open spec fn wf(&self) -> bool {
        self.config.tile_width >= 1
    }

    /// Takes the outcome of the last action and decides the next one.
    pub fn step(&mut self, event: JobEvent) -> (action: JobAction)
        requires
            old(self).wf(),
        ensures
            final(self).wf(),
            final(self).config == old(self).config,
            (final(self).phase, action) == step_spec(old(self).config, old(self).phase, event),
    {
        let mut current = JobPhase::AwaitingDevice;
        core::mem::swap(&mut self.phase, &mut current);
        let (phase, action) = match current {
            JobPhase::Failed(e) => (JobPhase::Failed(e), JobAction::Stop),
            JobPhase::Completed => (JobPhase::Completed, JobAction::Stop),
            JobPhase::AwaitingDevice => match event {
                JobEvent::DeviceProbed { found } => if found {
                    (JobPhase::Idle, JobAction::Prepare)
                } else {
                    (JobPhase::Failed(PipelineError::NoDevice), JobAction::Stop)
                },
                _ => (JobPhase::Failed(PipelineError::InvalidTransition), JobAction::Stop),
            },
            JobPhase::Idle => match event {
                JobEvent::Prepared { input, output, diagnostics, functions } => {
                    match diagnostics {
                        Some(d) => (JobPhase::Failed(PipelineError::Compile(d)), JobAction::Stop),
                        None => match find_entry_point(&functions, &self.config.entry_point) {
                            Err(e) => (JobPhase::Failed(e), JobAction::Stop),
                            Ok(_) => {
                                if input.format != output.format {
                                    (JobPhase::Failed(PipelineError::FormatMismatch), JobAction::Stop)
                                } else if input.width != self.config.width || input.height
                                    != self.config.height {
                                    (
                                        JobPhase::Failed(size_mismatch(&self.config, &input)),
                                        JobAction::Stop,
                                    )
                                } else if output.width != self.config.width || output.height
                                    != self.config.height {
                                    (
                                        JobPhase::Failed(size_mismatch(&self.config, &output)),
                                        JobAction::Stop,
                                    )
                                } else {
                                    let geometry = plan(
                                        self.config.width,
                                        self.config.height,
                                        self.config.tile_width,
                                    );
                                    (JobPhase::Bound, JobAction::EncodeDispatch(geometry))
                                }
                            },
                        },
                    }
                },
                _ => (JobPhase::Failed(PipelineError::InvalidTransition), JobAction::Stop),
            },
            JobPhase::Bound => match event {
                JobEvent::Encoded => (JobPhase::Encoded, JobAction::Commit),
                _ => (JobPhase::Failed(PipelineError::InvalidTransition), JobAction::Stop),
            },
            JobPhase::Encoded => match event {
                JobEvent::Committed => (JobPhase::Submitted, JobAction::WaitUntilCompleted),
                _ => (JobPhase::Failed(PipelineError::InvalidTransition), JobAction::Stop),
            },
            JobPhase::Submitted => match event {
                JobEvent::DeviceFinished { error } => match error {
                    None => (
                        JobPhase::Completed,
                        JobAction::Readback(
                            Region {
                                width: self.config.width as u64,
                                height: self.config.height as u64,
                                bytes_per_row: crate::pixels::row_byte_len(self.config.width),
                            },
                        ),
                    ),
                    Some(m) => (JobPhase::Failed(PipelineError::Device(m)), JobAction::Stop),
                },
                _ => (JobPhase::Failed(PipelineError::InvalidTransition), JobAction::Stop),
            },
        };
        self.phase = phase;
        action
    }
}

} // verus!

use vstd::prelude::*;

verus! {

/// The HTTP/2 error code `INTERNAL_ERROR`, sent when a response fails.
pub const INTERNAL_ERROR: u32 = 2;

/// The phase of a responder.
#[derive(PartialEq, Eq, Structural, Clone, Copy, Debug)]
pub enum Phase {
    /// Waiting for the service's response.
    Respond,
    /// The response head was handed out to be sent; `end_stream` is the flag
    /// it was sent with.
    Sending { end_stream: bool },
    /// The body is being streamed to the peer.
    Flush,
    /// The task has completed.
    Finished,
}

/// What the responder's driver observed when it performed the last task.
#[derive(PartialEq, Eq, Structural, Clone, Copy, Debug)]
pub enum Outcome {
    /// The awaited operation is not ready yet.
    Pending,
    /// The response future failed.
    ResponseFailed,
    /// The response is ready; `end_stream` tells whether its body is already
    /// exhausted.
    Response { end_stream: bool },
    /// The response head was sent.
    HeadersSent,
    /// Sending the response head failed.
    HeadersFailed,
    /// The body flush has completed, successfully or not.
    Flushed,
}

/// What the responder's driver is to do next.
#[derive(PartialEq, Eq, Structural, Clone, Copy, Debug)]
pub enum Task {
    /// Poll the response future.
    AwaitResponse,
    /// Reset the stream with this error code; the task then completes.
    Reset { reason: u32 },
    /// Send the response head with this end-of-stream flag.
    SendHeaders { end_stream: bool },
    /// Poll the body flush.
    AwaitFlush,
    /// Return "not ready": the driver is woken when there is progress.
    Suspend,
    /// The task has completed; it never fails.
    Complete,
}

/// The outcomes that a responder in phase `p` can be handed.
pub open spec fn accepts(p: Phase, o: Outcome) -> bool {
    match p {
        Phase::Respond => o is Pending || o is ResponseFailed || o is Response,
        Phase::Sending { .. } => o is HeadersSent || o is HeadersFailed,
        Phase::Flush => o is Pending || o is Flushed,
        Phase::Finished => false,
    }
}

/// The phase and the task after outcome `o` in phase `p`.
pub open spec fn advance(p: Phase, o: Outcome) -> (Phase, Task) {
    match o {
        Outcome::Pending => (p, Task::Suspend),
        Outcome::ResponseFailed => (Phase::Finished, Task::Reset { reason: INTERNAL_ERROR }),
        Outcome::Response { end_stream } => (
            Phase::Sending { end_stream },
            Task::SendHeaders { end_stream },
        ),
        Outcome::HeadersSent => match p {
            Phase::Sending { end_stream: false } => (Phase::Flush, Task::AwaitFlush),
            _ => (Phase::Finished, Task::Complete),
        },
        Outcome::HeadersFailed | Outcome::Flushed => (Phase::Finished, Task::Complete),
    }
}

/// The task that a responder in phase `p` resumes with.
pub open spec fn resume_task(p: Phase) -> Task {
    match p {
        Phase::Respond => Task::AwaitResponse,
        Phase::Sending { end_stream } => Task::SendHeaders { end_stream },
        Phase::Flush => Task::AwaitFlush,
        Phase::Finished => Task::Complete,
    }
}

/// Task used to process requests: sends one response and streams its body.
pub struct Background {
    phase: Phase,
}

impl Background {
    /// The current phase.
    pub closed spec fn phase_of(&self) -> Phase {
        self.phase
    }

    /// A responder waiting for its response.
    pub fn new() -> (r: Self)
        ensures
            r.phase_of() == Phase::Respond,
    {
        Background { phase: Phase::Respond }
    }

    /// The current phase.
    pub fn phase(&self) -> (r: Phase)
        ensures
            r == self.phase_of(),
    {
        self.phase
    }

    /// Whether the responder, in its current phase, can be handed `outcome`.
    pub fn accepts(&self, outcome: Outcome) -> (r: bool)
        ensures
            r == accepts(self.phase_of(), outcome),
    {
        match self.phase {
            Phase::Respond => matches!(
                outcome,
                Outcome::Pending | Outcome::ResponseFailed | Outcome::Response { .. }
            ),
            Phase::Sending { .. } => matches!(outcome, Outcome::HeadersSent | Outcome::HeadersFailed),
            Phase::Flush => matches!(outcome, Outcome::Pending | Outcome::Flushed),
            Phase::Finished => false,
        }
    }

    /// The task to perform when the responder is driven again.
    pub fn resume(&self) -> (r: Task)
        ensures
            r == resume_task(self.phase_of()),
    {
        match self.phase {
            Phase::Respond => Task::AwaitResponse,
            Phase::Sending { end_stream } => Task::SendHeaders { end_stream },
            Phase::Flush => Task::AwaitFlush,
            Phase::Finished => Task::Complete,
        }
    }

    /// Takes what the driver observed and moves to the next phase, returning
    /// the next task.
    pub fn step(&mut self, outcome: Outcome) -> (r: Task)
        requires
            accepts(old(self).phase_of(), outcome),
        ensures
            (final(self).phase_of(), r) == advance(old(self).phase_of(), outcome),
    {
        let (phase, task) = match outcome {
            Outcome::Pending => (self.phase, Task::Suspend),
            Outcome::ResponseFailed => (Phase::Finished, Task::Reset { reason: INTERNAL_ERROR }),
            Outcome::Response { end_stream } => (
                Phase::Sending { end_stream },
                Task::SendHeaders { end_stream },
            ),
            Outcome::HeadersSent => match self.phase {
                Phase::Sending { end_stream: false } => (Phase::Flush, Task::AwaitFlush),
                _ => (Phase::Finished, Task::Complete),
            },
            Outcome::HeadersFailed | Outcome::Flushed => (Phase::Finished, Task::Complete),
        };
        self.phase = phase;
        task
    }
}

} // verus!

//! The frame task: the only owner of the socket.
//!
//! The task decodes one command, forwards it to the dispatcher, waits for
//! exactly one instruction, writes the pieces of that instruction in order,
//! and only then decodes the next command. It never looks into a command.
//! [`FrameTask::step`] takes the outcome of the action it asked for last and
//! answers with the next action; the caller reads and writes the socket and
//! the channels.

use crate::command::CommandView;
use crate::command::FrameCommand;
use crate::command::FtlCommand;
use vstd::prelude::*;

verus! {

/// What the frame task is waiting for.
#[derive(Debug, Clone, Copy, PartialEq, Eq, Structural)]
pub enum FramePhase {
    /// Not started yet.
    Created,
    /// For the next command to be decoded from the socket.
    Decoding,
    /// For the dispatcher to take the command.
    Forwarding,
    /// For the dispatcher's instruction.
    Awaiting,
    /// For a piece to be written to the socket.
    Writing,
    /// For nothing: the task is over.
    Stopped,
}

/// What happened to the action that the frame task asked for last.
#[derive(Debug, Clone, PartialEq, Eq)]
pub enum FrameEvent {
    /// The task was started.
    Started,
    /// The codec decoded a command.
    Decoded(FtlCommand),
    /// The dispatcher sent an instruction.
    Instruction(FrameCommand),
    /// The action was carried out.
    Completed,
    /// The action failed: the socket or a channel is closed or broken.
    Failed,
}

/// The mathematical content of a [`FrameEvent`].
pub enum FrameEventView {
    Started,
    Decoded(CommandView),
    Instruction(Seq<Seq<char>>),
    Completed,
    Failed,
}

impl View for FrameEvent {
    type V = FrameEventView;

    open spec fn view(&self) -> FrameEventView {
        match *self {
            FrameEvent::Started => FrameEventView::Started,
            FrameEvent::Decoded(command) => FrameEventView::Decoded(command@),
            FrameEvent::Instruction(command) => FrameEventView::Instruction(command@),
            FrameEvent::Completed => FrameEventView::Completed,
            FrameEvent::Failed => FrameEventView::Failed,
        }
    }
}

/// What the caller is to do next.
#[derive(Debug, Clone, PartialEq, Eq)]
pub enum FrameAction {
    /// Decode the next command from the socket.
    Decode,
    /// Send this command to the dispatcher.
    Forward(FtlCommand),
    /// Wait for the dispatcher's instruction.
    Await,
    /// Write this piece to the socket.
    Write(String),
    /// Stop the task and drop its ends of the channels.
    Stop,
}

/// The mathematical content of a [`FrameAction`].
pub enum FrameActionView {
    Decode,
    Forward(CommandView),
    Await,
    Write(Seq<char>),
    Stop,
}

impl View for FrameAction {
    type V = FrameActionView;

    open spec fn view(&self) -> FrameActionView {
        match *self {
            FrameAction::Decode => FrameActionView::Decode,
            FrameAction::Forward(command) => FrameActionView::Forward(command@),
            FrameAction::Await => FrameActionView::Await,
            FrameAction::Write(piece) => FrameActionView::Write(piece@),
            FrameAction::Stop => FrameActionView::Stop,
        }
    }
}

/// The frame task of one connection.
#[derive(Debug)]
pub struct FrameTask {
    phase: FramePhase,
    /// The pieces of the current instruction that follow the one being
    /// written.
    queued: Vec<String>,
}

/// The mathematical content of a [`FrameTask`].
pub struct FrameView {
    pub phase: FramePhase,
    /// The pieces of the current instruction that follow the one being
    /// written.
    pub queued: Seq<Seq<char>>,
}

/// One transition: where the frame task goes and what it asks for.
pub struct FrameMove {
    pub next: FrameView,
    pub action: FrameActionView,
}

/// The task stops. What was queued is never written.
pub open spec fn stopping(pre: FrameView) -> FrameMove {
    FrameMove {
        next: FrameView { phase: FramePhase::Stopped, queued: pre.queued },
        action: FrameActionView::Stop,
    }
}

/// The task turns to `pieces`: it writes the first and queues the rest, or
/// decodes the next command if there is none.
pub open spec fn writing(pieces: Seq<Seq<char>>) -> FrameMove {
    if pieces.len() == 0 {
        FrameMove {
            next: FrameView { phase: FramePhase::Decoding, queued: pieces },
            action: FrameActionView::Decode,
        }
    } else {
        FrameMove {
            next: FrameView { phase: FramePhase::Writing, queued: pieces.drop_first() },
            action: FrameActionView::Write(pieces.first()),
        }
    }
}

/// What the awaited instruction does: its pieces are written, or the task
/// stops where the dispatcher is gone.
pub open spec fn on_instruction(pre: FrameView, instruction: Option<Seq<Seq<char>>>) -> FrameMove {
    match instruction {
        Some(pieces) => writing(pieces),
        None => stopping(pre),
    }
}

/// The event that stands for what came from the dispatcher: an instruction,
/// or the failure to get one.
pub open spec fn instruction_event(instruction: Option<Seq<Seq<char>>>) -> FrameEventView {
    match instruction {
        Some(pieces) => FrameEventView::Instruction(pieces),
        None => FrameEventView::Failed,
    }
}

/// The transition of the frame task on `event`.
pub open spec fn frame_transition(pre: FrameView, event: FrameEventView) -> FrameMove {
    match pre.phase {
        FramePhase::Created => match event {
            FrameEventView::Started => FrameMove {
                next: FrameView { phase: FramePhase::Decoding, queued: pre.queued },
                action: FrameActionView::Decode,
            },
            _ => stopping(pre),
        },
        FramePhase::Decoding => match event {
            FrameEventView::Decoded(command) => FrameMove {
                next: FrameView { phase: FramePhase::Forwarding, queued: pre.queued },
                action: FrameActionView::Forward(command),
            },
            _ => stopping(pre),
        },
        FramePhase::Forwarding => match event {
            FrameEventView::Completed => FrameMove {
                next: FrameView { phase: FramePhase::Awaiting, queued: pre.queued },
                action: FrameActionView::Await,
            },
            _ => stopping(pre),
        },
        FramePhase::Awaiting => match event {
            FrameEventView::Instruction(pieces) => on_instruction(pre, Some(pieces)),
            _ => on_instruction(pre, None),
        },
        FramePhase::Writing => match event {
            FrameEventView::Completed => writing(pre.queued),
            _ => stopping(pre),
        },
        FramePhase::Stopped => stopping(pre),
    }
}

impl View for FrameTask {
    type V = FrameView;

    closed spec fn view(&self) -> FrameView {
        FrameView { phase: self.phase, queued: self.queued.deep_view() }
    }
}

impl FrameView {
    /// The frame task of a connection that was just accepted.
    pub open spec fn initial() -> FrameView {
        FrameView { phase: FramePhase::Created, queued: Seq::empty() }
    }
}

impl FrameTask {
    /// The frame task of a connection that was just accepted.
    pub fn new() -> (task: FrameTask)
        ensures
            task@ == FrameView::initial(),
    {
        let queued: Vec<String> = Vec::new();
        assert(queued.deep_view() =~= Seq::<Seq<char>>::empty());
        FrameTask { phase: FramePhase::Created, queued }
    }

    /// What the task is waiting for.
    pub fn phase(&self) -> (phase: FramePhase)
        ensures
            phase == self@.phase,
    {
        self.phase
    }

    fn stop(&mut self) -> (action: FrameAction)
        ensures
            final(self)@ == stopping(old(self)@).next,
            action@ == stopping(old(self)@).action,
    {
        self.phase = FramePhase::Stopped;
        FrameAction::Stop
    }

    fn write(&mut self, pieces: Vec<String>) -> (action: FrameAction)
        ensures
            final(self)@ == writing(pieces.deep_view()).next,
            action@ == writing(pieces.deep_view()).action,
    {
        let mut pieces = pieces;
        let ghost all = pieces.deep_view();
        if pieces.len() == 0 {
            self.queued = pieces;
            self.phase = FramePhase::Decoding;
            FrameAction::Decode
        } else {
            let first = pieces.remove(0);
            assert(pieces.deep_view() =~= all.drop_first());
            assert(first@ == all.first());
            self.queued = pieces;
            self.phase = FramePhase::Writing;
            FrameAction::Write(first)
        }
    }

    fn instructed(&mut self, command: Option<FrameCommand>) -> (action: FrameAction)
        ensures
            final(self)@ == on_instruction(old(self)@, command.deep_view()).next,
            action@ == on_instruction(old(self)@, command.deep_view()).action,
    {
        match command {
            Some(FrameCommand::Send { data }) => self.write(data),
            None => self.stop(),
        }
    }

    /// Takes what came from the dispatcher: the step on that event. While
    /// an instruction is awaited, the first piece of the instruction is
    /// written and the rest is queued, to be written piece by piece in
    /// order; with no instruction the task stops.
    pub fn handle_frame_command(&mut self, command: Option<FrameCommand>) -> (action: FrameAction)
        ensures
            final(self)@ == frame_transition(old(self)@, instruction_event(command.deep_view())).next,
            action@ == frame_transition(old(self)@, instruction_event(command.deep_view())).action,
    {
        match command {
            Some(command) => self.step(FrameEvent::Instruction(command)),
            None => self.step(FrameEvent::Failed),
        }
    }

    /// Takes the outcome of the last action and answers with the next one.
    ///
    /// An event that does not answer what the task was waiting for counts as
    /// that action's failure: the task stops.
    pub fn step(&mut self, event: FrameEvent) -> (action: FrameAction)
        ensures
            final(self)@ == frame_transition(old(self)@, event@).next,
            action@ == frame_transition(old(self)@, event@).action,
    {
        match self.phase {
            FramePhase::Created => match event {
                FrameEvent::Started => {
                    self.phase = FramePhase::Decoding;
                    FrameAction::Decode
                },
                _ => self.stop(),
            },
            FramePhase::Decoding => match event {
                FrameEvent::Decoded(command) => {
                    self.phase = FramePhase::Forwarding;
                    FrameAction::Forward(command)
                },
                _ => self.stop(),
            },
            FramePhase::Forwarding => match event {
                FrameEvent::Completed => {
                    self.phase = FramePhase::Awaiting;
                    FrameAction::Await
                },
                _ => self.stop(),
            },
            FramePhase::Awaiting => match event {
                FrameEvent::Instruction(command) => self.instructed(Some(command)),
                _ => self.instructed(None),
            },
            FramePhase::Writing => match event {
                FrameEvent::Completed => {
                    let mut pieces: Vec<String> = Vec::new();
                    std::mem::swap(&mut pieces, &mut self.queued);
                    self.write(pieces)
                },
                _ => self.stop(),
            },
            FramePhase::Stopped => self.stop(),
        }
    }
}

} // verus!

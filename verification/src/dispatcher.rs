//! The session task: the only writer of the session state.
//!
//! The dispatcher is a state machine. [`Dispatcher::step`] takes the outcome
//! of the action it asked for last and answers with the next action. The
//! caller receives commands, talks to the outside services, delivers the
//! instructions and writes the log; it decides nothing.
//!
//! Commands may come in any order. Each is handled by its kind alone, except
//! that a challenge, a stream key and a media port, once set, stay as they
//! are. Every command but a disconnect is answered by exactly one
//! instruction to the frame task; for a command that is turned down the
//! instruction holds no pieces, so that nothing is written and the next
//! command is read. Whatever ends the session, the stream's end is
//! announced and the port is given back before the task stops, each at most
//! once.

use crate::challenge::generate_hmac;
use crate::challenge::is_challenge;
use crate::challenge::lemma_challenge_exists;
use crate::command::CommandView;
use crate::command::FrameCommand;
use crate::command::FtlCommand;
use crate::command::Rejection;
use crate::coordinator::end_message_text;
use crate::coordinator::start_message_text;
use crate::coordinator::stream_end_message;
use crate::coordinator::stream_start_message;
use crate::state::attribute_update;
use crate::state::snapshot;
use crate::state::ConnectionState;
use crate::state::LineView;
use crate::state::LogLine;
use crate::state::SessionView;
use crate::state::Severity;
use crate::text::decimal_text;
use crate::text::push_decimal;
use vstd::prelude::*;
use vstd::string::StringExecFns;

verus! {

/// The port named to the peer when the allocation service grants none. The
/// peer is known to fall back to it by itself.
pub const FALLBACK_PORT: u16 = 65535;

/// What the dispatcher is waiting for.
#[derive(Debug, Clone, Copy, PartialEq, Eq, Structural)]
pub enum DispatchPhase {
    /// Not started yet.
    Created,
    /// For the next command.
    Receiving,
    /// For the stream authority to take the start announcement.
    Announcing,
    /// For the allocation service to grant a port.
    Allocating,
    /// For an instruction to reach the frame task.
    Replying,
    /// For the instruction that names the media port to reach the frame
    /// task.
    Naming,
    /// For the stream authority to take the end announcement.
    Closing,
    /// For the allocation service to take the port back.
    Releasing,
    /// For nothing: the session is over.
    Terminated,
}

/// What happened to the action that the dispatcher asked for last.
#[derive(Debug, Clone, PartialEq, Eq)]
pub enum DispatchEvent {
    /// The task was started.
    Started,
    /// The frame task forwarded a command.
    Command(FtlCommand),
    /// The frame task is gone: nothing more will be received.
    Closed,
    /// The allocation service answered; `None` stands for every failure.
    Allocated(Option<u16>),
    /// The action was carried out.
    Completed,
    /// The action failed.
    Failed,
}

/// The mathematical content of a [`DispatchEvent`].
pub enum EventView {
    Started,
    Command(CommandView),
    Closed,
    Allocated(Option<u16>),
    Completed,
    Failed,
}

impl View for DispatchEvent {
    type V = EventView;

    open spec fn view(&self) -> EventView {
        match *self {
            DispatchEvent::Started => EventView::Started,
            DispatchEvent::Command(command) => EventView::Command(command@),
            DispatchEvent::Closed => EventView::Closed,
            DispatchEvent::Allocated(port) => EventView::Allocated(port),
            DispatchEvent::Completed => EventView::Completed,
            DispatchEvent::Failed => EventView::Failed,
        }
    }
}

/// What the caller is to do next.
#[derive(Debug, Clone, PartialEq, Eq)]
pub enum DispatchAction {
    /// Write `report` to the log, then wait for the next command. Once the
    /// peer was told its port, the report says that it is connected and
    /// gives the snapshot of the session; otherwise it is empty.
    Receive { report: Vec<LogLine> },
    /// Send `message` to the stream authority and read one answer.
    AnnounceStart { message: String },
    /// Ask the allocation service for a port.
    Allocate,
    /// Hand `command` to the frame task. Where the peer's command was
    /// turned down, `rejected` says why, for the log, and `command` holds
    /// no pieces.
    Reply { command: FrameCommand, rejected: Option<Rejection> },
    /// Send `message` to the stream authority; no answer is awaited.
    AnnounceEnd { message: String },
    /// Give `port` back to the allocation service.
    Release { port: u16 },
    /// Stop the task.
    Stop,
}

/// The mathematical content of a [`DispatchAction`].
pub enum ActionView {
    Receive { report: Seq<LineView> },
    AnnounceStart { message: Seq<char> },
    Allocate,
    Reply { pieces: Seq<Seq<char>>, rejected: Option<Rejection> },
    AnnounceEnd { message: Seq<char> },
    Release { port: u16 },
    Stop,
}

impl View for DispatchAction {
    type V = ActionView;

    open spec fn view(&self) -> ActionView {
        match *self {
            DispatchAction::Receive { report } => ActionView::Receive {
                report: report.deep_view(),
            },
            DispatchAction::AnnounceStart { message } => ActionView::AnnounceStart {
                message: message@,
            },
            DispatchAction::Allocate => ActionView::Allocate,
            DispatchAction::Reply { command, rejected } => ActionView::Reply {
                pieces: command@,
                rejected,
            },
            DispatchAction::AnnounceEnd { message } => ActionView::AnnounceEnd { message: message@ },
            DispatchAction::Release { port } => ActionView::Release { port },
            DispatchAction::Stop => ActionView::Stop,
        }
    }
}

/// The session task of one connection.
#[derive(Debug)]
pub struct Dispatcher {
    state: ConnectionState,
    phase: DispatchPhase,
}

/// The mathematical content of a [`Dispatcher`].
pub struct DispatcherView {
    pub state: SessionView,
    pub phase: DispatchPhase,
}

/// One transition: where the dispatcher goes and what it asks for.
pub struct Move {
    pub next: DispatcherView,
    pub action: ActionView,
}

/// The reply to an authentication request.
pub open spec fn challenge_reply(payload: Seq<char>) -> Seq<Seq<char>> {
    seq!["200 "@, payload, "\n"@]
}

/// The reply to an accepted stream key.
pub open spec fn connect_reply() -> Seq<Seq<char>> {
    seq!["200\n"@]
}

/// The acknowledgement of an attribute: one empty piece. The peer stalls if
/// it gets none.
pub open spec fn attribute_reply() -> Seq<Seq<char>> {
    seq![""@]
}

/// The reply to a keepalive.
pub open spec fn ping_reply() -> Seq<Seq<char>> {
    seq!["201\n"@]
}

/// The reply that names the media port.
pub open spec fn port_reply(port: u16) -> Seq<Seq<char>> {
    seq!["200 hi. Use UDP port "@ + decimal_text(port as nat) + "\n"@]
}

/// What is logged once the peer was told its port: that it is connected,
/// then the snapshot of the session.
pub open spec fn connected_report(state: SessionView) -> Seq<LineView> {
    seq![LineView { level: Severity::Info, text: "Client connected!"@ }] + snapshot(state)
}

/// The last part of the cleanup: the port is given back if there is one.
pub open spec fn release_or_stop(state: SessionView) -> Move {
    match state.rtp_port {
        Some(port) => Move {
            next: DispatcherView { state, phase: DispatchPhase::Releasing },
            action: ActionView::Release { port },
        },
        None => Move {
            next: DispatcherView { state, phase: DispatchPhase::Terminated },
            action: ActionView::Stop,
        },
    }
}

/// The cleanup that ends every session: the stream's end is announced if a
/// stream was named, then the port is given back if one was granted.
pub open spec fn teardown(state: SessionView) -> Move {
    match state.stream_key {
        Some(stream_key) => Move {
            next: DispatcherView { state, phase: DispatchPhase::Closing },
            action: ActionView::AnnounceEnd { message: end_message_text(stream_key) },
        },
        None => release_or_stop(state),
    }
}

/// The next command is waited for, after `report` was logged.
pub open spec fn receiving(state: SessionView, report: Seq<LineView>) -> Move {
    Move {
        next: DispatcherView { state, phase: DispatchPhase::Receiving },
        action: ActionView::Receive { report },
    }
}

/// A reply is on its way to the frame task.
pub open spec fn replying(state: SessionView, pieces: Seq<Seq<char>>) -> Move {
    Move {
        next: DispatcherView { state, phase: DispatchPhase::Replying },
        action: ActionView::Reply { pieces, rejected: None },
    }
}

/// The reply that names `port` is on its way to the frame task.
pub open spec fn naming(state: SessionView, port: u16) -> Move {
    Move {
        next: DispatcherView { state, phase: DispatchPhase::Naming },
        action: ActionView::Reply { pieces: port_reply(port), rejected: None },
    }
}

/// The command was turned down: nothing changes, and the frame task is
/// handed an instruction without pieces, so that it writes nothing and
/// reads the next command.
pub open spec fn rejecting(state: SessionView, why: Rejection) -> Move {
    Move {
        next: DispatcherView { state, phase: DispatchPhase::Replying },
        action: ActionView::Reply { pieces: Seq::empty(), rejected: Some(why) },
    }
}

/// What a command does to a session in state `state`. `fresh` is the
/// challenge that is drawn if one is needed.
pub open spec fn on_command(state: SessionView, command: CommandView, fresh: Seq<char>) -> Move {
    match command {
        CommandView::HMAC => {
            let payload = match state.hmac_payload {
                Some(payload) => payload,
                None => fresh,
            };
            replying(SessionView { hmac_payload: Some(payload), ..state }, challenge_reply(payload))
        },
        CommandView::Connect { stream_key: None, channel_id } => rejecting(
            state,
            Rejection::MissingStreamKey,
        ),
        CommandView::Connect { stream_key: Some(stream_key), channel_id: None } => rejecting(
            state,
            Rejection::MissingChannelId,
        ),
        CommandView::Connect { stream_key: Some(stream_key), channel_id: Some(channel_id) } => {
            if state.stream_key is None {
                Move {
                    next: DispatcherView {
                        state: SessionView { stream_key: Some(stream_key), ..state },
                        phase: DispatchPhase::Announcing,
                    },
                    action: ActionView::AnnounceStart { message: start_message_text(stream_key) },
                }
            } else {
                replying(state, connect_reply())
            }
        },
        CommandView::Attribute { key: None, value } => rejecting(
            state,
            Rejection::MissingAttributeKey,
        ),
        CommandView::Attribute { key: Some(key), value: None } => rejecting(
            state,
            Rejection::MissingAttributeValue,
        ),
        CommandView::Attribute { key: Some(key), value: Some(value) } => {
            match attribute_update(state, key, value) {
                Ok(next) => replying(next, attribute_reply()),
                Err(why) => rejecting(state, why),
            }
        },
        CommandView::Dot => {
            match state.rtp_port {
                Some(port) => naming(state, port),
                None => Move {
                    next: DispatcherView { state, phase: DispatchPhase::Allocating },
                    action: ActionView::Allocate,
                },
            }
        },
        CommandView::Ping => replying(state, ping_reply()),
        CommandView::Disconnect => teardown(state),
        CommandView::Unknown => rejecting(state, Rejection::Unimplemented),
    }
}

/// What the allocation service's answer does: a granted port is kept unless
/// the session has one already, and the peer is told the session's port, or
/// the fallback where there is none.
pub open spec fn on_allocated(state: SessionView, granted: Option<u16>) -> Move {
    let port = match state.rtp_port {
        Some(port) => Some(port),
        None => granted,
    };
    let named = match port {
        Some(port) => port,
        None => FALLBACK_PORT,
    };
    naming(SessionView { rtp_port: port, ..state }, named)
}

/// The transition of the dispatcher on `event`. `fresh` is the challenge that
/// is drawn if one is needed.
pub open spec fn transition(pre: DispatcherView, event: EventView, fresh: Seq<char>) -> Move {
    match pre.phase {
        DispatchPhase::Created => match event {
            EventView::Started => receiving(pre.state, Seq::empty()),
            _ => teardown(pre.state),
        },
        DispatchPhase::Receiving => match event {
            EventView::Command(command) => on_command(pre.state, command, fresh),
            _ => teardown(pre.state),
        },
        DispatchPhase::Announcing => replying(pre.state, connect_reply()),
        DispatchPhase::Allocating => match event {
            EventView::Allocated(granted) => on_allocated(pre.state, granted),
            _ => on_allocated(pre.state, None),
        },
        DispatchPhase::Replying => match event {
            EventView::Completed => receiving(pre.state, Seq::empty()),
            _ => teardown(pre.state),
        },
        DispatchPhase::Naming => match event {
            EventView::Completed => receiving(pre.state, connected_report(pre.state)),
            _ => teardown(pre.state),
        },
        DispatchPhase::Closing => release_or_stop(pre.state),
        DispatchPhase::Releasing => Move {
            next: DispatcherView { state: pre.state, phase: DispatchPhase::Terminated },
            action: ActionView::Stop,
        },
        DispatchPhase::Terminated => Move { next: pre, action: ActionView::Stop },
    }
}

/// Whether the dispatcher can go from `pre` to `post` on `event`, asking for
/// `action`: it does what [`transition`] says for some challenge it may draw.
pub open spec fn steps_to(
    pre: DispatcherView,
    event: EventView,
    post: DispatcherView,
    action: ActionView,
) -> bool {
    exists|fresh: Seq<char>|
        is_challenge(fresh) && #[trigger] transition(pre, event, fresh) == (Move {
            next: post,
            action,
        })
}

/// Whether a command can take a session from `pre` to `post`, asking for
/// `action`.
spec fn takes_to(
    pre: SessionView,
    command: CommandView,
    post: DispatcherView,
    action: ActionView,
) -> bool {
    exists|fresh: Seq<char>|
        is_challenge(fresh) && #[trigger] on_command(pre, command, fresh) == (Move {
            next: post,
            action,
        })
}

/// One instruction made of one piece.
fn single_piece(piece: String) -> (command: FrameCommand)
    ensures
        command@ == seq![piece@],
{
    let mut data: Vec<String> = Vec::new();
    data.push(piece);
    assert(data.deep_view() =~= seq![piece@]);
    FrameCommand::Send { data }
}

/// The instruction that names `port` to the peer.
fn port_instruction(port: u16) -> (command: FrameCommand)
    ensures
        command@ == port_reply(port),
{
    let mut line = String::from_str("200 hi. Use UDP port ");
    push_decimal(&mut line, port);
    line.append("\n");
    single_piece(line)
}

impl View for Dispatcher {
    type V = DispatcherView;

    closed spec fn view(&self) -> DispatcherView {
        DispatcherView { state: self.state@, phase: self.phase }
    }
}

impl DispatcherView {
    /// The dispatcher of a connection that was just accepted.
    pub open spec fn initial() -> DispatcherView {
        DispatcherView { state: SessionView::fresh(), phase: DispatchPhase::Created }
    }
}

impl Dispatcher {
    /// The dispatcher of a connection that was just accepted.
    pub fn new() -> (dispatcher: Dispatcher)
        ensures
            dispatcher@ == DispatcherView::initial(),
    {
        Dispatcher { state: ConnectionState::new(), phase: DispatchPhase::Created }
    }

    /// The session state.
    pub fn state(&self) -> (state: &ConnectionState)
        ensures
            state@ == self@.state,
    {
        &self.state
    }

    /// What the dispatcher is waiting for.
    pub fn phase(&self) -> (phase: DispatchPhase)
        ensures
            phase == self@.phase,
    {
        self.phase
    }

    fn receive(&mut self, report: Vec<LogLine>) -> (action: DispatchAction)
        ensures
            final(self)@ == receiving(old(self)@.state, report.deep_view()).next,
            action@ == receiving(old(self)@.state, report.deep_view()).action,
    {
        self.phase = DispatchPhase::Receiving;
        DispatchAction::Receive { report }
    }

    fn receive_quietly(&mut self) -> (action: DispatchAction)
        ensures
            final(self)@ == receiving(old(self)@.state, Seq::empty()).next,
            action@ == receiving(old(self)@.state, Seq::empty()).action,
    {
        let report: Vec<LogLine> = Vec::new();
        assert(report.deep_view() =~= Seq::<LineView>::empty());
        self.receive(report)
    }

    fn reply(&mut self, command: FrameCommand) -> (action: DispatchAction)
        ensures
            final(self)@ == replying(old(self)@.state, command@).next,
            action@ == replying(old(self)@.state, command@).action,
    {
        self.phase = DispatchPhase::Replying;
        DispatchAction::Reply { command, rejected: None }
    }

    fn name_port(&mut self, port: u16) -> (action: DispatchAction)
        ensures
            final(self)@ == naming(old(self)@.state, port).next,
            action@ == naming(old(self)@.state, port).action,
    {
        self.phase = DispatchPhase::Naming;
        DispatchAction::Reply { command: port_instruction(port), rejected: None }
    }

    fn reject(&mut self, why: Rejection) -> (action: DispatchAction)
        ensures
            final(self)@ == rejecting(old(self)@.state, why).next,
            action@ == rejecting(old(self)@.state, why).action,
    {
        let data: Vec<String> = Vec::new();
        assert(data.deep_view() =~= Seq::<Seq<char>>::empty());
        self.phase = DispatchPhase::Replying;
        DispatchAction::Reply { command: FrameCommand::Send { data }, rejected: Some(why) }
    }

    fn release_or_stop(&mut self) -> (action: DispatchAction)
        ensures
            final(self)@ == release_or_stop(old(self)@.state).next,
            action@ == release_or_stop(old(self)@.state).action,
    {
        match self.state.rtp_port {
            Some(port) => {
                self.phase = DispatchPhase::Releasing;
                DispatchAction::Release { port }
            },
            None => {
                self.phase = DispatchPhase::Terminated;
                DispatchAction::Stop
            },
        }
    }

    fn teardown(&mut self) -> (action: DispatchAction)
        ensures
            final(self)@ == teardown(old(self)@.state).next,
            action@ == teardown(old(self)@.state).action,
    {
        match &self.state.stream_key {
            Some(stream_key) => {
                let message = stream_end_message(stream_key.as_str());
                self.phase = DispatchPhase::Closing;
                DispatchAction::AnnounceEnd { message }
            },
            None => self.release_or_stop(),
        }
    }

    fn allocated(&mut self, granted: Option<u16>) -> (action: DispatchAction)
        ensures
            final(self)@ == on_allocated(old(self)@.state, granted).next,
            action@ == on_allocated(old(self)@.state, granted).action,
    {
        if self.state.rtp_port.is_none() {
            self.state.rtp_port = granted;
        }
        let named = match self.state.rtp_port {
            Some(port) => port,
            None => FALLBACK_PORT,
        };
        self.name_port(named)
    }

    /// Applies one command of the peer: the state is updated and the next
    /// action is chosen by the command's kind.
    fn take_command(&mut self, command: FtlCommand) -> (action: DispatchAction)
        ensures
            takes_to(old(self)@.state, command@, final(self)@, action@),
    {
        let ghost pre = self@.state;
        let ghost seen = command@;
        proof {
            lemma_challenge_exists();
        }
        let ghost mut fresh: Seq<char> = choose|text: Seq<char>| is_challenge(text);
        let action = match command {
            FtlCommand::HMAC => {
                if self.state.hmac_payload.is_none() {
                    let drawn = generate_hmac();
                    proof {
                        fresh = drawn@;
                    }
                    self.state.hmac_payload = Some(drawn);
                }
                let mut data: Vec<String> = Vec::new();
                data.push(String::from_str("200 "));
                data.push(self.state.get_payload());
                data.push(String::from_str("\n"));
                assert(data.deep_view() =~= challenge_reply(self.state@.payload()));
                self.reply(FrameCommand::Send { data })
            },
            FtlCommand::Connect { stream_key: None, channel_id: _ } => self.reject(
                Rejection::MissingStreamKey,
            ),
            FtlCommand::Connect { stream_key: Some(_), channel_id: None } => self.reject(
                Rejection::MissingChannelId,
            ),
            FtlCommand::Connect { stream_key: Some(stream_key), channel_id: Some(_) } => {
                if self.state.stream_key.is_none() {
                    let message = stream_start_message(stream_key.as_str());
                    self.state.stream_key = Some(stream_key);
                    self.phase = DispatchPhase::Announcing;
                    DispatchAction::AnnounceStart { message }
                } else {
                    self.reply(single_piece(String::from_str("200\n")))
                }
            },
            FtlCommand::Attribute { key: None, value: _ } => self.reject(
                Rejection::MissingAttributeKey,
            ),
            FtlCommand::Attribute { key: Some(_), value: None } => self.reject(
                Rejection::MissingAttributeValue,
            ),
            FtlCommand::Attribute { key: Some(key), value: Some(value) } => {
                match self.state.set_attribute(&key, value) {
                    Ok(()) => self.reply(single_piece(String::from_str(""))),
                    Err(why) => self.reject(why),
                }
            },
            FtlCommand::Dot => {
                match self.state.rtp_port {
                    Some(port) => self.name_port(port),
                    None => {
                        self.phase = DispatchPhase::Allocating;
                        DispatchAction::Allocate
                    },
                }
            },
            FtlCommand::Ping => self.reply(single_piece(String::from_str("201\n"))),
            FtlCommand::Disconnect => self.teardown(),
            FtlCommand::Unknown => self.reject(Rejection::Unimplemented),
        };
        assert(on_command(pre, seen, fresh) == (Move { next: self@, action: action@ }));
        action
    }

    /// Takes a command that the frame task forwarded: the step on that
    /// event. While a command is waited for, the state is updated and the
    /// next action is chosen by the command's kind.
    pub fn handle_command(&mut self, command: FtlCommand) -> (action: DispatchAction)
        ensures
            steps_to(old(self)@, EventView::Command(command@), final(self)@, action@),
    {
        self.step(DispatchEvent::Command(command))
    }

    /// Takes the outcome of the last action and answers with the next one.
    ///
    /// An event that does not answer what the dispatcher was waiting for
    /// counts as that action's failure.
    pub fn step(&mut self, event: DispatchEvent) -> (action: DispatchAction)
        ensures
            steps_to(old(self)@, event@, final(self)@, action@),
    {
        let ghost pre = self@;
        let ghost seen = event@;
        proof {
            lemma_challenge_exists();
        }
        let ghost mut fresh: Seq<char> = choose|text: Seq<char>| is_challenge(text);
        let action = match self.phase {
            DispatchPhase::Created => match event {
                DispatchEvent::Started => self.receive_quietly(),
                _ => self.teardown(),
            },
            DispatchPhase::Receiving => match event {
                DispatchEvent::Command(command) => {
                    let action = self.take_command(command);
                    proof {
                        fresh = choose|text: Seq<char>|
                            is_challenge(text) && #[trigger] on_command(pre.state, seen->Command_0, text)
                                == (Move { next: self@, action: action@ });
                    }
                    action
                },
                _ => self.teardown(),
            },
            DispatchPhase::Announcing => self.reply(single_piece(String::from_str("200\n"))),
            DispatchPhase::Allocating => match event {
                DispatchEvent::Allocated(granted) => self.allocated(granted),
                _ => self.allocated(None),
            },
            DispatchPhase::Replying => match event {
                DispatchEvent::Completed => self.receive_quietly(),
                _ => self.teardown(),
            },
            DispatchPhase::Naming => match event {
                DispatchEvent::Completed => {
                    let mut report: Vec<LogLine> = Vec::new();
                    report.push(
                        LogLine { level: Severity::Info, text: String::from_str("Client connected!") },
                    );
                    let mut lines = self.state.print();
                    report.append(&mut lines);
                    assert(report.deep_view() =~= connected_report(self.state@));
                    self.receive(report)
                },
                _ => self.teardown(),
            },
            DispatchPhase::Closing => self.release_or_stop(),
            DispatchPhase::Releasing => {
                self.phase = DispatchPhase::Terminated;
                DispatchAction::Stop
            },
            DispatchPhase::Terminated => DispatchAction::Stop,
        };
        assert(transition(pre, seen, fresh) == (Move { next: self@, action: action@ }));
        action
    }
}

} // verus!

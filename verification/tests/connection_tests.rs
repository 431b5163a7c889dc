use std::collections::VecDeque;

use ingest::command::FrameCommand;
use ingest::command::FtlCommand;
use ingest::command::Rejection;
use ingest::connection::Connection;
use ingest::dispatcher::DispatchAction;
use ingest::dispatcher::DispatchEvent;
use ingest::dispatcher::DispatchPhase;
use ingest::dispatcher::Dispatcher;
use ingest::frame::FrameAction;
use ingest::frame::FrameEvent;
use ingest::frame::FramePhase;

/// What the outside world saw of one connection.
#[derive(Debug, Default)]
struct Seen {
    socket: String,
    starts: Vec<String>,
    ends: Vec<String>,
    allocations: usize,
    releases: Vec<u16>,
    rejections: Vec<Rejection>,
    decoded: usize,
    reports: usize,
}

struct Session {
    dispatcher: Dispatcher,
    pending: DispatchEvent,
    over: bool,
    grants: VecDeque<Option<u16>>,
    seen: Seen,
}

impl Session {
    /// Runs the dispatcher until it hands over an instruction or stops.
    /// `command` is what the channel holds; `None` is the closed channel.
    fn serve(&mut self, command: Option<FtlCommand>) -> Option<FrameCommand> {
        let mut command = Some(command);
        while !self.over {
            let event = std::mem::replace(&mut self.pending, DispatchEvent::Failed);
            self.pending = match self.dispatcher.step(event) {
                DispatchAction::Receive { report } => {
                    if !report.is_empty() {
                        self.seen.reports += 1;
                    }
                    match command.take().expect("only one command is in flight") {
                        Some(command) => DispatchEvent::Command(command),
                        None => DispatchEvent::Closed,
                    }
                }
                DispatchAction::AnnounceStart { message } => {
                    self.seen.starts.push(message);
                    DispatchEvent::Completed
                }
                DispatchAction::Allocate => {
                    self.seen.allocations += 1;
                    DispatchEvent::Allocated(self.grants.pop_front().flatten())
                }
                DispatchAction::Reply { command: instruction, rejected } => {
                    if let Some(why) = rejected {
                        self.seen.rejections.push(why);
                    }
                    self.pending = DispatchEvent::Completed;
                    return Some(instruction);
                }
                DispatchAction::AnnounceEnd { message } => {
                    self.seen.ends.push(message);
                    DispatchEvent::Completed
                }
                DispatchAction::Release { port } => {
                    self.seen.releases.push(port);
                    DispatchEvent::Completed
                }
                DispatchAction::Stop => {
                    self.over = true;
                    DispatchEvent::Failed
                }
            };
        }
        None
    }
}

/// Runs both tasks of a connection over `commands`, after which the socket
/// is closed. Every write succeeds; the allocation service answers with
/// `grants`, one after the other, and with nothing once they are used up.
fn run(commands: Vec<FtlCommand>, grants: Vec<Option<u16>>) -> (Seen, Dispatcher) {
    let Connection { frame: mut task, dispatcher } = Connection::init();
    let mut session = Session {
        dispatcher,
        pending: DispatchEvent::Started,
        over: false,
        grants: grants.into(),
        seen: Seen::default(),
    };
    let mut socket: VecDeque<FtlCommand> = commands.into();
    let mut channel: Option<FtlCommand> = None;
    let mut event = FrameEvent::Started;
    loop {
        event = match task.step(event) {
            FrameAction::Decode => match socket.pop_front() {
                Some(command) => {
                    session.seen.decoded += 1;
                    FrameEvent::Decoded(command)
                }
                None => FrameEvent::Failed,
            },
            FrameAction::Forward(command) => {
                assert!(channel.is_none());
                channel = Some(command);
                FrameEvent::Completed
            }
            FrameAction::Await => {
                let command = channel.take().expect("a command was forwarded");
                match session.serve(Some(command)) {
                    Some(instruction) => FrameEvent::Instruction(instruction),
                    None => FrameEvent::Failed,
                }
            }
            FrameAction::Write(piece) => {
                session.seen.socket.push_str(&piece);
                FrameEvent::Completed
            }
            FrameAction::Stop => break,
        };
    }
    assert_eq!(task.phase(), FramePhase::Stopped);
    assert!(session.serve(None).is_none());
    assert_eq!(session.dispatcher.phase(), DispatchPhase::Terminated);
    (session.seen, session.dispatcher)
}

fn text(s: &str) -> Option<String> {
    Some(s.to_string())
}

fn attribute(key: &str, value: &str) -> FtlCommand {
    FtlCommand::Attribute { key: text(key), value: text(value) }
}

fn connect(stream_key: &str, channel_id: &str) -> FtlCommand {
    FtlCommand::Connect { stream_key: text(stream_key), channel_id: text(channel_id) }
}

#[test]
fn rejected_attribute_writes_nothing_and_the_keepalive_is_answered() {
    let (seen, dispatcher) = run(vec![attribute("Video", "maybe"), FtlCommand::Ping], vec![]);
    assert_eq!(seen.socket, "201\n");
    assert_eq!(seen.decoded, 2);
    assert_eq!(seen.rejections, vec![Rejection::InvalidVideoValue]);
    assert!(!dispatcher.state().video);
}

#[test]
fn every_kind_of_rejection_leaves_the_session_running() {
    let (seen, _) = run(
        vec![
            FtlCommand::Connect { stream_key: None, channel_id: text("7") },
            FtlCommand::Ping,
            FtlCommand::Connect { stream_key: text("k"), channel_id: None },
            FtlCommand::Ping,
            FtlCommand::Attribute { key: None, value: text("v") },
            FtlCommand::Ping,
            FtlCommand::Attribute { key: text("Video"), value: None },
            FtlCommand::Ping,
            attribute("Video", "maybe"),
            FtlCommand::Ping,
            attribute("Audio", "maybe"),
            FtlCommand::Ping,
            attribute("Colour", "blue"),
            FtlCommand::Ping,
            FtlCommand::Unknown,
            FtlCommand::Ping,
        ],
        vec![],
    );
    assert_eq!(seen.socket, "201\n".repeat(8));
    assert_eq!(seen.decoded, 16);
    assert_eq!(
        seen.rejections,
        vec![
            Rejection::MissingStreamKey,
            Rejection::MissingChannelId,
            Rejection::MissingAttributeKey,
            Rejection::MissingAttributeValue,
            Rejection::InvalidVideoValue,
            Rejection::InvalidAudioValue,
            Rejection::UnknownAttribute,
            Rejection::Unimplemented,
        ]
    );
    assert!(seen.starts.is_empty());
    assert!(seen.ends.is_empty());
    assert!(seen.releases.is_empty());
}

#[test]
fn whole_session_over_both_tasks() {
    let (seen, dispatcher) = run(
        vec![
            FtlCommand::HMAC,
            connect("abc123", "7"),
            attribute("Video", "true"),
            FtlCommand::Dot,
            FtlCommand::Disconnect,
            FtlCommand::Ping,
        ],
        vec![Some(5000)],
    );
    let payload = dispatcher.state().get_payload();
    assert_eq!(payload.len(), 256);
    assert!(payload.chars().all(|c| matches!(c, '0'..='9' | 'a'..='f')));
    assert_eq!(
        seen.socket,
        format!("200 {}\n200\n200 hi. Use UDP port 5000\n", payload)
    );
    assert_eq!(seen.starts, vec!["{\"stream_key\":\"abc123\"}".to_string()]);
    assert_eq!(seen.ends, vec!["{\"stream_key\":\"abc123\",\"status\":\"ended\"}".to_string()]);
    assert_eq!(seen.allocations, 1);
    assert_eq!(seen.releases, vec![5000]);
    assert_eq!(seen.reports, 1);
    assert_eq!(seen.decoded, 5);
    assert!(dispatcher.state().video);
}

#[test]
fn responses_reach_the_socket_in_the_order_of_the_commands() {
    let (seen, _) = run(
        vec![
            FtlCommand::Ping,
            connect("k", "1"),
            FtlCommand::Dot,
            attribute("VideoCodec", "H264"),
            FtlCommand::Ping,
            FtlCommand::Dot,
        ],
        vec![None, Some(42)],
    );
    assert_eq!(
        seen.socket,
        "201\n200\n200 hi. Use UDP port 65535\n201\n200 hi. Use UDP port 42\n"
    );
    assert_eq!(seen.allocations, 2);
    assert_eq!(seen.releases, vec![42]);
    assert_eq!(seen.ends.len(), 1);
    assert_eq!(seen.reports, 2);
}

#[test]
fn closed_socket_cleans_up_once() {
    let (seen, _) = run(vec![connect("abc123", "7"), FtlCommand::Dot], vec![Some(6000)]);
    assert_eq!(seen.socket, "200\n200 hi. Use UDP port 6000\n");
    assert_eq!(seen.ends, vec!["{\"stream_key\":\"abc123\",\"status\":\"ended\"}".to_string()]);
    assert_eq!(seen.releases, vec![6000]);
}

#[test]
fn unreachable_allocator_still_answers_with_the_fallback_port() {
    let (seen, dispatcher) = run(vec![FtlCommand::Dot], vec![]);
    assert_eq!(seen.socket, "200 hi. Use UDP port 65535\n");
    assert_eq!(dispatcher.state().rtp_port, None);
    assert!(seen.releases.is_empty());
}

#[test]
fn empty_connection_stops_both_tasks() {
    let (seen, _) = run(vec![], vec![]);
    assert_eq!(seen.socket, "");
    assert_eq!(seen.decoded, 0);
    assert!(seen.ends.is_empty());
    assert!(seen.releases.is_empty());
}
